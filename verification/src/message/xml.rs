//! A parsed XML document, reduced to what the protocol reads: element
//! names, inner text, and child elements in document order.

use vstd::prelude::*;

verus! {

/// One XML element. `text` is the concatenated text/CDATA content, `None`
/// when the element has none; `children` holds the element children in
/// document order (text nodes, comments and processing instructions are
/// not represented).
pub struct XmlElement {
    pub name: String,
    pub text: Option<String>,
    pub children: Vec<XmlElement>,
}

/// The element tree that a well-formed XML document denotes, `None` for a
/// malformed document. The tree is a function of the bytes alone.
pub uninterp spec fn spec_parse_xml(data: Seq<u8>) -> Option<XmlElement>;

/// Relies on xmltree::Element::parse: returns the root element of a
/// well-formed XML document and fails on a malformed one; the result is
/// deterministic in the input bytes.
#[verifier::external_body]
pub fn parse_xml(data: &[u8]) -> (r: Option<XmlElement>)
    ensures
        r == spec_parse_xml(data@),
{
    match xmltree::Element::parse(data) {
        Ok(e) => Some(convert_element(e)),
        Err(_) => None,
    }
}

#[verifier::external_type_specification]
#[verifier::external_body]
pub struct ExElement(xmltree::Element);

/// Relies on the fields of xmltree::Element and on Element::get_text: maps
/// a node of the outside tree to its local name, inner text, and element
/// children, one for one.
#[verifier::external_body]
fn convert_element(e: xmltree::Element) -> XmlElement {
    let text = e.get_text().map(|t| t.into_owned());
    let mut children = Vec::new();
    for node in e.children {
        if let xmltree::XMLNode::Element(child) = node {
            children.push(convert_element(child));
        }
    }
    XmlElement { name: e.name, text, children }
}

/// The first child element called `name`, searched in document order.
pub open spec fn spec_find_child(children: Seq<XmlElement>, name: Seq<char>) -> Option<XmlElement>
    decreases children.len(),
{
    if children.len() == 0 {
        None
    } else if children[0].name@ == name {
        Some(children[0])
    } else {
        spec_find_child(children.drop_first(), name)
    }
}

/// The text of the first child element called `name`: `None` when no such
/// child exists or it has no text.
pub open spec fn spec_child_text(e: XmlElement, name: Seq<char>) -> Option<Seq<char>> {
    match spec_find_child(e.children@, name) {
        Some(c) => match c.text {
            Some(t) => Some(t@),
            None => None,
        },
        None => None,
    }
}

impl XmlElement {
    /// The first child element with the given name, as `get_child` of the
    /// underlying XML library finds it.
    pub fn get_child<'a>(&'a self, name: &str) -> (r: Option<&'a XmlElement>)
        ensures
            (r matches Some(c) ==> spec_find_child(self.children@, name@) == Some(*c)),
            r is None ==> spec_find_child(self.children@, name@) is None,
    {
        let n = self.children.len();
        let mut i: usize = 0;
        proof {
            assert(self.children@.skip(0) =~= self.children@);
        }
        while i < n
            invariant
                i <= n,
                n == self.children@.len(),
                spec_find_child(self.children@, name@) == spec_find_child(
                    self.children@.skip(i as int),
                    name@,
                ),
            decreases n - i,
        {
            proof {
                assert(self.children@.skip(i as int)[0] == self.children@[i as int]);
            }
            if str_eq(self.children[i].name.as_str(), name) {
                return Some(&self.children[i]);
            }
            proof {
                assert(self.children@.skip(i as int).drop_first() =~= self.children@.skip(
                    i + 1,
                ));
            }
            i = i + 1;
        }
        None
    }
}

/// Relies on str's PartialEq: two string slices are equal exactly when
/// their text is.
#[verifier::external_body]
pub fn str_eq(a: &str, b: &str) -> (r: bool)
    ensures
        r == (a@ == b@),
{
    a == b
}

} // verus!
