//! The job status message: overall job state and the reported pages.

use vstd::prelude::*;

use crate::message::error::{ParseError, ParseErrorV};
use crate::message::util::{parse_u32, read_child_value, spec_parse_u32};
use crate::message::xml::{parse_xml, spec_child_text, spec_find_child, str_eq, XmlElement};

verus! {

/// The state of a scan job as a whole.
#[derive(Clone, Copy, Debug, PartialEq, Eq, Structural)]
pub enum JobState {
    Processing,
    Completed,
    Canceled,
}

/// The state of one reported page; only a page ready for upload carries
/// the URL its bytes can be fetched from.
#[derive(Clone, Debug, PartialEq, Eq)]
pub enum PageState {
    PreparingScan,
    ReadyToUpload { binary_url: String },
    UploadCompleted,
    CanceledByDevice,
}

/// The mathematical shape of a `PageState`, the URL abstracted to its
/// character sequence.
pub enum PageStateV {
    PreparingScan,
    ReadyToUpload(Seq<char>),
    UploadCompleted,
    CanceledByDevice,
}

impl View for PageState {
    type V = PageStateV;

    open spec fn view(&self) -> PageStateV {
        match self {
            PageState::PreparingScan => PageStateV::PreparingScan,
            PageState::ReadyToUpload { binary_url } => PageStateV::ReadyToUpload(binary_url@),
            PageState::UploadCompleted => PageStateV::UploadCompleted,
            PageState::CanceledByDevice => PageStateV::CanceledByDevice,
        }
    }
}

/// The job state a `JobState` element's text denotes, `None` for text
/// outside the vocabulary.
pub open spec fn spec_job_state(s: Seq<char>) -> Option<JobState> {
    if s == "Processing"@ {
        Some(JobState::Processing)
    } else if s == "Completed"@ {
        Some(JobState::Completed)
    } else if s == "Canceled"@ {
        Some(JobState::Canceled)
    } else {
        None
    }
}

impl JobState {
    /// Decodes the text of a `JobState` element; anything outside the
    /// vocabulary is an `UnknownEnumValue` failure.
    pub fn parse(s: &str) -> (r: Result<JobState, ParseError>)
        ensures
            (spec_job_state(s@) matches Some(v) ==> r == Ok::<JobState, ParseError>(v)),
            spec_job_state(s@) is None ==> (r matches Err(e) && e matches
                ParseError::UnknownEnumValue { name, value } && name@ == "JobState"@ && value@
                == s@),
    {
        if str_eq(s, "Processing") {
            Ok(JobState::Processing)
        } else if str_eq(s, "Completed") {
            Ok(JobState::Completed)
        } else if str_eq(s, "Canceled") {
            Ok(JobState::Canceled)
        } else {
            Err(ParseError::unknown_enum_value("JobState", s))
        }
    }
}

/// One page of a job as the device reports it.
#[derive(Debug, PartialEq, Eq)]
pub struct ScanPage {
    pub number: u32,
    pub state: PageState,
}

/// The mathematical shape of a `ScanPage`.
pub struct ScanPageV {
    pub number: u32,
    pub state: PageStateV,
}

impl View for ScanPage {
    type V = ScanPageV;

    open spec fn view(&self) -> ScanPageV {
        ScanPageV { number: self.number, state: self.state@ }
    }
}

impl ScanPage {
    pub fn new(number: u32, state: PageState) -> (r: ScanPage)
        ensures
            r == (ScanPage { number, state }),
    {
        ScanPage { number, state }
    }

    pub fn number(&self) -> (r: u32)
        ensures
            r == self.number,
    {
        self.number
    }

    pub fn state(&self) -> (r: &PageState)
        ensures
            r == &self.state,
    {
        &self.state
    }

    /// The URL the page's bytes can be fetched from, present exactly when
    /// the page is ready for upload.
    pub fn binary_url(&self) -> (r: Option<&String>)
        ensures
            (self.state matches PageState::ReadyToUpload { binary_url } ==> (r matches Some(u)
                && u == &binary_url)),
            !(self.state matches PageState::ReadyToUpload { .. }) ==> r is None,
    {
        match &self.state {
            PageState::ReadyToUpload { binary_url } => Some(binary_url),
            _ => None,
        }
    }
}

/// Whether a child element of `ScanJob` reports a page; other names are
/// ignored for forward compatibility.
pub open spec fn spec_is_page_element(e: XmlElement) -> bool {
    e.name@ == "PreScanPage"@ || e.name@ == "PostScanPage"@
}

/// What decoding one page element yields: its number, its state, and for
/// a page ready for upload the URL of its bytes; or the first failure.
pub open spec fn spec_read_page(e: XmlElement) -> Result<ScanPageV, ParseErrorV> {
    match spec_child_text(e, "PageNumber"@) {
        None => Err(ParseErrorV::MissingElement("PageNumber"@)),
        Some(nt) => match spec_parse_u32(nt) {
            None => Err(ParseErrorV::Int),
            Some(n) => match spec_child_text(e, "PageState"@) {
                None => Err(ParseErrorV::MissingElement("PageState"@)),
                Some(t) => if t == "PreparingScan"@ {
                    Ok(ScanPageV { number: n, state: PageStateV::PreparingScan })
                } else if t == "ReadyToUpload"@ {
                    match spec_child_text(e, "BinaryURL"@) {
                        None => Err(ParseErrorV::MissingElement("BinaryURL"@)),
                        Some(u) => Ok(
                            ScanPageV { number: n, state: PageStateV::ReadyToUpload(u) },
                        ),
                    }
                } else if t == "UploadCompleted"@ {
                    Ok(ScanPageV { number: n, state: PageStateV::UploadCompleted })
                } else if t == "CanceledByDevice"@ {
                    Ok(ScanPageV { number: n, state: PageStateV::CanceledByDevice })
                } else {
                    Err(ParseErrorV::UnknownEnumValue("PageState"@, t))
                },
            },
        },
    }
}

/// Decodes one page element of the job status document.
fn read_page(element: &XmlElement) -> (r: Result<ScanPage, ParseError>)
    ensures
        (r matches Ok(p) && spec_read_page(*element) matches Ok(v) && p@ == v) || (
        r matches Err(e) && spec_read_page(*element) matches Err(v) && e@ == v),
{
    let number_text = match read_child_value(element, "PageNumber") {
        Ok(t) => t,
        Err(e) => {
            return Err(e);
        },
    };
    let number = match parse_u32(number_text.as_str()) {
        Ok(n) => n,
        Err(e) => {
            return Err(e);
        },
    };
    let state_text = match read_child_value(element, "PageState") {
        Ok(t) => t,
        Err(e) => {
            return Err(e);
        },
    };
    let state = if str_eq(state_text.as_str(), "PreparingScan") {
        PageState::PreparingScan
    } else if str_eq(state_text.as_str(), "ReadyToUpload") {
        match read_child_value(element, "BinaryURL") {
            Ok(u) => PageState::ReadyToUpload { binary_url: u.clone() },
            Err(e) => {
                return Err(e);
            },
        }
    } else if str_eq(state_text.as_str(), "UploadCompleted") {
        PageState::UploadCompleted
    } else if str_eq(state_text.as_str(), "CanceledByDevice") {
        PageState::CanceledByDevice
    } else {
        return Err(ParseError::unknown_enum_value("PageState", state_text.as_str()));
    };
    Ok(ScanPage::new(number, state))
}

/// What decoding the page elements among `children` yields, in document
/// order; the first failing page element aborts the collection.
pub open spec fn spec_read_pages(children: Seq<XmlElement>) -> Result<Seq<ScanPageV>, ParseErrorV>
    decreases children.len(),
{
    if children.len() == 0 {
        Ok(Seq::empty())
    } else if spec_is_page_element(children[0]) {
        match spec_read_page(children[0]) {
            Err(e) => Err(e),
            Ok(p) => match spec_read_pages(children.drop_first()) {
                Err(e) => Err(e),
                Ok(ps) => Ok(seq![p] + ps),
            },
        }
    } else {
        spec_read_pages(children.drop_first())
    }
}

/// The views of a sequence of decoded pages.
pub open spec fn spec_pages_view(pages: Seq<ScanPage>) -> Seq<ScanPageV> {
    pages.map(|i: int, p: ScanPage| p@)
}

/// The job status: the job's state and its pages in document order.
#[derive(Debug, PartialEq, Eq)]
pub struct ScanJobStatus {
    pub state: JobState,
    pub pages: Vec<ScanPage>,
}

/// The mathematical shape of a `ScanJobStatus`.
pub struct ScanJobStatusV {
    pub state: JobState,
    pub pages: Seq<ScanPageV>,
}

impl View for ScanJobStatus {
    type V = ScanJobStatusV;

    open spec fn view(&self) -> ScanJobStatusV {
        ScanJobStatusV { state: self.state, pages: spec_pages_view(self.pages@) }
    }
}

/// What decoding a job status document yields: the `JobState` element
/// first, then the pages under the required `ScanJob` element.
pub open spec fn spec_scan_job_status(data: Seq<u8>) -> Result<ScanJobStatusV, ParseErrorV> {
    match crate::message::xml::spec_parse_xml(data) {
        None => Err(ParseErrorV::Xml),
        Some(doc) => match spec_child_text(doc, "JobState"@) {
            None => Err(ParseErrorV::MissingElement("JobState"@)),
            Some(t) => match spec_job_state(t) {
                None => Err(ParseErrorV::UnknownEnumValue("JobState"@, t)),
                Some(js) => match spec_find_child(doc.children@, "ScanJob"@) {
                    None => Err(ParseErrorV::MissingElement("ScanJob"@)),
                    Some(job) => match spec_read_pages(job.children@) {
                        Err(e) => Err(e),
                        Ok(ps) => Ok(ScanJobStatusV { state: js, pages: ps }),
                    },
                },
            },
        },
    }
}

impl ScanJobStatus {
    pub fn new(state: JobState, pages: Vec<ScanPage>) -> (r: ScanJobStatus)
        ensures
            r == (ScanJobStatus { state, pages }),
    {
        ScanJobStatus { state, pages }
    }

    pub fn state(&self) -> (r: JobState)
        ensures
            r == self.state,
    {
        self.state
    }

    pub fn pages(&self) -> (r: &Vec<ScanPage>)
        ensures
            r == &self.pages,
    {
        &self.pages
    }

    /// Decodes a job status document: reads the `JobState` element, then
    /// collects the pages under the required `ScanJob` element in document
    /// order, ignoring children with other names.
    pub fn read_xml(data: &[u8]) -> (r: Result<ScanJobStatus, ParseError>)
        ensures
            (r matches Ok(st) && spec_scan_job_status(data@) matches Ok(v) && st@ == v) || (
            r matches Err(e) && spec_scan_job_status(data@) matches Err(v) && e@ == v),
    {
        let doc = match parse_xml(data) {
            Some(doc) => doc,
            None => {
                return Err(ParseError::Xml);
            },
        };
        let state_text = match read_child_value(&doc, "JobState") {
            Ok(t) => t,
            Err(e) => {
                return Err(e);
            },
        };
        let state = match JobState::parse(state_text.as_str()) {
            Ok(s) => s,
            Err(e) => {
                return Err(e);
            },
        };
        let job = match doc.get_child("ScanJob") {
            Some(j) => j,
            None => {
                return Err(ParseError::missing_element("ScanJob"));
            },
        };
        let n = job.children.len();
        let mut pages: Vec<ScanPage> = Vec::new();
        let mut i: usize = 0;
        proof {
            assert(job.children@.skip(0) =~= job.children@);
            assert(spec_pages_view(pages@) + spec_read_pages(job.children@)->Ok_0
                =~= spec_read_pages(job.children@)->Ok_0);
        }
        while i < n
            invariant
                i <= n,
                n == job.children@.len(),
                spec_scan_job_status(data@) == (match spec_read_pages(job.children@) {
                    Err(e) => Err::<ScanJobStatusV, _>(e),
                    Ok(ps) => Ok::<_, ParseErrorV>(ScanJobStatusV { state, pages: ps }),
                }),
                (match spec_read_pages(job.children@.skip(i as int)) {
                    Ok(rest) => spec_read_pages(job.children@) == Ok::<_, ParseErrorV>(
                        spec_pages_view(pages@) + rest,
                    ),
                    Err(e) => spec_read_pages(job.children@) == Err::<Seq<ScanPageV>, _>(e),
                }),
            decreases n - i,
        {
            let child = &job.children[i];
            proof {
                assert(job.children@.skip(i as int)[0] == job.children@[i as int]);
                assert(job.children@.skip(i as int).drop_first() =~= job.children@.skip(
                    i + 1,
                ));
            }
            if str_eq(child.name.as_str(), "PreScanPage") || str_eq(
                child.name.as_str(),
                "PostScanPage",
            ) {
                let page = match read_page(child) {
                    Ok(p) => p,
                    Err(e) => {
                        return Err(e);
                    },
                };
                let ghost old_pages = pages@;
                pages.push(page);
                proof {
                    assert(spec_pages_view(pages@) =~= spec_pages_view(old_pages) + seq![
                        page@,
                    ]);
                    match spec_read_pages(job.children@.skip(i + 1)) {
                        Ok(rest) => {
                            assert(spec_pages_view(old_pages) + (seq![page@] + rest)
                                =~= spec_pages_view(pages@) + rest);
                        },
                        Err(_) => {},
                    }
                }
            }
            i = i + 1;
        }
        proof {
            assert(job.children@.skip(n as int) =~= Seq::<XmlElement>::empty());
            assert(spec_pages_view(pages@) + Seq::<ScanPageV>::empty() =~= spec_pages_view(
                pages@,
            ));
        }
        Ok(ScanJobStatus::new(state, pages))
    }
}

} // verus!
