//! Decoding of the scan form's parameters: each field falls back to a
//! default when absent or unrecognized, and a quality profile bundles
//! resolution and compression. Also the content-disposition value built
//! around the output file name.

use vstd::prelude::*;

use crate::message::scan_job::{ColorSpace, Format};
use crate::message::xml::str_eq;
use crate::util::Source;

verus! {

/// A named trade-off between resolution and compression quality.
#[derive(Clone, Copy, Debug, PartialEq, Eq, Structural)]
pub enum QualityProfile {
    Base,
    High,
    Best,
}

impl QualityProfile {
    /// The scan resolution of the profile, in dots per inch.
    pub fn resolution(&self) -> (r: u32)
        ensures
            r == (match *self {
                QualityProfile::Base => 300u32,
                QualityProfile::High => 600u32,
                QualityProfile::Best => 600u32,
            }),
    {
        match self {
            QualityProfile::Base => 300,
            QualityProfile::High => 600,
            QualityProfile::Best => 600,
        }
    }

    /// The compression factor of the profile; lower is better.
    pub fn quality(&self) -> (r: u32)
        ensures
            r == (match *self {
                QualityProfile::Base => 25u32,
                QualityProfile::High => 25u32,
                QualityProfile::Best => 1u32,
            }),
    {
        match self {
            QualityProfile::Base => 25,
            QualityProfile::High => 25,
            QualityProfile::Best => 1,
        }
    }
}

/// The format a form value selects; anything else means PDF.
pub open spec fn spec_format_param(value: Option<Seq<char>>) -> Format {
    match value {
        Some(v) => if v == "jpeg"@ {
            Format::Jpeg
        } else {
            Format::Pdf
        },
        None => Format::Pdf,
    }
}

/// Reads the `format` form field, defaulting to PDF.
pub fn get_format_param(value: Option<&str>) -> (r: Format)
    ensures
        r == spec_format_param(match value {
            Some(v) => Some(v@),
            None => None,
        }),
{
    match value {
        Some(v) => if str_eq(v, "jpeg") {
            Format::Jpeg
        } else {
            Format::Pdf
        },
        None => Format::Pdf,
    }
}

/// The color space a form value selects; anything else means color.
pub open spec fn spec_colorspace_param(value: Option<Seq<char>>) -> ColorSpace {
    match value {
        Some(v) => if v == "gray"@ {
            ColorSpace::Gray
        } else {
            ColorSpace::Color
        },
        None => ColorSpace::Color,
    }
}

/// Reads the `colorspace` form field, defaulting to color.
pub fn get_colorspace_param(value: Option<&str>) -> (r: ColorSpace)
    ensures
        r == spec_colorspace_param(match value {
            Some(v) => Some(v@),
            None => None,
        }),
{
    match value {
        Some(v) => if str_eq(v, "gray") {
            ColorSpace::Gray
        } else {
            ColorSpace::Color
        },
        None => ColorSpace::Color,
    }
}

/// The source a form value selects; anything else means automatic.
pub open spec fn spec_source_param(value: Option<Seq<char>>) -> Source {
    match value {
        Some(v) => if v == "adf"@ {
            Source::Adf
        } else if v == "glass"@ {
            Source::Glass
        } else {
            Source::Auto
        },
        None => Source::Auto,
    }
}

/// Reads the `source` form field, defaulting to automatic selection.
pub fn get_source_param(value: Option<&str>) -> (r: Source)
    ensures
        r == spec_source_param(match value {
            Some(v) => Some(v@),
            None => None,
        }),
{
    match value {
        Some(v) => if str_eq(v, "adf") {
            Source::Adf
        } else if str_eq(v, "glass") {
            Source::Glass
        } else {
            Source::Auto
        },
        None => Source::Auto,
    }
}

/// The profile a form value selects; anything else means the base
/// profile.
pub open spec fn spec_quality_param(value: Option<Seq<char>>) -> QualityProfile {
    match value {
        Some(v) => if v == "high"@ {
            QualityProfile::High
        } else if v == "best"@ {
            QualityProfile::Best
        } else {
            QualityProfile::Base
        },
        None => QualityProfile::Base,
    }
}

/// Reads the `quality` form field as a resolution and compression pair,
/// defaulting to the base profile.
pub fn get_quality_param(value: Option<&str>) -> (r: (u32, u32))
    ensures
        ({
            let p = spec_quality_param(match value {
                Some(v) => Some(v@),
                None => None,
            });
            r == (match p {
                QualityProfile::Base => (300u32, 25u32),
                QualityProfile::High => (600u32, 25u32),
                QualityProfile::Best => (600u32, 1u32),
            })
        }),
{
    let profile = match value {
        Some(v) => if str_eq(v, "high") {
            QualityProfile::High
        } else if str_eq(v, "best") {
            QualityProfile::Best
        } else {
            QualityProfile::Base
        },
        None => QualityProfile::Base,
    };
    (profile.resolution(), profile.quality())
}

/// The content-disposition an output file is served with: an attachment
/// named plainly for an ASCII file name, and in the UTF-8 extended form
/// otherwise.
pub fn content_disposition(filename: &str) -> (r: String)
    ensures
        vstd::string::is_ascii(filename) ==> r@ == "attachment; filename="@ + filename@,
        !vstd::string::is_ascii(filename) ==> r@ == "attachment; filename*=utf-8''"@
            + filename@,
{
    let mut value = "attachment; ".to_owned();
    if filename.is_ascii() {
        value.append("filename=");
    } else {
        value.append("filename*=utf-8''");
    }
    value.append(filename);
    proof {
        reveal_strlit("attachment; ");
        reveal_strlit("filename=");
        reveal_strlit("filename*=utf-8''");
        reveal_strlit("attachment; filename=");
        reveal_strlit("attachment; filename*=utf-8''");
        if vstd::string::is_ascii(filename) {
            assert(value@ =~= "attachment; filename="@ + filename@);
        } else {
            assert(value@ =~= "attachment; filename*=utf-8''"@ + filename@);
        }
    }
    value
}

} // verus!
