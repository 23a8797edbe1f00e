//! The job request message: the scan parameters, and the exact XML body
//! that submits them. Element order and presence are a wire contract, so
//! the emitted text is pinned character by character.

use vstd::prelude::*;

use crate::message::util::{spec_dec_str, usize_to_string};

verus! {

/// The physical input a job reads from.
#[derive(Clone, Copy, Debug, PartialEq, Eq, Structural)]
pub enum InputSource {
    Platen,
    Adf,
}

/// The requested output format.
#[derive(Clone, Copy, Debug, PartialEq, Eq, Structural)]
pub enum Format {
    Jpeg,
    Pdf,
}

/// The requested color space.
#[derive(Clone, Copy, Debug, PartialEq, Eq, Structural)]
pub enum ColorSpace {
    Color,
    Gray,
}

/// The parameters of one scan job, serialized once per job.
#[derive(Clone, Copy, Debug, PartialEq, Eq, Structural)]
pub struct ScanJob {
    pub input_source: InputSource,
    pub resolution: u32,
    pub quality: u32,
    pub format: Format,
    pub color_space: ColorSpace,
}

/// The wire name of a format value.
pub open spec fn spec_format_str(f: Format) -> Seq<char> {
    match f {
        Format::Jpeg => "Jpeg"@,
        Format::Pdf => "Pdf"@,
    }
}

/// The wire name of a color space value.
pub open spec fn spec_color_space_str(c: ColorSpace) -> Seq<char> {
    match c {
        ColorSpace::Color => "Color"@,
        ColorSpace::Gray => "Gray"@,
    }
}

/// The wire name of an input source value.
pub open spec fn spec_input_source_str(s: InputSource) -> Seq<char> {
    match s {
        InputSource::Platen => "Platen"@,
        InputSource::Adf => "Adf"@,
    }
}

/// The content type the device expects for a format: photo pipeline for
/// JPEG, document pipeline for PDF.
pub open spec fn spec_content_type_str(f: Format) -> Seq<char> {
    match f {
        Format::Jpeg => "Photo"@,
        Format::Pdf => "Document"@,
    }
}

/// One indented `<scan:name>value</scan:name>` line.
pub open spec fn spec_value_line(indent: Seq<char>, name: Seq<char>, value: Seq<char>) -> Seq<
    char,
> {
    indent + "<scan:"@ + name + ">"@ + value + "</scan:"@ + name + ">\n"@
}

/// The exact XML body that requests a job: one namespaced `ScanJob`
/// element whose children stand in a fixed order, with an `AdfOptions`
/// element exactly when the feeder is the source.
pub open spec fn spec_scan_job_xml(j: ScanJob) -> Seq<char> {
    "<?xml version=\"1.0\" encoding=\"UTF-8\"?>\n"@
        + "<scan:ScanJob xmlns:scan=\"http://www.hp.com/schemas/imaging/con/cnx/scan/2008/08/19\">\n"@
        + spec_value_line("  "@, "XResolution"@, spec_dec_str(j.resolution as nat))
        + spec_value_line("  "@, "YResolution"@, spec_dec_str(j.resolution as nat))
        + spec_value_line("  "@, "XStart"@, "0"@) + spec_value_line("  "@, "YStart"@, "0"@)
        + spec_value_line("  "@, "Width"@, "2480"@) + spec_value_line(
        "  "@,
        "Height"@,
        "3508"@,
    ) + spec_value_line("  "@, "Format"@, spec_format_str(j.format)) + spec_value_line(
        "  "@,
        "CompressionQFactor"@,
        spec_dec_str(j.quality as nat),
    ) + spec_value_line("  "@, "ColorSpace"@, spec_color_space_str(j.color_space))
        + spec_value_line("  "@, "BitDepth"@, "8"@) + spec_value_line(
        "  "@,
        "InputSource"@,
        spec_input_source_str(j.input_source),
    ) + (if j.input_source == InputSource::Adf {
        "  <scan:AdfOptions />\n"@
    } else {
        Seq::<char>::empty()
    }) + spec_value_line("  "@, "GrayRendering"@, "NTSC"@) + "  <scan:ToneMap>\n"@
        + spec_value_line("    "@, "Gamma"@, "1000"@) + spec_value_line(
        "    "@,
        "Brightness"@,
        "1000"@,
    ) + spec_value_line("    "@, "Contrast"@, "1000"@) + spec_value_line(
        "    "@,
        "Highlite"@,
        "179"@,
    ) + spec_value_line("    "@, "Shadow"@, "25"@) + "  </scan:ToneMap>\n"@
        + spec_value_line("  "@, "ContentType"@, spec_content_type_str(j.format))
        + "</scan:ScanJob>"@
}

/// Appends one indented `<scan:name>value</scan:name>` line.
fn push_value_line(out: &mut String, indent: &str, name: &str, value: &str)
    ensures
        final(out)@ == old(out)@ + spec_value_line(indent@, name@, value@),
{
    out.append(indent);
    out.append("<scan:");
    out.append(name);
    out.append(">");
    out.append(value);
    out.append("</scan:");
    out.append(name);
    out.append(">\n");
    proof {
        assert(final(out)@ =~= old(out)@ + spec_value_line(indent@, name@, value@));
    }
}

impl ScanJob {
    pub fn new(
        input_source: InputSource,
        resolution: u32,
        quality: u32,
        format: Format,
        color_space: ColorSpace,
    ) -> (r: ScanJob)
        ensures
            r == (ScanJob { input_source, resolution, quality, format, color_space }),
    {
        ScanJob { input_source, resolution, quality, format, color_space }
    }

    /// Serializes the request. The output is a function of the parameters
    /// alone, so equal requests serialize to identical text.
    pub fn write_xml(&self) -> (r: String)
        ensures
            r@ == spec_scan_job_xml(*self),
    {
        let mut out = String::new();
        out.append("<?xml version=\"1.0\" encoding=\"UTF-8\"?>\n");
        out.append(
            "<scan:ScanJob xmlns:scan=\"http://www.hp.com/schemas/imaging/con/cnx/scan/2008/08/19\">\n",
        );
        let resolution = usize_to_string(self.resolution as usize);
        push_value_line(&mut out, "  ", "XResolution", resolution.as_str());
        push_value_line(&mut out, "  ", "YResolution", resolution.as_str());
        push_value_line(&mut out, "  ", "XStart", "0");
        push_value_line(&mut out, "  ", "YStart", "0");
        push_value_line(&mut out, "  ", "Width", "2480");
        push_value_line(&mut out, "  ", "Height", "3508");
        let format = match self.format {
            Format::Jpeg => "Jpeg",
            Format::Pdf => "Pdf",
        };
        push_value_line(&mut out, "  ", "Format", format);
        let quality = usize_to_string(self.quality as usize);
        push_value_line(&mut out, "  ", "CompressionQFactor", quality.as_str());
        let color = match self.color_space {
            ColorSpace::Color => "Color",
            ColorSpace::Gray => "Gray",
        };
        push_value_line(&mut out, "  ", "ColorSpace", color);
        push_value_line(&mut out, "  ", "BitDepth", "8");
        let source = match self.input_source {
            InputSource::Platen => "Platen",
            InputSource::Adf => "Adf",
        };
        push_value_line(&mut out, "  ", "InputSource", source);
        if self.input_source == InputSource::Adf {
            out.append("  <scan:AdfOptions />\n");
        }
        push_value_line(&mut out, "  ", "GrayRendering", "NTSC");
        out.append("  <scan:ToneMap>\n");
        push_value_line(&mut out, "    ", "Gamma", "1000");
        push_value_line(&mut out, "    ", "Brightness", "1000");
        push_value_line(&mut out, "    ", "Contrast", "1000");
        push_value_line(&mut out, "    ", "Highlite", "179");
        push_value_line(&mut out, "    ", "Shadow", "25");
        out.append("  </scan:ToneMap>\n");
        push_value_line(&mut out, "  ", "ContentType", match self.format {
            Format::Jpeg => "Photo",
            Format::Pdf => "Document",
        });
        out.append("</scan:ScanJob>");
        proof {
            assert(out@ =~= spec_scan_job_xml(*self));
        }
        out
    }
}

} // verus!
