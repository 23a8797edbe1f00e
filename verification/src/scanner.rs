//! The scanner client's decision logic and the job lifecycle state
//! machine: classifying the job-creation response, rebasing device URLs
//! onto the configured base, reading readiness from a polled job status,
//! and routing a finished download through the JPEG height repair. The
//! HTTP transport itself stays outside the library; each function here
//! takes the transport's result as a value.

use vstd::prelude::*;

use crate::jpeg;
use crate::message::error::ParseError;
use crate::message::job_status::{PageState, ScanJobStatus};
use crate::message::scan_job::{Format, InputSource, ScanJob};
use crate::message::scan_status::ScanStatus;

verus! {

/// Everything that can go wrong between a request and a scanned page.
#[derive(Clone, Debug, PartialEq, Eq)]
pub enum ScannerError {
    /// A local input/output failure.
    Io,
    /// The device answered with XML the codec rejects; carries the raw
    /// body for diagnostics.
    Parse { source: ParseError, data: String },
    /// A feeder scan was requested but the feeder holds no paper.
    AdfEmpty,
    /// The scanner is already busy with a job.
    Busy,
    /// The device cannot be reached at all: connection refused or name
    /// resolution failed, which suggests it is turned off.
    NotAvailable,
    /// A URL from the device or the configuration does not parse.
    UrlParseError,
    /// Any other transport failure.
    ReqwestError,
    /// The device refused to create a job, answering with this HTTP
    /// status instead of 201.
    JobCreationFailed(u16),
    /// The device canceled the job.
    Canceled,
}

/// The text of a byte stream as `from_utf8_lossy` reads it: a function
/// of the bytes alone.
pub uninterp spec fn spec_utf8_lossy(data: Seq<u8>) -> Seq<char>;

/// Relies on String::from_utf8_lossy: decodes the bytes as UTF-8 with
/// invalid sequences replaced; deterministic in the bytes.
#[verifier::external_body]
fn utf8_lossy(data: &[u8]) -> (r: String)
    ensures
        r@ == spec_utf8_lossy(data@),
{
    String::from_utf8_lossy(data).into_owned()
}

impl ScannerError {
    /// Classifies a transport failure: one that could not connect at all,
    /// by refused connection or failed name resolution, means the device
    /// is unreachable and deserves its own message; everything else is a
    /// generic transport failure.
    pub fn from_transport(could_not_connect: bool) -> (r: ScannerError)
        ensures
            r == (if could_not_connect {
                ScannerError::NotAvailable
            } else {
                ScannerError::ReqwestError
            }),
    {
        if could_not_connect {
            ScannerError::NotAvailable
        } else {
            ScannerError::ReqwestError
        }
    }

    /// Wraps a codec failure together with the raw body it rejected.
    pub fn form_parse_error(source: ParseError, data: &[u8]) -> (r: ScannerError)
        ensures
            (r matches ScannerError::Parse { source: s, data: d } && s == source && d@
                == spec_utf8_lossy(data@)),
    {
        let data = utf8_lossy(data);
        ScannerError::Parse { source, data }
    }
}

/// The path component of the string's URL, `None` when the string does
/// not parse as an absolute URL: a function of the string alone.
pub uninterp spec fn spec_url_path(s: Seq<char>) -> Option<Seq<char>>;

/// Relies on url::Url::parse and Url::path: extracts the path component
/// of an absolute URL and rejects anything that does not parse as one;
/// deterministic in the string.
#[verifier::external_body]
fn url_path(s: &str) -> (r: Option<String>)
    ensures
        (r matches Some(p) ==> spec_url_path(s@) == Some(p@)),
        (r is None) == (spec_url_path(s@) is None),
{
    match url::Url::parse(s) {
        Ok(u) => Some(u.path().to_owned()),
        Err(_) => None,
    }
}

/// The URL that `rel` denotes against the absolute base URL `base`,
/// written back as a string; `None` when parsing or joining fails: a
/// function of the two strings alone.
pub uninterp spec fn spec_url_join(base: Seq<char>, rel: Seq<char>) -> Option<Seq<char>>;

/// Relies on url::Url::parse and Url::join: resolves `rel` against the
/// base URL, as a browser would resolve a reference; deterministic in
/// the strings.
#[verifier::external_body]
fn url_join(base: &str, rel: &str) -> (r: Option<String>)
    ensures
        (r matches Some(u) ==> spec_url_join(base@, rel@) == Some(u@)),
        (r is None) == (spec_url_join(base@, rel@) is None),
{
    match url::Url::parse(base) {
        Ok(b) => match b.join(rel) {
            Ok(u) => Some(String::from(u)),
            Err(_) => None,
        },
        Err(_) => None,
    }
}

/// The compact UTC form `%Y%m%d_%H%M%S` of an epoch second, `None` for
/// seconds outside the representable range: a function of the second
/// alone.
pub uninterp spec fn spec_timestamp_compact(secs: int) -> Option<Seq<char>>;

/// Relies on jiff::Timestamp::from_second and Timestamp::strftime with a
/// fixed format string: formats the UTC time of an epoch second, and
/// fails exactly on seconds outside jiff's timestamp range.
#[verifier::external_body]
fn timestamp_compact(secs: i64) -> (r: Option<String>)
    ensures
        (r matches Some(t) ==> spec_timestamp_compact(secs as int) == Some(t@)),
        (r is None) == (spec_timestamp_compact(secs as int) is None),
{
    match jiff::Timestamp::from_second(secs) {
        Ok(t) => Some(t.strftime("%Y%m%d_%H%M%S").to_string()),
        Err(_) => None,
    }
}

/// The file extension of a format.
pub open spec fn spec_extension(format: Format) -> Seq<char> {
    match format {
        Format::Pdf => "pdf"@,
        Format::Jpeg => "jpeg"@,
    }
}

/// The name an output file gets: `scan_`, the job-ready time in compact
/// UTC form, and the extension of the requested format. `None` exactly
/// when the epoch second lies outside the representable range.
pub fn output_file_name(format: Format, secs: i64) -> (r: Option<String>)
    ensures
        (spec_timestamp_compact(secs as int) matches Some(t) ==> (r matches Some(name) && name@
            == "scan_"@ + t + "."@ + spec_extension(format))),
        (r is None) == (spec_timestamp_compact(secs as int) is None),
{
    match timestamp_compact(secs) {
        Some(ts) => {
            let mut name = "scan_".to_owned();
            name.append(ts.as_str());
            name.append(".");
            name.append(match format {
                Format::Pdf => "pdf",
                Format::Jpeg => "jpeg",
            });
            proof {
                assert(name@ =~= "scan_"@ + ts@ + "."@ + spec_extension(format));
            }
            Some(name)
        },
        None => None,
    }
}

/// The configuration of one device: its base URL, chosen by host and TLS
/// flag, and whether the JPEG height repair is switched off. Read-only
/// after construction.
#[derive(Debug)]
pub struct Scanner {
    pub base_url: String,
    pub host: String,
    pub disable_jpeg_fix: bool,
}

impl Scanner {
    /// Configures a device: `https://host` or `http://host` as the base
    /// for every request.
    pub fn new(host: &str, use_tls: bool, disable_jpeg_fix: bool) -> (r: Scanner)
        ensures
            r.base_url@ == (if use_tls {
                "https://"@
            } else {
                "http://"@
            }) + host@,
            r.host@ == host@,
            r.disable_jpeg_fix == disable_jpeg_fix,
    {
        let mut base_url = if use_tls {
            "https://".to_owned()
        } else {
            "http://".to_owned()
        };
        base_url.append(host);
        Scanner { base_url, host: host.to_owned(), disable_jpeg_fix }
    }

    /// The host this client talks to.
    pub fn host(&self) -> (r: &str)
        ensures
            r@ == self.host@,
    {
        self.host.as_str()
    }

    /// The URL of the device status document.
    pub fn status_url(&self) -> (r: String)
        ensures
            r@ == self.base_url@ + "/Scan/Status"@,
    {
        let mut u = self.base_url.clone();
        u.append("/Scan/Status");
        u
    }

    /// The URL that job requests are posted to.
    pub fn jobs_url(&self) -> (r: String)
        ensures
            r@ == self.base_url@ + "/Scan/Jobs"@,
    {
        let mut u = self.base_url.clone();
        u.append("/Scan/Jobs");
        u
    }

    /// Decodes a fetched status document, wrapping a codec failure with
    /// the raw body for diagnostics.
    pub fn parse_status_response(data: &[u8]) -> (r: Result<ScanStatus, ScannerError>)
        ensures
            (crate::message::scan_status::spec_scan_status(data@) matches Ok(v) ==> r == Ok::<
                _,
                ScannerError,
            >(v)),
            (crate::message::scan_status::spec_scan_status(data@) matches Err(v) ==> (r matches
                Err(e) && e matches ScannerError::Parse { source, data: d } && source@ == v
                && d@ == spec_utf8_lossy(data@))),
    {
        match ScanStatus::read_xml(data) {
            Ok(status) => Ok(status),
            Err(e) => Err(ScannerError::form_parse_error(e, data)),
        }
    }

    /// Decodes a fetched job status document, wrapping a codec failure
    /// with the raw body for diagnostics.
    pub fn parse_job_status_response(data: &[u8]) -> (r: Result<ScanJobStatus, ScannerError>)
        ensures
            (crate::message::job_status::spec_scan_job_status(data@) matches Ok(v) ==> (r
                matches Ok(st) && st@ == v)),
            (crate::message::job_status::spec_scan_job_status(data@) matches Err(v) ==> (r
                matches Err(e) && e matches ScannerError::Parse { source, data: d } && source@
                == v && d@ == spec_utf8_lossy(data@))),
    {
        match ScanJobStatus::read_xml(data) {
            Ok(status) => Ok(status),
            Err(e) => Err(ScannerError::form_parse_error(e, data)),
        }
    }

    /// Judges the response to a job-creation post. Success is exactly
    /// status 201; any other status fails with that status and no job.
    /// On success the job's URL is the `Location` header rebased onto
    /// this client's base: only the header's path component is trusted.
    pub fn job_from_response<'a>(
        &'a self,
        parameters: ScanJob,
        status: u16,
        location: Option<&str>,
    ) -> (r: Result<Job<'a>, ScannerError>)
        requires
            status == 201 ==> location is Some,
        ensures
            status != 201 ==> r == Err::<Job<'a>, _>(ScannerError::JobCreationFailed(status)),
            status == 201 ==> (location matches Some(loc) ==> (match spec_url_path(loc@) {
                None => r == Err::<Job<'a>, _>(ScannerError::UrlParseError),
                Some(p) => match spec_url_join(self.base_url@, p) {
                    None => r == Err::<Job<'a>, _>(ScannerError::UrlParseError),
                    Some(u) => (r matches Ok(job) && job.scanner == self && job.location@ == u
                        && job.binary_url is None && job.parameters == parameters),
                },
            })),
    {
        if status != 201 {
            return Err(ScannerError::JobCreationFailed(status));
        }
        let loc = location.unwrap();
        let path = match url_path(loc) {
            Some(p) => p,
            None => {
                return Err(ScannerError::UrlParseError);
            },
        };
        let rebased = match url_join(self.base_url.as_str(), path.as_str()) {
            Some(u) => u,
            None => {
                return Err(ScannerError::UrlParseError);
            },
        };
        Ok(Job::new(self, rebased, parameters))
    }
}

/// One scan job in flight: where to poll it, the page URL once a page is
/// ready, and the request it was created from.
#[derive(Debug)]
pub struct Job<'a> {
    pub scanner: &'a Scanner,
    pub location: String,
    pub binary_url: Option<String>,
    pub parameters: ScanJob,
}

impl<'a> Job<'a> {
    fn new(scanner: &'a Scanner, location: String, parameters: ScanJob) -> (r: Job<'a>)
        ensures
            r.scanner == scanner,
            r.location == location,
            r.binary_url is None,
            r.parameters == parameters,
    {
        Job { scanner, location, binary_url: None, parameters }
    }

    /// Reads readiness off a freshly fetched job status, consulting only
    /// the first reported page: a page ready for upload stores its URL
    /// and reports ready; a device-side cancellation is terminal; any
    /// other page state means not ready yet.
    pub fn retrieve_status(&mut self, status: &ScanJobStatus) -> (r: Result<bool, ScannerError>)
        requires
            status.pages@.len() > 0,
        ensures
            (status.pages@[0].state matches PageState::ReadyToUpload { binary_url } ==> {
                &&& r == Ok::<_, ScannerError>(true)
                &&& (final(self).binary_url matches Some(u) && u@ == binary_url@)
                &&& final(self).scanner == old(self).scanner
                &&& final(self).location == old(self).location
                &&& final(self).parameters == old(self).parameters
            }),
            status.pages@[0].state is CanceledByDevice ==> (r == Err::<bool, _>(
                ScannerError::Canceled,
            ) && *final(self) == *old(self)),
            (status.pages@[0].state is PreparingScan || status.pages@[0].state
                is UploadCompleted) ==> (r == Ok::<_, ScannerError>(false)
                && *final(self) == *old(self)),
    {
        match &status.pages[0].state {
            PageState::ReadyToUpload { binary_url } => {
                self.binary_url = Some(binary_url.clone());
                Ok(true)
            },
            PageState::CanceledByDevice => Err(ScannerError::Canceled),
            _ => Ok(false),
        }
    }

    /// The URL the ready page's bytes are fetched from: the stored page
    /// URL rebased onto the client's base.
    pub fn download_url(&self) -> (r: Result<String, ScannerError>)
        requires
            self.binary_url is Some,
        ensures
            (match spec_url_join(self.scanner.base_url@, self.binary_url.unwrap()@) {
                None => r == Err::<String, _>(ScannerError::UrlParseError),
                Some(u) => (r matches Ok(s) && s@ == u),
            }),
    {
        let b = match &self.binary_url {
            Some(b) => b,
            None => {
                return Err(ScannerError::UrlParseError);
            },
        };
        match url_join(self.scanner.base_url.as_str(), b.as_str()) {
            Some(u) => Ok(u),
            None => Err(ScannerError::UrlParseError),
        }
    }

    /// Whether the downloaded bytes must run through the JPEG height
    /// repair: a feeder scan in JPEG format, unless the repair is
    /// switched off.
    pub fn wants_jpeg_fix(&self) -> (r: bool)
        ensures
            r == (!self.scanner.disable_jpeg_fix && self.parameters.input_source
                == InputSource::Adf && self.parameters.format == Format::Jpeg),
    {
        !self.scanner.disable_jpeg_fix && self.parameters.input_source == InputSource::Adf
            && self.parameters.format == Format::Jpeg
    }

    /// Runs a fully buffered download through the height repair when the
    /// job calls for it. Bytes come back unchanged when the repair does
    /// not apply, finds no DNL segment, or cannot parse the stream; a
    /// repaired stream replaces the buffer at identical length.
    pub fn apply_jpeg_fix(&self, data: Vec<u8>) -> (r: Vec<u8>)
        ensures
            !(!self.scanner.disable_jpeg_fix && self.parameters.input_source
                == InputSource::Adf && self.parameters.format == Format::Jpeg) ==> r@ == data@,
            (!self.scanner.disable_jpeg_fix && self.parameters.input_source
                == InputSource::Adf && self.parameters.format == Format::Jpeg) ==> r@ == (
            match jpeg::spec_parse_segments(data@) {
                Some(segs) => match jpeg::spec_dnl_height(segs) {
                    Some(h) => jpeg::spec_patch_segments(segs, h).flatten(),
                    None => data@,
                },
                None => data@,
            }),
            r@.len() == data@.len(),
    {
        if !self.wants_jpeg_fix() {
            return data;
        }
        match jpeg::fix_jpeg_height(&data) {
            Ok(Some(fixed)) => fixed,
            Ok(None) => data,
            Err(_) => data,
        }
    }
}

} // verus!
