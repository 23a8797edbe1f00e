use covet::form::{
    content_disposition, get_colorspace_param, get_format_param, get_quality_param,
    get_source_param, QualityProfile,
};
use covet::message::job_status::{JobState, PageState, ScanJobStatus, ScanPage};
use covet::message::scan_job::{ColorSpace, Format, InputSource, ScanJob};
use covet::message::scan_status::{AdfState, ScanStatus, ScannerState};
use covet::scanner::{output_file_name, Scanner, ScannerError};
use covet::util::{choose_source, prepare_scan_job, Source};

#[test]
fn test_choose_source() {
    assert_eq!(choose_source(Source::Glass, None).unwrap(), InputSource::Platen);
    assert_eq!(
        choose_source(Source::Glass, Some(AdfState::Empty)).unwrap(),
        InputSource::Platen
    );
    assert_eq!(
        choose_source(Source::Glass, Some(AdfState::Loaded)).unwrap(),
        InputSource::Platen
    );
    assert_eq!(choose_source(Source::Auto, None).unwrap(), InputSource::Platen);
    assert_eq!(
        choose_source(Source::Auto, Some(AdfState::Empty)).unwrap(),
        InputSource::Platen
    );
    assert_eq!(
        choose_source(Source::Auto, Some(AdfState::Loaded)).unwrap(),
        InputSource::Adf
    );
    assert!(choose_source(Source::Adf, None).is_err());
    assert!(choose_source(Source::Adf, Some(AdfState::Empty)).is_err());
    assert_eq!(
        choose_source(Source::Adf, Some(AdfState::Loaded)).unwrap(),
        InputSource::Adf
    );
}

#[test]
fn choose_source_covers_all_twelve_cases() {
    let adf_states = [None, Some(AdfState::Empty), Some(AdfState::Loaded), Some(AdfState::PickFailure)];
    for adf in adf_states {
        let auto = choose_source(Source::Auto, adf);
        let adf_req = choose_source(Source::Adf, adf);
        let glass = choose_source(Source::Glass, adf);
        assert_eq!(glass, Ok(InputSource::Platen));
        if adf == Some(AdfState::Loaded) {
            assert_eq!(auto, Ok(InputSource::Adf));
            assert_eq!(adf_req, Ok(InputSource::Adf));
        } else {
            assert_eq!(auto, Ok(InputSource::Platen));
            assert_eq!(adf_req, Err(ScannerError::AdfEmpty));
        }
    }
}

#[test]
fn check_output_file_name() {
    assert_eq!(
        Some("scan_20170212_131905.pdf".to_owned()),
        output_file_name(Format::Pdf, 1486905545)
    );
    assert_eq!(
        Some("scan_20170212_131905.jpeg".to_owned()),
        output_file_name(Format::Jpeg, 1486905545)
    );
}

#[test]
fn output_file_name_rejects_out_of_range_time() {
    assert_eq!(None, output_file_name(Format::Pdf, i64::MAX));
}

#[test]
fn scanner_new_builds_base_url() {
    let scanner = Scanner::new("printer.local", true, false);
    assert_eq!(scanner.base_url, "https://printer.local");
    assert_eq!(scanner.host(), "printer.local");
    let scanner = Scanner::new("printer.local", false, true);
    assert_eq!(scanner.base_url, "http://printer.local");
    assert_eq!(scanner.status_url(), "http://printer.local/Scan/Status");
    assert_eq!(scanner.jobs_url(), "http://printer.local/Scan/Jobs");
}

fn request() -> ScanJob {
    ScanJob::new(InputSource::Adf, 300, 25, Format::Jpeg, ColorSpace::Color)
}

#[test]
fn job_from_response_rebases_location_onto_base() {
    let scanner = Scanner::new("printer.local", true, false);
    // The device answers with an absolute URL on an unexpected host:
    // only its path is trusted.
    let job = scanner
        .job_from_response(request(), 201, Some("http://elsewhere:8080/Scan/Jobs/2"))
        .unwrap();
    assert_eq!(job.location, "https://printer.local/Scan/Jobs/2");
    assert_eq!(job.binary_url, None);
}

#[test]
fn job_from_response_rejects_other_status() {
    let scanner = Scanner::new("printer.local", true, false);
    let err = scanner
        .job_from_response(request(), 409, Some("http://printer.local/Scan/Jobs/2"))
        .unwrap_err();
    assert_eq!(err, ScannerError::JobCreationFailed(409));
}

#[test]
fn job_from_response_rejects_malformed_location() {
    let scanner = Scanner::new("printer.local", true, false);
    let err = scanner.job_from_response(request(), 201, Some("::not a url::")).unwrap_err();
    assert_eq!(err, ScannerError::UrlParseError);
}

fn one_page_status(state: PageState) -> ScanJobStatus {
    ScanJobStatus::new(JobState::Processing, vec![ScanPage::new(1, state)])
}

const READY_TO_UPLOAD: &str = r#"<?xml version="1.0" encoding="UTF-8"?>
            <j:Job xmlns:j="http://www.hp.com/schemas/imaging/con/ledm/jobs/2009/04/30">
            <j:JobState>Processing</j:JobState>
            <ScanJob xmlns="http://www.hp.com/schemas/imaging/con/cnx/scan/2008/08/19">
            <PreScanPage>
            <PageNumber>1</PageNumber>
            <PageState>ReadyToUpload</PageState>
            <BinaryURL>/Scan/Jobs/4/Pages/1</BinaryURL>
            </PreScanPage>
            </ScanJob>
            </j:Job>"#;

const PREPARING_SCAN: &str = r#"<?xml version="1.0" encoding="UTF-8"?>
            <j:Job xmlns:j="http://www.hp.com/schemas/imaging/con/ledm/jobs/2009/04/30">
            <j:JobState>Processing</j:JobState>
            <ScanJob xmlns="http://www.hp.com/schemas/imaging/con/cnx/scan/2008/08/19">
            <PreScanPage>
            <PageNumber>1</PageNumber>
            <PageState>PreparingScan</PageState>
            </PreScanPage>
            </ScanJob>
            </j:Job>"#;

#[test]
fn retrieve_status_ready_page_stores_url() {
    let scanner = Scanner::new("printer.local", true, false);
    let mut job = scanner
        .job_from_response(request(), 201, Some("https://printer.local/Scan/Jobs/4"))
        .unwrap();
    let status = ScanJobStatus::read_xml(READY_TO_UPLOAD.as_bytes()).unwrap();
    assert_eq!(job.retrieve_status(&status), Ok(true));
    assert_eq!(job.binary_url, Some("/Scan/Jobs/4/Pages/1".to_owned()));
    assert_eq!(
        job.download_url().unwrap(),
        "https://printer.local/Scan/Jobs/4/Pages/1"
    );
}

#[test]
fn retrieve_status_preparing_page_is_not_ready() {
    let scanner = Scanner::new("printer.local", true, false);
    let mut job = scanner
        .job_from_response(request(), 201, Some("https://printer.local/Scan/Jobs/4"))
        .unwrap();
    let status = ScanJobStatus::read_xml(PREPARING_SCAN.as_bytes()).unwrap();
    assert_eq!(job.retrieve_status(&status), Ok(false));
    assert_eq!(job.binary_url, None);
}

#[test]
fn retrieve_status_canceled_page_is_terminal() {
    let scanner = Scanner::new("printer.local", true, false);
    let mut job = scanner
        .job_from_response(request(), 201, Some("https://printer.local/Scan/Jobs/4"))
        .unwrap();
    let status = one_page_status(PageState::CanceledByDevice);
    assert_eq!(job.retrieve_status(&status), Err(ScannerError::Canceled));
}

#[test]
fn apply_jpeg_fix_runs_only_for_adf_jpeg() {
    let scanner = Scanner::new("printer.local", true, false);
    let job = scanner
        .job_from_response(request(), 201, Some("https://printer.local/Scan/Jobs/4"))
        .unwrap();
    // Not a parsable JPEG: the bytes pass through unchanged.
    let data: Vec<u8> = vec![0x01, 0x02, 0x03];
    assert_eq!(job.apply_jpeg_fix(data.clone()), data);

    let pdf_job = ScanJob::new(InputSource::Platen, 300, 25, Format::Pdf, ColorSpace::Color);
    let job = scanner
        .job_from_response(pdf_job, 201, Some("https://printer.local/Scan/Jobs/5"))
        .unwrap();
    assert_eq!(job.apply_jpeg_fix(data.clone()), data);
}

#[test]
fn prepare_scan_job_requires_idle_scanner() {
    let busy = ScanStatus::new(ScannerState::BusyWithScanJob, Some(AdfState::Loaded));
    let r = prepare_scan_job(&busy, Format::Pdf, ColorSpace::Color, Source::Auto, 300, 25);
    assert_eq!(r, Err(ScannerError::Busy));
    let jammed = ScanStatus::new(ScannerState::AdfError, None);
    let r = prepare_scan_job(&jammed, Format::Pdf, ColorSpace::Color, Source::Auto, 300, 25);
    assert_eq!(r, Err(ScannerError::Busy));
}

#[test]
fn prepare_scan_job_reports_empty_feeder() {
    let idle = ScanStatus::new(ScannerState::Idle, Some(AdfState::Empty));
    let r = prepare_scan_job(&idle, Format::Pdf, ColorSpace::Color, Source::Adf, 300, 25);
    assert_eq!(r, Err(ScannerError::AdfEmpty));
}

#[test]
fn scan_with_loaded_feeder_uses_adf_and_emits_adf_options() {
    // A status document reporting an idle scanner with a loaded feeder
    // routes an automatic request to the feeder, and the job request
    // names the feeder and carries the AdfOptions element.
    let body = r#"<?xml version="1.0" encoding="UTF-8"?>
            <ScanStatus xmlns="http://www.hp.com/schemas/imaging/con/cnx/scan/2008/08/19">
            <ScannerState>Idle</ScannerState>
            <AdfState>Loaded</AdfState>
            </ScanStatus>"#;
    let status = ScanStatus::read_xml(body.as_bytes()).unwrap();
    assert_eq!(
        choose_source(Source::Auto, status.adf_state()),
        Ok(InputSource::Adf)
    );
    let job = prepare_scan_job(&status, Format::Pdf, ColorSpace::Color, Source::Auto, 300, 25)
        .unwrap();
    assert_eq!(job.input_source, InputSource::Adf);
    let xml = job.write_xml();
    assert!(xml.contains("<scan:InputSource>Adf</scan:InputSource>"));
    assert!(xml.contains("<scan:AdfOptions />"));
}

#[test]
fn quality_profile_values() {
    assert_eq!(QualityProfile::Base.resolution(), 300);
    assert_eq!(QualityProfile::Base.quality(), 25);
    assert_eq!(QualityProfile::High.resolution(), 600);
    assert_eq!(QualityProfile::High.quality(), 25);
    assert_eq!(QualityProfile::Best.resolution(), 600);
    assert_eq!(QualityProfile::Best.quality(), 1);
}

#[test]
fn form_parameters_fall_back_to_defaults() {
    assert_eq!(get_format_param(Some("jpeg")), Format::Jpeg);
    assert_eq!(get_format_param(Some("pdf")), Format::Pdf);
    assert_eq!(get_format_param(Some("tiff")), Format::Pdf);
    assert_eq!(get_format_param(None), Format::Pdf);
    assert_eq!(get_colorspace_param(Some("gray")), ColorSpace::Gray);
    assert_eq!(get_colorspace_param(Some("color")), ColorSpace::Color);
    assert_eq!(get_colorspace_param(None), ColorSpace::Color);
    assert_eq!(get_source_param(Some("adf")), Source::Adf);
    assert_eq!(get_source_param(Some("glass")), Source::Glass);
    assert_eq!(get_source_param(Some("auto")), Source::Auto);
    assert_eq!(get_source_param(None), Source::Auto);
    assert_eq!(get_quality_param(Some("base")), (300, 25));
    assert_eq!(get_quality_param(Some("high")), (600, 25));
    assert_eq!(get_quality_param(Some("best")), (600, 1));
    assert_eq!(get_quality_param(None), (300, 25));
}

#[test]
fn web_generate_content_disposition() {
    assert_eq!("attachment; filename=test.txt", content_disposition("test.txt"));
    assert_eq!(
        "attachment; filename*=utf-8''äöü.txt",
        content_disposition("äöü.txt")
    );
}

#[test]
fn mod_generate_content_disposition() {
    assert_eq!("attachment; filename=test.txt", content_disposition("test.txt"));
    assert_eq!(
        "attachment; filename*=utf-8''äöü.txt",
        content_disposition("äöü.txt")
    );
}

#[test]
fn form_parse_error_carries_body_text() {
    let err = ScannerError::form_parse_error(
        covet::message::error::ParseError::Xml,
        b"<bad document>",
    );
    assert_eq!(
        err,
        ScannerError::Parse {
            source: covet::message::error::ParseError::Xml,
            data: "<bad document>".to_owned(),
        }
    );
}

#[test]
fn transport_failures_are_classified() {
    assert_eq!(ScannerError::from_transport(true), ScannerError::NotAvailable);
    assert_eq!(ScannerError::from_transport(false), ScannerError::ReqwestError);
}
