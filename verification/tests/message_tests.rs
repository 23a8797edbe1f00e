use covet::message::error::ParseError;
use covet::message::job_status::{JobState, PageState, ScanJobStatus};
use covet::message::scan_job::{ColorSpace, Format, InputSource, ScanJob};
use covet::message::scan_status::{AdfState, ScanStatus, ScannerState};

const SCAN_STATUS_IDLE: &str = r#"<?xml version="1.0" encoding="UTF-8"?>
            <ScanStatus xmlns="http://www.hp.com/schemas/imaging/con/cnx/scan/2008/08/19">
            <ScannerState>Idle</ScannerState>
            <AdfState>Empty</AdfState>
            </ScanStatus>"#;

const SCAN_STATUS_BUSY: &str = r#"<?xml version="1.0" encoding="UTF-8"?>
            <ScanStatus xmlns="http://www.hp.com/schemas/imaging/con/cnx/scan/2008/08/19">
            <ScannerState>BusyWithScanJob</ScannerState>
            <AdfState>Empty</AdfState>
            </ScanStatus>"#;

const SCAN_STATUS_LOADED: &str = r#"<?xml version="1.0" encoding="UTF-8"?>
            <ScanStatus xmlns="http://www.hp.com/schemas/imaging/con/cnx/scan/2008/08/19">
            <ScannerState>Idle</ScannerState>
            <AdfState>Loaded</AdfState>
            </ScanStatus>"#;

const SCAN_STATUS_ADF_ERROR: &str = r#"<?xml version="1.0" encoding="UTF-8"?>
            <ScanStatus xmlns="http://www.hp.com/schemas/imaging/con/cnx/scan/2008/08/19">
            <ScannerState>AdfError</ScannerState>
            <AdfState>PickFailure</AdfState>
            </ScanStatus>"#;

const SCAN_STATUS_UNKNOWN_ADF_STATE: &str = r#"<?xml version="1.0" encoding="UTF-8"?>
            <ScanStatus xmlns="http://www.hp.com/schemas/imaging/con/cnx/scan/2008/08/19">
            <ScannerState>Idle</ScannerState>
            <AdfState>Laoded</AdfState>
            </ScanStatus>"#;

const SCAN_STATUS_NO_ADF: &str = r#"<?xml version="1.0" encoding="UTF-8"?>
            <ScanStatus xmlns="http://www.hp.com/schemas/imaging/con/cnx/scan/2008/08/19">
            <ScannerState>Idle</ScannerState>
            </ScanStatus>"#;

const SCAN_STATUS_NO_SCANNER_STATE: &str = r#"<?xml version="1.0" encoding="UTF-8"?>
            <ScanStatus xmlns="http://www.hp.com/schemas/imaging/con/cnx/scan/2008/08/19">
            <AdfState>Empty</AdfState>
            </ScanStatus>"#;

fn check_parse_scan_status(s: &str, scanner_state: ScannerState, adf_state: Option<AdfState>) {
    let status = s.as_bytes();
    let scan_status = ScanStatus::read_xml(status).expect("parsing failed");
    assert_eq!(scanner_state, scan_status.scanner_state());
    assert_eq!(adf_state, scan_status.adf_state());
}

#[test]
fn scan_status_read_scan_status_xml() {
    check_parse_scan_status(SCAN_STATUS_IDLE, ScannerState::Idle, Some(AdfState::Empty));
    check_parse_scan_status(
        SCAN_STATUS_BUSY,
        ScannerState::BusyWithScanJob,
        Some(AdfState::Empty),
    );
    check_parse_scan_status(SCAN_STATUS_LOADED, ScannerState::Idle, Some(AdfState::Loaded));
    check_parse_scan_status(SCAN_STATUS_NO_ADF, ScannerState::Idle, None);
    check_parse_scan_status(
        SCAN_STATUS_ADF_ERROR,
        ScannerState::AdfError,
        Some(AdfState::PickFailure),
    );
}

#[test]
fn scanstatus_read_scan_status_xml() {
    check_parse_scan_status(SCAN_STATUS_IDLE, ScannerState::Idle, Some(AdfState::Empty));
    check_parse_scan_status(
        SCAN_STATUS_BUSY,
        ScannerState::BusyWithScanJob,
        Some(AdfState::Empty),
    );
    check_parse_scan_status(SCAN_STATUS_LOADED, ScannerState::Idle, Some(AdfState::Loaded));
    check_parse_scan_status(
        SCAN_STATUS_ADF_ERROR,
        ScannerState::AdfError,
        Some(AdfState::PickFailure),
    );
}

#[test]
fn read_scan_status_xml_unknown_adf_state() {
    let error = ScanStatus::read_xml(SCAN_STATUS_UNKNOWN_ADF_STATE.as_bytes())
        .expect_err("parsing succeeded");
    assert_eq!(
        error,
        ParseError::UnknownEnumValue { name: "AdfState".to_owned(), value: "Laoded".to_owned() }
    );
}

#[test]
fn read_scan_status_xml_missing_scanner_state() {
    let error = ScanStatus::read_xml(SCAN_STATUS_NO_SCANNER_STATE.as_bytes())
        .expect_err("parsing succeeded");
    assert_eq!(error, ParseError::MissingElement { name: "ScannerState".to_owned() });
}

#[test]
fn read_scan_status_xml_malformed() {
    let error = ScanStatus::read_xml(b"not xml at all").expect_err("parsing succeeded");
    assert_eq!(error, ParseError::Xml);
}

const FULL_JOB_STATUS: &str = r#"<?xml version="1.0" encoding="UTF-8"?>
            <j:Job xmlns:j="http://www.hp.com/schemas/imaging/con/ledm/jobs/2009/04/30">
            <j:JobUrl>/Jobs/JobList/2</j:JobUrl>
            <j:JobCategory>Scan</j:JobCategory>
            <j:JobState>Processing</j:JobState>
            <j:JobStateUpdate>42-6</j:JobStateUpdate>
            <ScanJob xmlns="http://www.hp.com/schemas/imaging/con/cnx/scan/2008/08/19">
            <PreScanPage>
            <PageNumber>1</PageNumber>
            <PageState>PreparingScan</PageState>
            <BufferInfo>
            <ScanSettings>
            <XResolution>300</XResolution>
            <YResolution>300</YResolution>
            <XStart>0</XStart>
            <YStart>0</YStart>
            <Width>2480</Width>
            <Height>3508</Height>
            <Format>Jpeg</Format>
            <CompressionQFactor>25</CompressionQFactor>
            <ColorSpace>Color</ColorSpace>
            <BitDepth>8</BitDepth>
            <InputSource>Platen</InputSource>
            <ContentType>Photo</ContentType>
            </ScanSettings>
            <ImageWidth>2480</ImageWidth>
            <ImageHeight>3508</ImageHeight>
            <BytesPerLine>7440</BytesPerLine>
            <Cooked>enabled</Cooked>
            </BufferInfo>
            <BinaryURL>/Scan/Jobs/2/Pages/1</BinaryURL>
            <ImageOrientation>Normal</ImageOrientation>
            </PreScanPage>
            </ScanJob>
            </j:Job>"#;

const READY_TO_UPLOAD: &str = r#"<?xml version="1.0" encoding="UTF-8"?>
            <j:Job xmlns:j="http://www.hp.com/schemas/imaging/con/ledm/jobs/2009/04/30">
            <j:JobUrl>/Jobs/JobList/4</j:JobUrl>
            <j:JobCategory>Scan</j:JobCategory>
            <j:JobState>Processing</j:JobState>
            <j:JobStateUpdate>42-6</j:JobStateUpdate>
            <ScanJob xmlns="http://www.hp.com/schemas/imaging/con/cnx/scan/2008/08/19">
            <PreScanPage>
            <PageNumber>1</PageNumber>
            <PageState>ReadyToUpload</PageState>
            <BinaryURL>/Scan/Jobs/4/Pages/1</BinaryURL>
            </PreScanPage>
            </ScanJob>
            </j:Job>"#;

const COMPLETED: &str = r#"<?xml version="1.0" encoding="UTF-8"?>
            <j:Job xmlns:j="http://www.hp.com/schemas/imaging/con/ledm/jobs/2009/04/30">
            <j:JobUrl>/Jobs/JobList/6</j:JobUrl>
            <j:JobCategory>Scan</j:JobCategory>
            <j:JobState>Completed</j:JobState>
            <j:JobStateUpdate>42-23</j:JobStateUpdate>
            <j:JobSource>userIO</j:JobSource>
            <ScanJob xmlns="http://www.hp.com/schemas/imaging/con/cnx/scan/2008/08/19">
            <PostScanPage>
            <PageNumber>2</PageNumber>
            <PageState>UploadCompleted</PageState>
            <TotalLines>3501</TotalLines>
            </PostScanPage>
            </ScanJob>
            </j:Job>"#;

fn parse_job_status(s: &str) -> ScanJobStatus {
    let status = s.as_bytes();
    ScanJobStatus::read_xml(status).expect("parsing failed")
}

fn check_one_page(job_status: &ScanJobStatus, num: u32, ps: PageState) {
    assert_eq!(1, job_status.pages().len());
    let page = job_status.pages().get(0).unwrap();
    assert_eq!(num, page.number());
    assert_eq!(&ps, page.state());
}

#[test]
fn job_status_read_job_status_xml_preparing() {
    let status = parse_job_status(FULL_JOB_STATUS);
    assert_eq!(JobState::Processing, status.state());
    check_one_page(&status, 1, PageState::PreparingScan);
}

#[test]
fn job_status_read_job_status_xml_ready_to_upload() {
    let status = parse_job_status(READY_TO_UPLOAD);
    assert_eq!(JobState::Processing, status.state());
    check_one_page(
        &status,
        1,
        PageState::ReadyToUpload { binary_url: "/Scan/Jobs/4/Pages/1".to_owned() },
    );
}

#[test]
fn job_status_read_job_status_xml_completed() {
    let status = parse_job_status(COMPLETED);
    assert_eq!(JobState::Completed, status.state());
    check_one_page(&status, 2, PageState::UploadCompleted);
}

#[test]
fn read_job_status_xml_missing_scan_job() {
    let body = r#"<?xml version="1.0" encoding="UTF-8"?>
            <j:Job xmlns:j="http://www.hp.com/schemas/imaging/con/ledm/jobs/2009/04/30">
            <j:JobState>Processing</j:JobState>
            </j:Job>"#;
    let error = ScanJobStatus::read_xml(body.as_bytes()).expect_err("parsing succeeded");
    assert_eq!(error, ParseError::MissingElement { name: "ScanJob".to_owned() });
}

#[test]
fn read_job_status_xml_bad_page_number() {
    let body = r#"<?xml version="1.0" encoding="UTF-8"?>
            <j:Job xmlns:j="http://www.hp.com/schemas/imaging/con/ledm/jobs/2009/04/30">
            <j:JobState>Processing</j:JobState>
            <ScanJob xmlns="http://www.hp.com/schemas/imaging/con/cnx/scan/2008/08/19">
            <PreScanPage>
            <PageNumber>many</PageNumber>
            <PageState>PreparingScan</PageState>
            </PreScanPage>
            </ScanJob>
            </j:Job>"#;
    let error = ScanJobStatus::read_xml(body.as_bytes()).expect_err("parsing succeeded");
    assert_eq!(error, ParseError::Int);
}

#[test]
fn read_job_status_xml_unknown_page_state() {
    let body = r#"<?xml version="1.0" encoding="UTF-8"?>
            <j:Job xmlns:j="http://www.hp.com/schemas/imaging/con/ledm/jobs/2009/04/30">
            <j:JobState>Processing</j:JobState>
            <ScanJob xmlns="http://www.hp.com/schemas/imaging/con/cnx/scan/2008/08/19">
            <PreScanPage>
            <PageNumber>1</PageNumber>
            <PageState>Resting</PageState>
            </PreScanPage>
            </ScanJob>
            </j:Job>"#;
    let error = ScanJobStatus::read_xml(body.as_bytes()).expect_err("parsing succeeded");
    assert_eq!(
        error,
        ParseError::UnknownEnumValue { name: "PageState".to_owned(), value: "Resting".to_owned() }
    );
}

const JPEG_GLASS_LOW: &str = r#"<?xml version="1.0" encoding="UTF-8"?>
<scan:ScanJob xmlns:scan="http://www.hp.com/schemas/imaging/con/cnx/scan/2008/08/19">
  <scan:XResolution>300</scan:XResolution>
  <scan:YResolution>300</scan:YResolution>
  <scan:XStart>0</scan:XStart>
  <scan:YStart>0</scan:YStart>
  <scan:Width>2480</scan:Width>
  <scan:Height>3508</scan:Height>
  <scan:Format>Jpeg</scan:Format>
  <scan:CompressionQFactor>25</scan:CompressionQFactor>
  <scan:ColorSpace>Color</scan:ColorSpace>
  <scan:BitDepth>8</scan:BitDepth>
  <scan:InputSource>Platen</scan:InputSource>
  <scan:GrayRendering>NTSC</scan:GrayRendering>
  <scan:ToneMap>
    <scan:Gamma>1000</scan:Gamma>
    <scan:Brightness>1000</scan:Brightness>
    <scan:Contrast>1000</scan:Contrast>
    <scan:Highlite>179</scan:Highlite>
    <scan:Shadow>25</scan:Shadow>
  </scan:ToneMap>
  <scan:ContentType>Photo</scan:ContentType>
</scan:ScanJob>"#;

const PDF_ADF_HIGH: &str = r#"<?xml version="1.0" encoding="UTF-8"?>
<scan:ScanJob xmlns:scan="http://www.hp.com/schemas/imaging/con/cnx/scan/2008/08/19">
  <scan:XResolution>600</scan:XResolution>
  <scan:YResolution>600</scan:YResolution>
  <scan:XStart>0</scan:XStart>
  <scan:YStart>0</scan:YStart>
  <scan:Width>2480</scan:Width>
  <scan:Height>3508</scan:Height>
  <scan:Format>Pdf</scan:Format>
  <scan:CompressionQFactor>1</scan:CompressionQFactor>
  <scan:ColorSpace>Gray</scan:ColorSpace>
  <scan:BitDepth>8</scan:BitDepth>
  <scan:InputSource>Adf</scan:InputSource>
  <scan:AdfOptions />
  <scan:GrayRendering>NTSC</scan:GrayRendering>
  <scan:ToneMap>
    <scan:Gamma>1000</scan:Gamma>
    <scan:Brightness>1000</scan:Brightness>
    <scan:Contrast>1000</scan:Contrast>
    <scan:Highlite>179</scan:Highlite>
    <scan:Shadow>25</scan:Shadow>
  </scan:ToneMap>
  <scan:ContentType>Document</scan:ContentType>
</scan:ScanJob>"#;

#[test]
fn scan_job_scan_job_write_xml_jpeg() {
    let job = ScanJob::new(InputSource::Platen, 300, 25, Format::Jpeg, ColorSpace::Color);
    assert_eq!(JPEG_GLASS_LOW, job.write_xml());
}

#[test]
fn scan_job_scan_job_write_xml_pdf() {
    let job = ScanJob::new(InputSource::Adf, 600, 1, Format::Pdf, ColorSpace::Gray);
    assert_eq!(PDF_ADF_HIGH, job.write_xml());
}

#[test]
fn scan_job_write_xml_deterministic() {
    let a = ScanJob::new(InputSource::Adf, 600, 7, Format::Jpeg, ColorSpace::Gray);
    let b = ScanJob::new(InputSource::Adf, 600, 7, Format::Jpeg, ColorSpace::Gray);
    assert_eq!(a.write_xml(), b.write_xml());
}
