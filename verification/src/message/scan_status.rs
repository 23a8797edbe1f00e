//! The device status message: scanner state and feeder state.

use vstd::prelude::*;

use crate::message::error::{ParseError, ParseErrorV};
use crate::message::util::read_child_value;
use crate::message::xml::{parse_xml, spec_child_text, str_eq};

verus! {

/// What the scanner reports itself to be doing.
#[derive(Clone, Copy, Debug, PartialEq, Eq, Structural)]
pub enum ScannerState {
    Idle,
    BusyWithScanJob,
    /// For example a paper jam.
    AdfError,
}

/// The state of the automatic document feeder.
#[derive(Clone, Copy, Debug, PartialEq, Eq, Structural)]
pub enum AdfState {
    Empty,
    Loaded,
    PickFailure,
}

/// The scanner state a `ScannerState` element's text denotes, `None` for
/// text outside the vocabulary.
pub open spec fn spec_scanner_state(s: Seq<char>) -> Option<ScannerState> {
    if s == "Idle"@ {
        Some(ScannerState::Idle)
    } else if s == "BusyWithScanJob"@ {
        Some(ScannerState::BusyWithScanJob)
    } else if s == "AdfError"@ {
        Some(ScannerState::AdfError)
    } else {
        None
    }
}

/// The feeder state an `AdfState` element's text denotes, `None` for text
/// outside the vocabulary.
pub open spec fn spec_adf_state(s: Seq<char>) -> Option<AdfState> {
    if s == "Empty"@ {
        Some(AdfState::Empty)
    } else if s == "Loaded"@ {
        Some(AdfState::Loaded)
    } else if s == "PickFailure"@ {
        Some(AdfState::PickFailure)
    } else {
        None
    }
}

impl ScannerState {
    /// Decodes the text of a `ScannerState` element; anything outside the
    /// vocabulary is an `UnknownEnumValue` failure.
    pub fn parse(s: &str) -> (r: Result<ScannerState, ParseError>)
        ensures
            (spec_scanner_state(s@) matches Some(v) ==> r == Ok::<ScannerState, ParseError>(v)),
            spec_scanner_state(s@) is None ==> (r matches Err(e) && e matches
                ParseError::UnknownEnumValue { name, value } && name@ == "ScannerState"@
                && value@ == s@),
    {
        if str_eq(s, "Idle") {
            Ok(ScannerState::Idle)
        } else if str_eq(s, "BusyWithScanJob") {
            Ok(ScannerState::BusyWithScanJob)
        } else if str_eq(s, "AdfError") {
            Ok(ScannerState::AdfError)
        } else {
            Err(ParseError::unknown_enum_value("ScannerState", s))
        }
    }
}

impl AdfState {
    /// Decodes the text of an `AdfState` element; anything outside the
    /// vocabulary is an `UnknownEnumValue` failure.
    pub fn parse(s: &str) -> (r: Result<AdfState, ParseError>)
        ensures
            (spec_adf_state(s@) matches Some(v) ==> r == Ok::<AdfState, ParseError>(v)),
            spec_adf_state(s@) is None ==> (r matches Err(e) && e matches
                ParseError::UnknownEnumValue { name, value } && name@ == "AdfState"@ && value@
                == s@),
    {
        if str_eq(s, "Empty") {
            Ok(AdfState::Empty)
        } else if str_eq(s, "Loaded") {
            Ok(AdfState::Loaded)
        } else if str_eq(s, "PickFailure") {
            Ok(AdfState::PickFailure)
        } else {
            Err(ParseError::unknown_enum_value("AdfState", s))
        }
    }
}

/// What decoding a status document yields: the status a well-formed
/// document denotes, or the first failure, checking `ScannerState` before
/// `AdfState`.
pub open spec fn spec_scan_status(data: Seq<u8>) -> Result<ScanStatus, ParseErrorV> {
    match crate::message::xml::spec_parse_xml(data) {
        None => Err(ParseErrorV::Xml),
        Some(doc) => match spec_child_text(doc, "ScannerState"@) {
            None => Err(ParseErrorV::MissingElement("ScannerState"@)),
            Some(t) => match spec_scanner_state(t) {
                None => Err(ParseErrorV::UnknownEnumValue("ScannerState"@, t)),
                Some(sc) => match spec_child_text(doc, "AdfState"@) {
                    None => Ok(ScanStatus { scanner_state: sc, adf_state: None }),
                    Some(a) => match spec_adf_state(a) {
                        None => Err(ParseErrorV::UnknownEnumValue("AdfState"@, a)),
                        Some(ad) => Ok(ScanStatus { scanner_state: sc, adf_state: Some(ad) }),
                    },
                },
            },
        },
    }
}

/// The device status: the scanner's state, and the feeder's where the
/// device reports one.
#[derive(Debug, PartialEq, Eq)]
pub struct ScanStatus {
    pub scanner_state: ScannerState,
    pub adf_state: Option<AdfState>,
}

impl ScanStatus {
    pub fn new(scanner_state: ScannerState, adf_state: Option<AdfState>) -> (r: ScanStatus)
        ensures
            r == (ScanStatus { scanner_state, adf_state }),
    {
        ScanStatus { scanner_state, adf_state }
    }

    pub fn scanner_state(&self) -> (r: ScannerState)
        ensures
            r == self.scanner_state,
    {
        self.scanner_state
    }

    /// Whether the scanner is idle, the only state in which a job may be
    /// started.
    pub fn is_idle(&self) -> (r: bool)
        ensures
            r == (self.scanner_state == ScannerState::Idle),
    {
        self.scanner_state == ScannerState::Idle
    }

    pub fn adf_state(&self) -> (r: Option<AdfState>)
        ensures
            r == self.adf_state,
    {
        self.adf_state
    }

    /// Decodes a status document. The `ScannerState` element is required;
    /// `AdfState` is optional, since not every device has a feeder, but
    /// when present its value must be in the vocabulary.
    pub fn read_xml(data: &[u8]) -> (r: Result<ScanStatus, ParseError>)
        ensures
            (r matches Ok(st) && spec_scan_status(data@) matches Ok(v) && st == v) || (
            r matches Err(e) && spec_scan_status(data@) matches Err(v) && e@ == v),
    {
        let doc = match parse_xml(data) {
            Some(doc) => doc,
            None => {
                return Err(ParseError::Xml);
            },
        };
        let scanner_state = match read_child_value(&doc, "ScannerState") {
            Ok(t) => ScannerState::parse(t.as_str())?,
            Err(e) => {
                return Err(e);
            },
        };
        let adf_state = match read_child_value(&doc, "AdfState") {
            Ok(t) => Some(AdfState::parse(t.as_str())?),
            Err(_) => None,
        };
        Ok(ScanStatus::new(scanner_state, adf_state))
    }
}

} // verus!
