//! The source-selection policy and the decision that starts a scan.

use vstd::prelude::*;

use crate::message::scan_job::{ColorSpace, Format, InputSource, ScanJob};
use crate::message::scan_status::{AdfState, ScanStatus, ScannerState};
use crate::scanner::ScannerError;

verus! {

/// What the user asked to scan from: a definite input, or automatic
/// selection by feeder state.
#[derive(Clone, Copy, Debug, PartialEq, Eq, Structural)]
pub enum Source {
    Auto,
    Adf,
    Glass,
}

/// The source-selection table, total over its twelve cases: a loaded
/// feeder serves `Auto` and `Adf` and never overrides an explicit
/// `Glass`; with the feeder absent, empty or failing, `Auto` and `Glass`
/// fall back to the platen while an explicit `Adf` fails.
pub open spec fn spec_choose_source(source: Source, adf_state: Option<AdfState>) -> Result<
    InputSource,
    ScannerError,
> {
    match adf_state {
        Some(AdfState::Loaded) => match source {
            Source::Adf => Ok(InputSource::Adf),
            Source::Auto => Ok(InputSource::Adf),
            Source::Glass => Ok(InputSource::Platen),
        },
        _ => match source {
            Source::Adf => Err(ScannerError::AdfEmpty),
            _ => Ok(InputSource::Platen),
        },
    }
}

/// Picks the physical input for a requested source and the reported
/// feeder state; deterministic, total, and free of side effects.
pub fn choose_source(source: Source, adf_state: Option<AdfState>) -> (r: Result<
    InputSource,
    ScannerError,
>)
    ensures
        r == spec_choose_source(source, adf_state),
{
    match adf_state {
        Some(AdfState::Loaded) => match source {
            Source::Adf | Source::Auto => Ok(InputSource::Adf),
            Source::Glass => Ok(InputSource::Platen),
        },
        _ => match source {
            Source::Adf => Err(ScannerError::AdfEmpty),
            _ => Ok(InputSource::Platen),
        },
    }
}

/// Turns a device status and the requested parameters into the job to
/// start: only an idle scanner accepts one, and the input source comes
/// from the selection table.
pub fn prepare_scan_job(
    status: &ScanStatus,
    format: Format,
    color: ColorSpace,
    source: Source,
    resolution: u32,
    quality: u32,
) -> (r: Result<ScanJob, ScannerError>)
    ensures
        status.scanner_state != ScannerState::Idle ==> r == Err::<ScanJob, _>(
            ScannerError::Busy,
        ),
        status.scanner_state == ScannerState::Idle ==> (match spec_choose_source(
            source,
            status.adf_state,
        ) {
            Err(e) => r == Err::<ScanJob, _>(e),
            Ok(input_source) => r == Ok::<_, ScannerError>(
                ScanJob { input_source, resolution, quality, format, color_space: color },
            ),
        }),
{
    if !status.is_idle() {
        return Err(ScannerError::Busy);
    }
    let input_source = match choose_source(source, status.adf_state()) {
        Ok(s) => s,
        Err(e) => {
            return Err(e);
        },
    };
    Ok(ScanJob::new(input_source, resolution, quality, format, color))
}

} // verus!

