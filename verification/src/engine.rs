//! One measurement cycle, after the interactive part is done: resolve the
//! capture against the reference sample and append the resulting record.

use vstd::prelude::*;

use crate::capture::CaptureResult;
use crate::resolver::ResolutionMode;
use crate::resolver::ResolveError;
use crate::resolver::ResolvedOffset;
use crate::resolver::resolve;
use crate::resolver::resolved_for;
use crate::store::MeasurementRecord;
use crate::store::StorageError;
use crate::store::append;
use crate::timeref::ReferenceTimestamp;
use crate::timeref::capture_instant;

verus! {

/// Why a measurement cycle ended without a persisted record: the measurement
/// itself failed (no trigger, or an ambiguous offset), or the save did.
#[derive(Debug)]
pub enum EngineError {
    Resolution(ResolveError),
    Storage(StorageError),
}

/// Runs the tail of a measurement cycle: resolves the drift and appends one
/// record to the store at `path`, keyed by the reference sample's whole
/// seconds. Returns the resolved offset and the sync flag actually
/// persisted; a requested sync flag is never dropped.
pub fn measure_and_store(
    path: &str,
    reference: &ReferenceTimestamp,
    capture: &CaptureResult,
    mode: &ResolutionMode,
    name: &String,
    comment: &String,
    sync_requested: bool,
) -> (r: Result<(ResolvedOffset, bool), EngineError>)
    requires
        reference.seconds <= u32::MAX,
        capture.triggered ==> capture.elapsed_ms <= u64::MAX - 1000,
        capture.triggered ==> capture_instant(*reference, capture.elapsed_ms) <= u32::MAX,
    ensures
        !capture.triggered ==> (r matches Err(EngineError::Resolution(e)) && e is NotTriggered),
        capture.triggered ==> (match resolved_for(
            *mode,
            capture_instant(*reference, capture.elapsed_ms),
            capture_instant(*reference, capture.elapsed_ms) % 60,
        ) {
            Ok(resolved) => ((r matches Ok(p) && p.0 == resolved && (sync_requested ==> p.1)) || (
            r matches Err(e) && e is Storage)),
            Err(failure) => (r matches Err(EngineError::Resolution(e)) && e == failure),
        }),
{
    let resolved: ResolvedOffset = match resolve(reference, capture, mode) {
        Ok(ro) => ro,
        Err(e) => {
            return Err(EngineError::Resolution(e));
        },
    };
    let record = MeasurementRecord {
        timestamp: reference.seconds as u32,
        diff: resolved.final_offset_seconds,
        sync: sync_requested,
        name: name.clone(),
        comment: comment.clone(),
    };
    match append(path, &record) {
        Ok(persisted) => Ok((resolved, persisted)),
        Err(e) => Err(EngineError::Storage(e)),
    }
}

} // verus!
