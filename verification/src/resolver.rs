//! Offset resolution: turns a reference timestamp and a capture session's
//! elapsed duration into a signed drift, resolving the minute ambiguity
//! either automatically or from an explicit operator choice.

use vstd::prelude::*;

use crate::capture::CaptureResult;
use crate::timeref::ReferenceTimestamp;
use crate::timeref::capture_instant;
use crate::timeref::capture_instant_seconds;

verus! {

/// The operator's pick among the three candidate minutes shown for
/// disambiguation: the minute before, of, or after the capture instant.
#[derive(Debug)]
pub enum MinuteChoice {
    Before,
    Of,
    After,
}

/// How the minute ambiguity is resolved: from the observed second alone,
/// or from an explicit operator choice.
#[derive(Debug)]
pub enum ResolutionMode {
    Automatic,
    Interactive(MinuteChoice),
}

/// A resolved measurement: the capture instant in whole seconds, the whole
/// minutes applied to disambiguate (in seconds), and the final signed drift.
#[derive(Debug)]
pub struct ResolvedOffset {
    pub true_second: u32,
    pub minute_adjustment: i32,
    pub final_offset_seconds: i32,
}

/// Why resolution produced no measurement.
#[derive(Debug)]
pub enum ResolveError {
    NotTriggered,
    Ambiguous,
}

/// Whole-minute adjustment, in seconds, that a choice stands for.
pub open spec fn choice_adjustment(choice: MinuteChoice) -> int {
    match choice {
        MinuteChoice::Before => -60,
        MinuteChoice::Of => 0,
        MinuteChoice::After => 60,
    }
}

/// Automatic resolution from the capture instant's second-of-minute value.
pub open spec fn auto_offset_of(s: int) -> int {
    if s < 30 {
        -s
    } else {
        60 - s
    }
}

/// A drift is acceptable only within (-30, +30] seconds; anything larger
/// means the wrong minute candidate was used.
pub open spec fn offset_in_range(offset: int) -> bool {
    -30 < offset <= 30
}

/// Automatic-mode drift for a second-of-minute value: the signed distance
/// to the nearest minute boundary, always within (-30, +30].
pub fn auto_offset(second: u32) -> (offset: i32)
    requires
        second < 60,
    ensures
        offset == auto_offset_of(second as int),
        offset_in_range(offset as int),
{
    if second < 30 {
        -(second as i32)
    } else {
        60 - second as i32
    }
}

/// Interactive-mode drift: the chosen minute's adjustment minus the capture
/// instant's second-of-minute value, rejected when out of range.
pub fn interactive_offset(choice: &MinuteChoice, second: u32) -> (r: Result<i32, ResolveError>)
    requires
        second < 60,
    ensures
        offset_in_range(choice_adjustment(*choice) - second) ==> r == Ok::<i32, ResolveError>(
            (choice_adjustment(*choice) - second) as i32,
        ),
        !offset_in_range(choice_adjustment(*choice) - second) ==> (r matches Err(e) && e
            is Ambiguous),
{
    let adjustment: i32 = match choice {
        MinuteChoice::Before => -60,
        MinuteChoice::Of => 0,
        MinuteChoice::After => 60,
    };
    let offset: i32 = adjustment - second as i32;
    if -30 < offset && offset <= 30 {
        Ok(offset)
    } else {
        Err(ResolveError::Ambiguous)
    }
}

/// The second-of-minute value of an instant in whole seconds.
pub fn second_of_minute(total_seconds: u64) -> (s: u32)
    ensures
        s == total_seconds as int % 60,
        s < 60,
{
    (total_seconds % 60) as u32
}

/// The minute-of-hour value of an instant in whole seconds.
pub fn minute_of_hour(total_seconds: u64) -> (m: u32)
    ensures
        m == total_seconds as int / 60 % 60,
        m < 60,
{
    ((total_seconds / 60) % 60) as u32
}

/// The three candidate minute-of-hour labels offered for disambiguation:
/// the minute before, the minute of, and the minute after the given one.
pub fn minute_candidates(minute: u32) -> (r: (u32, u32, u32))
    requires
        minute < 60,
    ensures
        r.0 == (minute + 59) % 60,
        r.1 == minute,
        r.2 == (minute + 1) % 60,
{
    ((minute + 59) % 60, minute, (minute + 1) % 60)
}

/// The whole-minute adjustment, in seconds, that a choice stands for.
pub fn choice_adjustment_seconds(choice: &MinuteChoice) -> (adj: i32)
    ensures
        adj == choice_adjustment(*choice),
{
    match choice {
        MinuteChoice::Before => -60,
        MinuteChoice::Of => 0,
        MinuteChoice::After => 60,
    }
}

/// What `resolve` returns on a triggered capture, given the capture
/// instant's value and its second-of-minute value.
pub open spec fn resolved_for(mode: ResolutionMode, instant: int, s: int) -> Result<
    ResolvedOffset,
    ResolveError,
> {
    match mode {
        ResolutionMode::Automatic => Ok(
            ResolvedOffset {
                true_second: instant as u32,
                minute_adjustment: if s < 30 {
                    0
                } else {
                    60
                },
                final_offset_seconds: auto_offset_of(s) as i32,
            },
        ),
        ResolutionMode::Interactive(choice) => {
            let offset = choice_adjustment(choice) - s;
            if offset_in_range(offset) {
                Ok(
                    ResolvedOffset {
                        true_second: instant as u32,
                        minute_adjustment: choice_adjustment(choice) as i32,
                        final_offset_seconds: offset as i32,
                    },
                )
            } else {
                Err(ResolveError::Ambiguous)
            }
        },
    }
}

/// Whatever the mode, a successfully resolved offset lies within
/// (-30, +30] seconds: a larger magnitude would mean the wrong minute
/// candidate was used, and resolution rejects it instead.
pub proof fn lemma_resolved_offset_in_range(mode: ResolutionMode, instant: int, s: int)
    requires
        0 <= s < 60,
        resolved_for(mode, instant, s) is Ok,
    ensures
        offset_in_range(resolved_for(mode, instant, s)->Ok_0.final_offset_seconds as int),
{
}

/// Automatic resolution coincides with the interactive choice of the
/// nearest minute boundary: the minute of the capture instant below thirty
/// seconds, and the minute after it from thirty seconds on.
pub proof fn lemma_auto_matches_nearest_choice(instant: int, s: int)
    requires
        0 <= s < 60,
    ensures
        resolved_for(ResolutionMode::Automatic, instant, s) == resolved_for(
            ResolutionMode::Interactive(
                if s < 30 {
                    MinuteChoice::Of
                } else {
                    MinuteChoice::After
                },
            ),
            instant,
            s,
        ),
{
}

/// Resolves a reference sample and a capture outcome into a signed drift.
/// An untriggered capture yields no measurement; a triggered one yields the
/// capture instant, the minute adjustment the mode settles on, and the final
/// offset, which is rejected as ambiguous when it falls outside (-30, +30].
pub fn resolve(
    reference: &ReferenceTimestamp,
    capture: &CaptureResult,
    mode: &ResolutionMode,
) -> (r: Result<ResolvedOffset, ResolveError>)
    requires
        capture.triggered ==> capture.elapsed_ms <= u64::MAX - 1000,
        capture.triggered ==> capture_instant(*reference, capture.elapsed_ms) <= u32::MAX,
    ensures
        !capture.triggered ==> (r matches Err(e) && e is NotTriggered),
        capture.triggered ==> r == resolved_for(
            *mode,
            capture_instant(*reference, capture.elapsed_ms),
            capture_instant(*reference, capture.elapsed_ms) % 60,
        ),
{
    if !capture.triggered {
        return Err(ResolveError::NotTriggered);
    }
    let instant: u64 = capture_instant_seconds(reference, capture.elapsed_ms);
    let second: u32 = (instant % 60) as u32;
    let true_second: u32 = instant as u32;
    match mode {
        ResolutionMode::Automatic => {
            let offset: i32 = auto_offset(second);
            let adjustment: i32 = if second < 30 {
                0
            } else {
                60
            };
            Ok(
                ResolvedOffset {
                    true_second,
                    minute_adjustment: adjustment,
                    final_offset_seconds: offset,
                },
            )
        },
        ResolutionMode::Interactive(choice) => {
            let adjustment: i32 = choice_adjustment_seconds(choice);
            match interactive_offset(choice, second) {
                Ok(offset) => Ok(
                    ResolvedOffset {
                        true_second,
                        minute_adjustment: adjustment,
                        final_offset_seconds: offset,
                    },
                ),
                Err(e) => Err(e),
            }
        },
    }
}

} // verus!
