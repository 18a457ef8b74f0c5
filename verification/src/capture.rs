//! Capture-session decisions: a session waits for one qualifying operator
//! event under a hard time ceiling, polling at a bounded interval. The
//! decision at each poll step is a pure function verified here; the caller
//! performs the waiting and hands in the elapsed time and any event seen.

use vstd::prelude::*;

verus! {

/// Outcome of one capture session. `triggered == false` means the session
/// was cancelled or timed out; `elapsed_ms` is meaningless in that case.
#[derive(Debug)]
pub struct CaptureResult {
    pub elapsed_ms: u64,
    pub triggered: bool,
}

/// Session limits: the hard ceiling on the whole session and the granularity
/// at which the caller polls for input.
#[derive(Debug)]
pub struct CaptureConfig {
    pub max_wait_ms: u64,
    pub poll_interval_ms: u64,
}

impl CaptureConfig {
    /// The standard session limits: a 70 second ceiling, polled every 500 ms.
    pub fn standard() -> (c: CaptureConfig)
        ensures
            c.max_wait_ms == 70_000,
            c.poll_interval_ms == 500,
    {
        CaptureConfig { max_wait_ms: 70_000, poll_interval_ms: 500 }
    }
}

/// A qualifying operator input: a cancel signal (escape, confirm or space
/// key) or the capture trigger (pointer press or on-screen confirmation).
#[derive(Clone, Copy)]
pub enum CaptureEvent {
    Cancel,
    Trigger,
}

/// One decision step of a capture session, taken after each poll: a trigger
/// ends the session with the elapsed time, a cancel ends it untriggered, and
/// with no event the session ends untriggered once the ceiling is reached
/// and otherwise continues (`None`).
pub fn session_step(config: &CaptureConfig, elapsed_ms: u64, event: Option<CaptureEvent>) -> (r:
    Option<CaptureResult>)
    ensures
        (event matches Some(e) && e is Trigger) ==> r == Some(
            (CaptureResult { elapsed_ms, triggered: true }),
        ),
        (event matches Some(e) && e is Cancel) ==> (r matches Some(c) && !c.triggered),
        (event is None && elapsed_ms >= config.max_wait_ms) ==> (r matches Some(c)
            && !c.triggered),
        (event is None && elapsed_ms < config.max_wait_ms) ==> r is None,
{
    match event {
        Some(CaptureEvent::Trigger) => Some(CaptureResult { elapsed_ms, triggered: true }),
        Some(CaptureEvent::Cancel) => Some(CaptureResult { elapsed_ms, triggered: false }),
        None => {
            if elapsed_ms >= config.max_wait_ms {
                Some(CaptureResult { elapsed_ms, triggered: false })
            } else {
                None
            }
        },
    }
}

} // verus!
