//! The activity-timeline suspicion heuristic.
//!
//! A submission carries a client-reported log of window-focus events, each an
//! entry instant and an optional exit instant in milliseconds. A single
//! forward pass classifies the log, short-circuiting on the first tripped
//! rule; an empty log is benign, and still-open events (no exit) are skipped.

use vstd::prelude::*;

verus! {

/// One client-reported focus event. `exit` is `None` while the event is
/// still open; only closed pairs contribute to suspicion.
#[derive(Clone, Copy, PartialEq, Eq, Debug)]
pub struct LogEvent {
    pub entry: i64,
    pub exit: Option<i64>,
}

/// A closed pair lasting less than this many milliseconds, anywhere but at
/// the very first log position, counts as automated interaction.
pub const MIN_DWELL_MILLIS: i64 = 1000;

/// Whether the scan of `log` from position `i` onward trips a rule, given
/// the exit instant `prev_exit` of the last closed pair seen before `i`.
/// The rules on a closed pair, in order: an exit before its own entry; an
/// entry earlier than the previous closed pair's exit (overlapping or
/// backward windows); a dwell under one second at any position after the
/// first.
pub open spec fn scan_suspicious(log: Seq<LogEvent>, i: int, prev_exit: Option<i64>) -> bool
    decreases log.len() - i when 0 <= i <= log.len()
{
    if i >= log.len() {
        false
    } else {
        let ev = log[i];
        match ev.exit {
            None => scan_suspicious(log, i + 1, prev_exit),
            Some(ex) => {
                let overlaps_previous = match prev_exit {
                    Some(p) => ev.entry < p,
                    None => false,
                };
                if ex < ev.entry {
                    true
                } else if overlaps_previous {
                    true
                } else if ex - ev.entry < MIN_DWELL_MILLIS && i > 0 {
                    true
                } else {
                    scan_suspicious(log, i + 1, Some(ex))
                }
            },
        }
    }
}

/// A log is suspicious when the full scan from the start trips a rule.
pub open spec fn suspicious(log: Seq<LogEvent>) -> bool {
    scan_suspicious(log, 0, None)
}

/// Classifies an activity log: `true` means suspicious. Computed once, at
/// submission time; the flag is stored and never recomputed.
pub fn analyze_timeline(log: &Vec<LogEvent>) -> (r: bool)
    ensures
        r == suspicious(log@),
{
    let mut prev_exit: Option<i64> = None;
    let mut i: usize = 0;
    while i < log.len()
        invariant
            0 <= i <= log@.len(),
            suspicious(log@) == scan_suspicious(log@, i as int, prev_exit),
        decreases log@.len() - i,
    {
        let ev = log[i];
        match ev.exit {
            None => {},
            Some(ex) => {
                if ex < ev.entry {
                    return true;
                }
                if let Some(p) = prev_exit {
                    if ev.entry < p {
                        return true;
                    }
                }
                if (ex as i128) - (ev.entry as i128) < MIN_DWELL_MILLIS as i128 && i > 0 {
                    return true;
                }
                prev_exit = Some(ex);
            },
        }
        i += 1;
    }
    false
}

} // verus!
