//! Per-template mining session bookkeeping.
//!
//! A session tracks the nonce counter, the wall-clock anchors and the
//! running maximum difficulty for one block template. Each call to
//! [`MiningSession::step`] accounts for one hash attempt: it decides
//! whether telemetry is due, updates the running maximum, and applies the
//! difficulty gate that decides whether the candidate is submitted.

use vstd::prelude::*;

verus! {

/// Seconds that must elapse between two telemetry reports.
pub const TELEMETRY_INTERVAL_SECS: u64 = 2;

/// One telemetry report: the cumulative hash count for the whole template
/// attempt, the seconds elapsed since the attempt started, and the
/// running maximum difficulty observed. The instantaneous hash rate is
/// `hashes / elapsed_seconds`; the division is left to the caller.
#[derive(Clone, Copy, PartialEq, Eq, Structural, Debug)]
pub struct Telemetry {
    pub hashes: u64,
    pub elapsed_seconds: u64,
    pub max_difficulty: u64,
}

/// Ephemeral state of one template attempt: the nonce to try next (which
/// equals the number of hashes already tried), the wall-clock anchors and
/// the running maximum difficulty.
#[derive(Clone, Copy, PartialEq, Eq, Structural, Debug)]
pub struct MiningSession {
    pub target_difficulty: u64,
    pub nonce: u32,
    pub start_time: u64,
    pub last_telemetry_time: u64,
    pub max_difficulty: u64,
}

impl MiningSession {
    /// Opens a session for a template with the given target difficulty at
    /// wall-clock second `now`.
    pub fn new(target_difficulty: u64, now: u64) -> (s: MiningSession)
        ensures
            s.target_difficulty == target_difficulty,
            s.nonce == 0,
            s.start_time == now,
            s.last_telemetry_time == now,
            s.max_difficulty == 0,
    {
        MiningSession {
            target_difficulty,
            nonce: 0,
            start_time: now,
            last_telemetry_time: now,
            max_difficulty: 0,
        }
    }

    /// Accounts for one hash attempt whose digest scored `score` at
    /// wall-clock second `now`.
    ///
    /// Returns the telemetry report if one is due, and the verdict of the
    /// difficulty gate: true exactly when `score` meets or exceeds the
    /// target, in which case the candidate is to be submitted and the
    /// nonce counter is left as it is; otherwise the counter advances to
    /// the next nonce.
    pub fn step(&mut self, score: u64, now: u64) -> (r: (Option<Telemetry>, bool))
        requires
            old(self).nonce < u32::MAX,
            now >= old(self).start_time,
            now >= old(self).last_telemetry_time,
        ensures
            r.1 == (score >= old(self).target_difficulty),
            final(self).target_difficulty == old(self).target_difficulty,
            final(self).start_time == old(self).start_time,
            final(self).max_difficulty == (if score > old(self).max_difficulty {
                score
            } else {
                old(self).max_difficulty
            }),
            (r.0 is Some) == (now - old(self).last_telemetry_time >= TELEMETRY_INTERVAL_SECS),
            r.0 is Some ==> {
                &&& final(self).last_telemetry_time == now
                &&& r.0.unwrap().hashes == old(self).nonce as u64
                &&& r.0.unwrap().elapsed_seconds == now - old(self).start_time
                &&& r.0.unwrap().max_difficulty == old(self).max_difficulty
            },
            r.0 is None ==> final(self).last_telemetry_time == old(self).last_telemetry_time,
            r.1 ==> final(self).nonce == old(self).nonce,
            !r.1 ==> final(self).nonce == old(self).nonce + 1,
    {
        let telemetry: Option<Telemetry> = if now - self.last_telemetry_time
            >= TELEMETRY_INTERVAL_SECS {
            let report = Telemetry {
                hashes: self.nonce as u64,
                elapsed_seconds: now - self.start_time,
                max_difficulty: self.max_difficulty,
            };
            self.last_telemetry_time = now;
            Some(report)
        } else {
            None
        };
        if score > self.max_difficulty {
            self.max_difficulty = score;
        }
        let found = score >= self.target_difficulty;
        if !found {
            self.nonce = self.nonce + 1;
        }
        (telemetry, found)
    }
}

} // verus!
