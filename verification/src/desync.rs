//! Desync detection.
//!
//! At a fixed tick interval each peer records its local checksum and
//! sends it to the others.  When a remote checksum arrives for a tick
//! whose local checksum is known, the two are compared: a mismatch is
//! a hard session-integrity failure — it means the deterministic
//! contract was violated — and is reported, never silently recovered
//! from.

use vstd::prelude::*;

verus! {

/// A checksum of canonical state, tagged with the tick it was
/// computed at.
#[derive(Clone, Copy, PartialEq, Eq, Structural, Debug)]
pub struct DesyncChecksum {
    pub tick: usize,
    pub value: u16,
}

/// The outcome of comparing a remote checksum against local history.
#[derive(Clone, Copy, PartialEq, Eq, Structural, Debug)]
pub enum DesyncVerdict {
    /// Both peers computed the same checksum at that tick.
    Match,
    /// The peers diverged: the tick and both checksums.
    Desynced { tick: usize, local: u16, remote: u16 },
    /// No local checksum was recorded for that tick.
    Unknown,
}

/// The most recent locally recorded checksum for a tick, if any.
pub open spec fn spec_lookup(history: Seq<DesyncChecksum>, tick: usize) -> Option<u16>
    decreases history.len(),
{
    if history.len() == 0 {
        Option::None
    } else if history.last().tick == tick {
        Option::Some(history.last().value)
    } else {
        spec_lookup(history.drop_last(), tick)
    }
}

/// The local side of desync detection: the sampling interval and the
/// history of locally computed checksums.
pub struct DesyncDetector {
    pub interval: usize,
    pub history: Vec<DesyncChecksum>,
}

impl DesyncDetector {
    /// A detector that samples every `interval` ticks.
    pub fn new(interval: usize) -> (r: DesyncDetector)
        requires
            interval >= 1,
        ensures
            r.interval == interval,
            r.history@.len() == 0,
    {
        DesyncDetector { interval, history: Vec::new() }
    }

    /// Whether a tick is a sampling tick of this detector.
    pub fn should_sample(&self, tick: usize) -> (r: bool)
        requires
            self.interval >= 1,
        ensures
            r == (tick as int % self.interval as int == 0),
    {
        tick % self.interval == 0
    }

    /// Record the locally computed checksum of a tick.
    pub fn record_local(&mut self, tick: usize, value: u16)
        ensures
            final(self).interval == old(self).interval,
            final(self).history@ == old(self).history@.push(DesyncChecksum { tick, value }),
    {
        self.history.push(DesyncChecksum { tick, value });
    }

    /// Look up the local checksum recorded for a tick.
    pub fn local_checksum(&self, tick: usize) -> (r: Option<u16>)
        ensures
            r == spec_lookup(self.history@, tick),
    {
        let n = self.history.len();
        let mut k: usize = n;
        proof {
            assert(self.history@.take(n as int) =~= self.history@);
        }
        while k > 0
            invariant
                0 <= k <= n,
                n == self.history@.len(),
                spec_lookup(self.history@, tick) == spec_lookup(self.history@.take(k as int), tick),
            decreases k,
        {
            let entry = self.history[k - 1];
            proof {
                assert(self.history@.take(k as int).last() == self.history@[k - 1]);
                assert(self.history@.take(k as int).drop_last() =~= self.history@.take(k - 1));
            }
            if entry.tick == tick {
                return Option::Some(entry.value);
            }
            k -= 1;
        }
        proof {
            assert(self.history@.take(0) =~= Seq::<DesyncChecksum>::empty());
        }
        Option::None
    }

    /// Compare a remote peer's checksum for a tick against local
    /// history: equal checksums match, different ones raise the
    /// desync report with the tick and both values, and a tick with
    /// no local record is unknown.
    pub fn on_remote(&self, tick: usize, remote: u16) -> (r: DesyncVerdict)
        ensures
            r == (match spec_lookup(self.history@, tick) {
                Option::Some(local) => {
                    if local == remote {
                        DesyncVerdict::Match
                    } else {
                        DesyncVerdict::Desynced { tick, local, remote }
                    }
                },
                Option::None => DesyncVerdict::Unknown,
            }),
    {
        match self.local_checksum(tick) {
            Option::Some(local) => {
                if local == remote {
                    DesyncVerdict::Match
                } else {
                    DesyncVerdict::Desynced { tick, local, remote }
                }
            },
            Option::None => DesyncVerdict::Unknown,
        }
    }
}

} // verus!
