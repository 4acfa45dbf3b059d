//! The decisions of the event loop: what to do with each read, and the running
//! latency statistics. The blocking read, the key emission and the clock stay with
//! the caller, who hands each outcome back.
use vstd::prelude::*;

use crate::engine::{outputs_for, state_after, EngineView, MappingEngine};
use crate::input::InputEvent;
use crate::keyboard::OutputEvent;

verus! {

/// Statistics are reported after every this many processed events.
pub const REPORT_INTERVAL: u64 = 100;

/// Running count, sum, minimum and maximum of per-event processing latency, in
/// microseconds. The count and the sum stop at `u64::MAX` rather than wrap.
#[derive(Debug, Clone, Copy, PartialEq, Eq, Structural)]
pub struct LatencyStats {
    pub count: u64,
    pub total_us: u64,
    pub min_us: u64,
    pub max_us: u64,
}

pub open spec fn saturating(v: int) -> u64 {
    if v > u64::MAX {
        u64::MAX
    } else {
        v as u64
    }
}

impl LatencyStats {
    /// The statistics after one more event that took `latency_us`.
    pub open spec fn spec_record(self, latency_us: u64) -> LatencyStats {
        LatencyStats {
            count: saturating(self.count + 1),
            total_us: saturating(self.total_us + latency_us),
            min_us: if latency_us < self.min_us {
                latency_us
            } else {
                self.min_us
            },
            max_us: if latency_us > self.max_us {
                latency_us
            } else {
                self.max_us
            },
        }
    }

    /// Statistics of no events yet: the minimum starts at the largest value.
    pub fn new() -> (r: Self)
        ensures
            r == (LatencyStats { count: 0, total_us: 0, min_us: u64::MAX, max_us: 0 }),
    {
        LatencyStats { count: 0, total_us: 0, min_us: u64::MAX, max_us: 0 }
    }

    /// Folds one event's processing latency into the statistics.
    pub fn record(&mut self, latency_us: u64)
        ensures
            *final(self) == old(self).spec_record(latency_us),
    {
        self.count = if self.count == u64::MAX {
            u64::MAX
        } else {
            self.count + 1
        };
        self.total_us = if self.total_us > u64::MAX - latency_us {
            u64::MAX
        } else {
            self.total_us + latency_us
        };
        if latency_us < self.min_us {
            self.min_us = latency_us;
        }
        if latency_us > self.max_us {
            self.max_us = latency_us;
        }
    }

    /// The mean latency, rounded down; none before the first event.
    pub fn average_us(&self) -> (r: Option<u64>)
        ensures
            self.count == 0 ==> r is None,
            self.count > 0 ==> r == Some((self.total_us / self.count) as u64),
    {
        if self.count == 0 {
            None
        } else {
            Some(self.total_us / self.count)
        }
    }

    /// Whether a periodic report is due: after every `REPORT_INTERVAL`-th event.
    pub fn report_due(&self) -> (r: bool)
        ensures
            r == (self.count > 0 && self.count % REPORT_INTERVAL == 0),
    {
        self.count > 0 && self.count % REPORT_INTERVAL == 0
    }
}

/// The two states of the loop; `Stopped` is final.
#[derive(Debug, Clone, Copy, PartialEq, Eq, Structural)]
pub enum LoopState {
    Running,
    Stopped,
}

/// What the caller does next.
#[derive(Debug)]
pub enum LoopAction {
    /// Hand these events to the keyboard sink, in order, then report the latency.
    Emit(Vec<OutputEvent>),
    /// The source disconnected: leave the loop.
    Stop,
}

/// The loop's state: the engine it owns, the latency statistics and whether it runs.
pub struct EventLoop {
    engine: MappingEngine,
    stats: LatencyStats,
    state: LoopState,
}

impl EventLoop {
    pub closed spec fn spec_engine(&self) -> EngineView {
        self.engine@
    }

    pub closed spec fn spec_stats(&self) -> LatencyStats {
        self.stats
    }

    pub closed spec fn spec_state(&self) -> LoopState {
        self.state
    }

    /// A running loop around an engine, with empty statistics.
    pub fn new(engine: MappingEngine) -> (r: Self)
        ensures
            r.spec_engine() == engine@,
            r.spec_stats() == (LatencyStats { count: 0, total_us: 0, min_us: u64::MAX, max_us: 0 }),
            r.spec_state() == LoopState::Running,
    {
        EventLoop { engine, stats: LatencyStats::new(), state: LoopState::Running }
    }

    /// Decides on the outcome of one blocking read: an event is mapped and its keyboard
    /// events are to be emitted; `None` means the source disconnected, and the loop stops.
    pub fn on_read(&mut self, next: Option<InputEvent>) -> (r: LoopAction)
        requires
            old(self).spec_state() == LoopState::Running,
        ensures
            final(self).spec_stats() == old(self).spec_stats(),
            match next {
                Some(ev) => {
                    &&& r matches LoopAction::Emit(out) && out@ == outputs_for(
                        old(self).spec_engine(),
                        ev,
                    )
                    &&& final(self).spec_engine() == state_after(old(self).spec_engine(), ev)
                    &&& final(self).spec_state() == LoopState::Running
                },
                None => {
                    &&& r is Stop
                    &&& final(self).spec_engine() == old(self).spec_engine()
                    &&& final(self).spec_state() == LoopState::Stopped
                },
            },
    {
        match next {
            Some(ev) => LoopAction::Emit(self.engine.process(&ev)),
            None => {
                self.state = LoopState::Stopped;
                LoopAction::Stop
            },
        }
    }

    /// Records the latency of the event just processed (the time spent mapping and
    /// emitting it, not the wait for it) and says whether a periodic report is due.
    pub fn on_processed(&mut self, latency_us: u64) -> (report: bool)
        ensures
            final(self).spec_stats() == old(self).spec_stats().spec_record(latency_us),
            final(self).spec_engine() == old(self).spec_engine(),
            final(self).spec_state() == old(self).spec_state(),
            report == (final(self).spec_stats().count > 0 && final(self).spec_stats().count
                % REPORT_INTERVAL == 0),
    {
        self.stats.record(latency_us);
        self.stats.report_due()
    }

    pub fn stats(&self) -> (r: LatencyStats)
        ensures
            r == self.spec_stats(),
    {
        self.stats
    }

    pub fn is_running(&self) -> (r: bool)
        ensures
            r == (self.spec_state() == LoopState::Running),
    {
        self.state == LoopState::Running
    }
}

} // verus!
