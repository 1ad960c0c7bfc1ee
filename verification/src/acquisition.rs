//! The acquisition service surface: the response records of the four
//! operations, and the verified logic behind each one.
//!
//! Transport plumbing (the server, request envelopes, the streaming channel)
//! lives outside this crate; the functions here take and return plain values.

use vstd::prelude::*;

use crate::accumulator::tick_spec;
use crate::accumulator::YieldSummary;
use crate::store::RunStateStore;

verus! {

/// Description of one acquisition run: its identifier, the lifecycle
/// placeholders, and optionally a yield snapshot. Built fresh for every
/// response; never aliases live state.
pub struct AcquisitionRunInfo {
    pub run_id: String,
    pub startup_state: i32,
    pub state: i32,
    pub finishing_state: i32,
    pub stop_reason: i32,
    pub yield_summary: Option<YieldSummary>,
}

/// Response of the status operation.
#[derive(Clone, Copy, PartialEq, Eq, Structural, Debug)]
pub struct CurrentStatusResponse {
    pub status: i32,
}

/// Acquired/processed sample counts of one channel.
#[derive(Clone, Copy, PartialEq, Eq, Structural, Debug)]
pub struct RawPerChannel {
    pub acquired: u64,
    pub processed: u64,
}

/// Response of the progress operation.
pub struct GetProgressResponse {
    pub raw_per_channel: Option<RawPerChannel>,
}

/// The acquisition service: the current run's identifier and the store that
/// owns the simulated state.
pub struct Acquisition {
    pub run_id: String,
    pub store: RunStateStore,
}

impl Acquisition {
    /// A fresh service for the given run identifier, with an empty store.
    pub fn new(run_id: String) -> (a: Acquisition)
        ensures
            a.run_id == run_id,
            forall|id: Seq<char>| a.store.contents(id) is None,
    {
        Acquisition { run_id, store: RunStateStore::new() }
    }

    /// The single item the watch stream delivers: a fixed placeholder record
    /// with no live accumulator state attached.
    pub fn watch_current_acquisition_run(&self) -> (info: AcquisitionRunInfo)
        ensures
            info.run_id@ == "Wowee"@,
            info.startup_state == 0,
            info.state == 0,
            info.finishing_state == 0,
            info.stop_reason == 0,
            info.yield_summary is None,
    {
        AcquisitionRunInfo {
            run_id: "Wowee".to_owned(),
            startup_state: 0,
            state: 0,
            finishing_state: 0,
            stop_reason: 0,
            yield_summary: None,
        }
    }

    /// Whether one more simulated tick of this service's run fits in its
    /// counters; the check a caller makes before
    /// [`Acquisition::get_current_acquisition_run`].
    pub fn can_advance(&self) -> (b: bool)
        ensures
            b == self.store.run_can_tick(self.run_id@),
    {
        self.store.has_headroom(&self.run_id)
    }

    /// Advance the simulated run by one random tick and describe it.
    ///
    /// **Not** a read-only query: every call advances the run's state — this
    /// is the operation that drives simulated progress. The response carries
    /// the fresh snapshot and the run's identifier; the lifecycle fields are
    /// fixed placeholders.
    pub fn get_current_acquisition_run(&mut self) -> (info: AcquisitionRunInfo)
        requires
            old(self).store.run_can_tick(old(self).run_id@),
        ensures
            final(self).run_id == old(self).run_id,
            info.run_id == old(self).run_id,
            info.startup_state == 0,
            info.state == 0,
            info.finishing_state == 0,
            info.stop_reason == 0,
            match info.yield_summary {
                Some(snap) => {
                    &&& exists|draw: int|
                        0 <= draw < 100 && snap@ == tick_spec(
                            old(self).store.model_of(old(self).run_id@),
                            draw,
                        )
                    &&& final(self).store.contents(old(self).run_id@) == Some(snap@)
                },
                None => false,
            },
            forall|other: Seq<char>|
                other != old(self).run_id@ ==> final(self).store.contents(other) == old(
                    self,
                ).store.contents(other),
    {
        let run_id = self.run_id.clone();
        let snap = self.store.tick_and_snapshot(&run_id);
        AcquisitionRunInfo {
            run_id,
            startup_state: 0,
            state: 0,
            finishing_state: 0,
            stop_reason: 0,
            yield_summary: Some(snap),
        }
    }

    /// The fixed status code of the simulated instrument.
    pub fn current_status(&self) -> (r: CurrentStatusResponse)
        ensures
            r.status == 3,
    {
        CurrentStatusResponse { status: 3 }
    }

    /// The fixed acquired/processed sample-count pair.
    pub fn get_progress(&self) -> (r: GetProgressResponse)
        ensures
            match r.raw_per_channel {
                Some(c) => c.acquired == 100 && c.processed == 900,
                None => false,
            },
    {
        GetProgressResponse { raw_per_channel: Some(RawPerChannel { acquired: 100, processed: 900 }) }
    }
}

} // verus!
