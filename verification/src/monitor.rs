use vstd::prelude::*;

use crate::buffer::ReadingBuffer;
use crate::model::SensorData;
use crate::model::Status;
use crate::model::status_of;
use crate::scheduler::PollScheduler;
use crate::scheduler::refresh_due;

verus! {

/// Why a poll cycle delivered no data: the store was unreachable or
/// misconfigured, or a single fetch failed (including a record that could
/// not be parsed, which fails the whole cycle rather than being ingested
/// partially). An empty result is not an error: it simply empties the
/// buffer.
#[derive(Clone, Copy, PartialEq, Eq, Structural, Debug)]
pub enum FetchError {
    Connection,
    Fetch,
}

/// The owned state of the monitoring core: the poll scheduler and the
/// reading buffer. The host loop ticks it with the current wall-clock time,
/// performs the single fetch when told to, and hands the outcome back; the
/// host runs tick and fetch on one execution context, so at most one fetch
/// is ever in flight.
pub struct Monitor {
    pub scheduler: PollScheduler,
    pub buffer: ReadingBuffer,
}

impl Monitor {
    /// A fresh core: fixed cadence, no attempt recorded, empty buffer.
    pub fn new() -> (m: Monitor)
        ensures
            m.scheduler.cadence_ms == crate::scheduler::POLL_CADENCE_MS,
            m.scheduler.last_refresh_ms == 0,
            m.buffer@ =~= Seq::<SensorData>::empty(),
    {
        Monitor { scheduler: PollScheduler::new(), buffer: ReadingBuffer::new() }
    }

    /// One tick of the host loop at wall-clock time `now_ms`. Returns
    /// whether the host must perform exactly one fetch now and feed its
    /// outcome to `apply_fetch_result`. The buffer is untouched; the
    /// attempt, if due, is recorded at once, so a failed fetch is retried
    /// only after a full cadence.
    pub fn tick(&mut self, now_ms: u64) -> (trigger: bool)
        ensures
            trigger == refresh_due(
                old(self).scheduler.last_refresh_ms as int,
                old(self).scheduler.cadence_ms as int,
                now_ms as int,
            ),
            final(self).scheduler.cadence_ms == old(self).scheduler.cadence_ms,
            trigger ==> final(self).scheduler.last_refresh_ms == now_ms,
            !trigger ==> final(self).scheduler.last_refresh_ms == old(
                self,
            ).scheduler.last_refresh_ms,
            final(self).buffer@ =~= old(self).buffer@,
    {
        self.scheduler.tick(now_ms)
    }

    /// Ingest the outcome of the fetch that a tick triggered. On success
    /// the snapshot is replaced wholesale by the fetched readings (an empty
    /// result empties the buffer); on failure the previous snapshot is kept
    /// entirely unchanged — stale but consistent, never partially
    /// overwritten. The scheduler is untouched either way: the attempt was
    /// already recorded when it was triggered.
    pub fn apply_fetch_result(&mut self, outcome: Result<Vec<SensorData>, FetchError>)
        ensures
            outcome is Ok ==> final(self).buffer@ =~= outcome->Ok_0@,
            outcome is Err ==> final(self).buffer@ =~= old(self).buffer@,
            final(self).scheduler.cadence_ms == old(self).scheduler.cadence_ms,
            final(self).scheduler.last_refresh_ms == old(self).scheduler.last_refresh_ms,
    {
        match outcome {
            Ok(readings) => self.buffer.replace(readings),
            Err(_) => (),
        }
    }

    /// Read-only ordered view of the full snapshot, for history display.
    pub fn current_snapshot(&self) -> (r: &Vec<SensorData>)
        ensures
            r@ =~= self.buffer@,
    {
        self.buffer.current_snapshot()
    }

    /// The most recent reading, or None when the buffer is empty.
    pub fn last_reading(&self) -> (r: Option<SensorData>)
        ensures
            self.buffer@.len() == 0 <==> r is None,
            self.buffer@.len() > 0 ==> r == Some(self.buffer@.last()),
    {
        self.buffer.last_reading()
    }

    /// Realtime status label: the verdict of the most recent reading, or
    /// the explicit no-data state when the buffer is empty.
    pub fn realtime_status(&self) -> (s: Status)
        ensures
            self.buffer@.len() == 0 <==> s == Status::NoData,
            self.buffer@.len() > 0 ==> s == (if crate::model::spec_classify(
                self.buffer@.last().value_milli_ppm as int,
            ) == crate::model::Verdict::Dirty {
                Status::Dirty
            } else {
                Status::Clean
            }),
    {
        let last = self.buffer.last_reading();
        status_of(last)
    }
}

} // verus!
