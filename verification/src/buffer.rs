use vstd::prelude::*;

use crate::model::SensorData;

verus! {

/// Number of most-recent readings shown on the dashboard trend chart.
pub const RECENT_WINDOW: usize = 10;

/// The in-memory snapshot of readings, in the order the external store
/// returned them (not assumed sorted by timestamp). The snapshot always
/// reflects the complete result of the most recent successful fetch: it is
/// replaced wholesale, never merged or appended incrementally.
pub struct ReadingBuffer {
    readings: Vec<SensorData>,
}

impl View for ReadingBuffer {
    type V = Seq<SensorData>;

    closed spec fn view(&self) -> Seq<SensorData> {
        self.readings@
    }
}

impl ReadingBuffer {
    /// A buffer that has never been populated.
    pub fn new() -> (buffer: ReadingBuffer)
        ensures
            buffer@ =~= Seq::<SensorData>::empty(),
    {
        ReadingBuffer { readings: Vec::new() }
    }

    /// Swap in an entire new snapshot. The old contents are discarded
    /// completely: afterwards the buffer holds exactly the new readings, so
    /// no reader can ever observe a mixture of old and new.
    pub fn replace(&mut self, new_readings: Vec<SensorData>)
        ensures
            final(self)@ =~= new_readings@,
    {
        self.readings = new_readings;
    }

    /// The most recent reading in insertion order, or None when the buffer
    /// is empty — never a default value.
    pub fn last_reading(&self) -> (r: Option<SensorData>)
        ensures
            self@.len() == 0 <==> r is None,
            self@.len() > 0 ==> r == Some(self@.last()),
    {
        if self.readings.len() == 0 {
            None
        } else {
            Some(self.readings[self.readings.len() - 1])
        }
    }

    /// Read-only ordered view of the full snapshot, for history display.
    pub fn current_snapshot(&self) -> (r: &Vec<SensorData>)
        ensures
            r@ =~= self@,
    {
        &self.readings
    }

    /// Number of readings in the snapshot.
    pub fn len(&self) -> (n: usize)
        ensures
            n == self@.len(),
    {
        self.readings.len()
    }

    /// The last `RECENT_WINDOW` readings in insertion order (all of them
    /// when the snapshot is shorter), for the dashboard trend chart.
    pub fn recent_window(&self) -> (r: Vec<SensorData>)
        ensures
            self@.len() <= RECENT_WINDOW ==> r@ =~= self@,
            self@.len() > RECENT_WINDOW ==> r@ =~= self@.skip(self@.len() - RECENT_WINDOW),
    {
        let n = self.readings.len();
        let start: usize = if n > RECENT_WINDOW {
            n - RECENT_WINDOW
        } else {
            0
        };
        let mut r: Vec<SensorData> = Vec::new();
        let mut i: usize = start;
        while i < n
            invariant
                start <= i <= n == self@.len(),
                r@ =~= self@.subrange(start as int, i as int),
            decreases n - i,
        {
            r.push(self.readings[i]);
            i = i + 1;
        }
        assert(self@.subrange(start as int, n as int) =~= self@.skip(start as int));
        assert(start == 0 ==> self@.skip(0) =~= self@);
        r
    }
}

} // verus!
