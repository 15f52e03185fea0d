//! The history of one tracked resource: its latest totals and every sample
//! recorded so far.

use vstd::prelude::*;
use crate::reading::{Reading, ReadingModel, FULL_SCALE};

verus! {

/// Utilisation at one tick of the logical clock, in hundredths of a percent.
#[derive(Clone, Copy, Debug, PartialEq, Eq, Structural)]
pub struct Sample {
    pub tick: u64,
    pub percent: u16,
}

/// A sample as a pair of numbers.
pub struct Point {
    pub tick: nat,
    pub percent: nat,
}

impl View for Sample {
    type V = Point;

    open spec fn view(&self) -> Point {
        Point { tick: self.tick as nat, percent: self.percent as nat }
    }
}

/// The points that a run of samples stands for, in the same order.
pub open spec fn points_of(samples: Seq<Sample>) -> Seq<Point> {
    Seq::new(samples.len(), |i: int| samples[i]@)
}

/// The point every series starts with: tick 1 at 0 %.
pub open spec fn sentinel() -> Point {
    Point { tick: 1, percent: 0 }
}

/// What a [`MemData`] holds: the latest totals and the samples in the order
/// in which they were recorded.
pub struct SeriesModel {
    pub total: nat,
    pub used: nat,
    pub samples: Seq<Point>,
}

impl SeriesModel {
    /// A fresh series: no totals yet, and the sentinel as its only sample.
    pub open spec fn seeded() -> SeriesModel {
        SeriesModel { total: 0, used: 0, samples: seq![sentinel()] }
    }

    /// The series after `reading` was recorded at `tick`: the totals are
    /// replaced, the history grows by one sample.
    pub open spec fn record(self, tick: nat, reading: ReadingModel) -> SeriesModel {
        SeriesModel {
            total: reading.total,
            used: reading.used,
            samples: self.samples.push(Point { tick, percent: reading.percent }),
        }
    }

    /// The most recent sample.
    pub open spec fn latest(self) -> Point
        recommends
            self.samples.len() > 0,
    {
        self.samples.last()
    }

    /// Ticks grow strictly along the history.
    pub open spec fn ticks_increase(self) -> bool {
        forall|i: int, j: int|
            0 <= i < j < self.samples.len() ==> self.samples[i].tick < self.samples[j].tick
    }

    /// No sample lies beyond 100 %.
    pub open spec fn in_scale(self) -> bool {
        forall|i: int|
            0 <= i < self.samples.len() ==> #[trigger] self.samples[i].percent <= FULL_SCALE
    }

    /// The invariant of a series: it is never empty, its ticks grow strictly
    /// and its percentages stay within the scale.
    pub open spec fn wf(self) -> bool {
        &&& self.samples.len() > 0
        &&& self.ticks_increase()
        &&& self.in_scale()
    }
}

/// Latest totals and full history of one tracked resource.
#[derive(Debug)]
pub struct MemData {
    total: u64,
    used: u64,
    percents: Vec<Sample>,
}

impl View for MemData {
    type V = SeriesModel;

    closed spec fn view(&self) -> SeriesModel {
        SeriesModel {
            total: self.total as nat,
            used: self.used as nat,
            samples: points_of(self.percents@),
        }
    }
}

impl MemData {
    /// A fresh series, seeded with the sentinel.
    pub fn seeded() -> (series: MemData)
        ensures
            series@ == SeriesModel::seeded(),
    {
        let mut percents: Vec<Sample> = Vec::new();
        percents.push(Sample { tick: 1, percent: 0 });
        assert(points_of(percents@) =~= seq![sentinel()]);
        MemData { total: 0, used: 0, percents }
    }

    /// Takes over the totals of `reading` and appends its percentage at
    /// `tick`. At a tick later than the latest one this keeps the invariant
    /// of the series.
    pub fn record(&mut self, tick: u64, reading: &Reading)
        ensures
            final(self)@ == old(self)@.record(tick as nat, reading@),
            final(self)@.latest().percent <= FULL_SCALE,
            old(self)@.wf() && old(self)@.latest().tick < tick ==> final(self)@.wf(),
    {
        let percent: u16 = reading.percent();
        proof {
            if self@.wf() && self@.latest().tick < tick {
                lemma_record_keeps_wf(self@, tick as nat, reading@);
            }
        }
        self.total = reading.total();
        self.used = reading.used();
        self.percents.push(Sample { tick, percent });
        assert(points_of(self.percents@) =~= old(self)@.record(tick as nat, reading@).samples);
    }

    /// Capacity of the resource in bytes, as last reported.
    pub fn total(&self) -> (t: u64)
        ensures
            t == self@.total,
    {
        self.total
    }

    /// Bytes in use, as last reported.
    pub fn used(&self) -> (u: u64)
        ensures
            u == self@.used,
    {
        self.used
    }

    /// Every sample recorded so far, oldest first.
    pub fn samples(&self) -> (s: &Vec<Sample>)
        ensures
            points_of(s@) == self@.samples,
    {
        &self.percents
    }

    /// The most recent sample.
    pub fn latest(&self) -> (s: Sample)
        requires
            self@.samples.len() > 0,
        ensures
            s@ == self@.latest(),
    {
        self.percents[self.percents.len() - 1]
    }
}

/// Recording at a tick later than the latest one, from a reading within the
/// scale, keeps the invariant of a series, lengthens it by one and makes the
/// new sample its latest.
pub proof fn lemma_record_keeps_wf(series: SeriesModel, tick: nat, reading: ReadingModel)
    requires
        series.wf(),
        series.latest().tick < tick,
        reading.in_scale(),
    ensures
        series.record(tick, reading).wf(),
        series.record(tick, reading).samples.len() == series.samples.len() + 1,
        series.record(tick, reading).latest() == (Point { tick, percent: reading.percent }),
{
    let after = series.record(tick, reading);
    let n = series.samples.len() as int;
    assert forall|i: int, j: int| 0 <= i < j < after.samples.len() implies after.samples[i].tick
        < after.samples[j].tick by {
        if j < n {
            assert(after.samples[i] == series.samples[i]);
            assert(after.samples[j] == series.samples[j]);
        } else if i < n - 1 {
            assert(after.samples[i] == series.samples[i]);
            assert(series.samples[i].tick < series.samples[n - 1].tick);
        }
    }
    assert forall|i: int| 0 <= i < after.samples.len() implies #[trigger] after.samples[i].percent
        <= FULL_SCALE by {
        if i < n {
            assert(after.samples[i] == series.samples[i]);
        }
    }
}

} // verus!
