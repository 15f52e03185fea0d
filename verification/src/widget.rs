//! The widget: a title, a refresh cadence, the logical clock and the two
//! series it keeps in lock-step.

use vstd::prelude::*;
use vstd::string::StringExecFns;
use num_rational::Ratio;
use crate::reading::{Reading, ReadingModel, FULL_SCALE};
use crate::render::{
    caption_of, captions_fit, lay_caption, renderable, window, window_of, Frame, FrameModel,
    Marker, Region, Tint, Trace, TraceModel, CAPTION_COLUMN, MAIN_ROW, SIZE_LIMIT, SWAP_ROW,
};
use crate::series::{MemData, SeriesModel};

verus! {

/// `num_rational::Ratio`, an exact fraction. The widget stores and returns
/// one without looking inside.
#[verifier::external_type_specification]
#[verifier::external_body]
#[verifier::reject_recursive_types(T)]
pub struct ExRatio<T>(Ratio<T>);

/// The title shown on the widget's frame.
pub const TITLE: &'static str = " Memory Usage ";

/// What a [`MemWidget`] holds.
pub struct WidgetModel {
    pub title: Seq<char>,
    /// How many base ticks of the host's scheduler pass between two updates.
    pub interval: Ratio<u64>,
    /// The logical clock: one more than the number of updates so far.
    pub tick: nat,
    pub main: SeriesModel,
    pub swap: SeriesModel,
}

impl WidgetModel {
    /// The widget as constructed: the clock at 1, both series seeded.
    pub open spec fn initial(interval: Ratio<u64>) -> WidgetModel {
        WidgetModel {
            title: TITLE@,
            interval,
            tick: 1,
            main: SeriesModel::seeded(),
            swap: SeriesModel::seeded(),
        }
    }

    /// One update: the clock advances by one and each series records its
    /// reading at the new tick.
    pub open spec fn step(self, main: ReadingModel, swap: ReadingModel) -> WidgetModel {
        let tick = self.tick + 1;
        WidgetModel {
            title: self.title,
            interval: self.interval,
            tick,
            main: self.main.record(tick, main),
            swap: self.swap.record(tick, swap),
        }
    }

    /// The widget after one update for each pair of `readings` (main, then
    /// swap), in order.
    pub open spec fn run(self, readings: Seq<(ReadingModel, ReadingModel)>) -> WidgetModel
        decreases readings.len(),
    {
        if readings.len() == 0 {
            self
        } else {
            self.run(readings.drop_last()).step(readings.last().0, readings.last().1)
        }
    }

    /// The two series hold the same ticks at the same places.
    pub open spec fn aligned(self) -> bool {
        &&& self.main.samples.len() == self.swap.samples.len()
        &&& forall|i: int|
            0 <= i < self.main.samples.len() ==> self.main.samples[i].tick
                == self.swap.samples[i].tick
    }

    /// Whether the widget can be drawn into `area`: the captions have a
    /// place there and the totals of both series can be rendered.
    pub open spec fn drawable(self, area: Region) -> bool {
        &&& captions_fit(area)
        &&& renderable(self.main)
        &&& renderable(self.swap)
    }

    /// The drawing of the widget into `area`.
    ///
    /// The chart shows the window of ticks around the clock on a percentage
    /// axis that is never rescaled, main memory in yellow and swap in blue
    /// over it, each with its whole history. Below the top of the region
    /// stand the captions of the two series, in their colours.
    pub open spec fn frame(self, area: Region) -> FrameModel {
        FrameModel {
            title: self.title,
            x_bounds: window(self.tick),
            y_bounds: (0, FULL_SCALE as int),
            traces: seq![
                TraceModel { tint: Tint::Yellow, marker: Marker::Braille, points: self.main.samples },
                TraceModel { tint: Tint::Blue, marker: Marker::Braille, points: self.swap.samples },
            ],
            captions: seq![
                caption_of(area, MAIN_ROW, "Main"@, self.main, Tint::Yellow),
                caption_of(area, SWAP_ROW, "Swap"@, self.swap, Tint::Blue),
            ],
        }
    }

    /// The invariant of the widget: each series keeps its own invariant, the
    /// two are aligned, and the latest sample was taken at the clock's tick.
    pub open spec fn wf(self) -> bool {
        &&& self.main.wf()
        &&& self.swap.wf()
        &&& self.aligned()
        &&& self.main.latest().tick == self.tick
    }
}

/// Memory and swap utilisation over time.
#[derive(Debug)]
pub struct MemWidget {
    title: String,
    pub update_interval: Ratio<u64>,
    update_count: u64,
    main: MemData,
    swap: MemData,
}

impl View for MemWidget {
    type V = WidgetModel;

    closed spec fn view(&self) -> WidgetModel {
        WidgetModel {
            title: self.title@,
            interval: self.update_interval,
            tick: self.update_count as nat,
            main: self.main@,
            swap: self.swap@,
        }
    }
}

impl MemWidget {
    /// A widget that asks to be updated once per `update_interval` base
    /// ticks of the host's scheduler.
    pub fn new(update_interval: Ratio<u64>) -> (widget: MemWidget)
        ensures
            widget@ == WidgetModel::initial(update_interval),
            widget@.wf(),
    {
        MemWidget {
            title: String::from_str(TITLE),
            update_interval,
            update_count: 1,
            main: MemData::seeded(),
            swap: MemData::seeded(),
        }
    }

    /// Advances the clock by one tick and records one reading per series at
    /// the new tick. What is appended lies within the percentage scale, and
    /// the widget's invariant is kept.
    pub fn update(&mut self, main: Reading, swap: Reading)
        requires
            old(self)@.tick < u64::MAX,
        ensures
            final(self)@ == old(self)@.step(main@, swap@),
            final(self)@.main.latest().percent <= FULL_SCALE,
            final(self)@.swap.latest().percent <= FULL_SCALE,
            old(self)@.wf() ==> final(self)@.wf(),
    {
        self.update_count = self.update_count + 1;
        self.main.record(self.update_count, &main);
        self.swap.record(self.update_count, &swap);
    }

    /// Whether the widget can be drawn into `area`.
    pub fn can_draw(&self, area: Region) -> (yes: bool)
        ensures
            yes == self@.drawable(area),
    {
        area.x <= u16::MAX - CAPTION_COLUMN && area.y <= u16::MAX - SWAP_ROW
            && self.main.used() < SIZE_LIMIT && self.main.total() < SIZE_LIMIT
            && self.swap.used() < SIZE_LIMIT && self.swap.total() < SIZE_LIMIT
    }

    /// Describes the drawing of the widget into `area`. The widget is left
    /// as it is: drawing again without an update in between gives the same.
    pub fn draw(&self, area: Region) -> (frame: Frame<'_>)
        requires
            self@.wf(),
            self@.drawable(area),
        ensures
            frame@ == self@.frame(area),
    {
        let main_trace = Trace {
            tint: Tint::Yellow,
            marker: Marker::Braille,
            samples: self.main.samples(),
        };
        let swap_trace = Trace {
            tint: Tint::Blue,
            marker: Marker::Braille,
            samples: self.swap.samples(),
        };
        let main_caption = lay_caption(area, MAIN_ROW, "Main", &self.main, Tint::Yellow);
        let swap_caption = lay_caption(area, SWAP_ROW, "Swap", &self.swap, Tint::Blue);
        let frame = Frame {
            title: self.title.as_str(),
            x_bounds: window_of(self.update_count),
            y_bounds: (0, FULL_SCALE),
            traces: vec![main_trace, swap_trace],
            captions: vec![main_caption, swap_caption],
        };
        assert(frame@.traces =~= self@.frame(area).traces);
        assert(frame@.captions =~= self@.frame(area).captions);
        frame
    }

    /// The cadence given at construction.
    pub fn get_update_interval(&self) -> (interval: Ratio<u64>)
        ensures
            interval == self@.interval,
    {
        self.update_interval
    }

    /// The logical clock: one more than the number of updates so far.
    pub fn tick(&self) -> (t: u64)
        ensures
            t == self@.tick,
    {
        self.update_count
    }

    /// The series of main memory.
    pub fn main(&self) -> (series: &MemData)
        ensures
            series@ == self@.main,
    {
        &self.main
    }

    /// The series of swap.
    pub fn swap(&self) -> (series: &MemData)
        ensures
            series@ == self@.swap,
    {
        &self.swap
    }
}

} // verus!
