//! What holds of the widget over any sequence of updates.

use vstd::prelude::*;
use num_rational::Ratio;
use crate::reading::{ReadingModel, FULL_SCALE};
use crate::render::{window, FrameModel, Region};
use crate::series::{lemma_record_keeps_wf, sentinel, Point};
use crate::widget::WidgetModel;

verus! {

/// Every reading of `readings`, for main memory or for swap, lies within the
/// percentage scale.
pub open spec fn all_in_scale(readings: Seq<(ReadingModel, ReadingModel)>) -> bool {
    forall|k: int|
        0 <= k < readings.len() ==> (#[trigger] readings[k]).0.in_scale() && readings[k].1.in_scale()
}

/// A freshly constructed widget meets its invariant.
pub proof fn initial_is_wf(interval: Ratio<u64>)
    ensures
        WidgetModel::initial(interval).wf(),
{
}

/// An update with readings within the scale keeps the widget's invariant.
pub proof fn step_keeps_wf(widget: WidgetModel, main: ReadingModel, swap: ReadingModel)
    requires
        widget.wf(),
        main.in_scale(),
        swap.in_scale(),
    ensures
        widget.step(main, swap).wf(),
{
    let tick = widget.tick + 1;
    lemma_record_keeps_wf(widget.main, tick, main);
    lemma_record_keeps_wf(widget.swap, tick, swap);
}

/// After any number of updates, each series holds one sample more per
/// update, the clock has advanced by one per update, and title and cadence
/// are what they were.
pub proof fn updates_are_counted(widget: WidgetModel, readings: Seq<(ReadingModel, ReadingModel)>)
    ensures
        widget.run(readings).main.samples.len() == widget.main.samples.len() + readings.len(),
        widget.run(readings).swap.samples.len() == widget.swap.samples.len() + readings.len(),
        widget.run(readings).tick == widget.tick + readings.len(),
        widget.run(readings).interval == widget.interval,
        widget.run(readings).title == widget.title,
    decreases readings.len(),
{
    if readings.len() > 0 {
        updates_are_counted(widget, readings.drop_last());
    }
}

/// After N updates of a fresh widget, each series holds N + 1 samples (the
/// sentinel and one per update) and the clock stands at 1 + N.
pub proof fn history_length_after_updates(
    interval: Ratio<u64>,
    readings: Seq<(ReadingModel, ReadingModel)>,
)
    ensures
        WidgetModel::initial(interval).run(readings).main.samples.len() == readings.len() + 1,
        WidgetModel::initial(interval).run(readings).swap.samples.len() == readings.len() + 1,
        WidgetModel::initial(interval).run(readings).tick == 1 + readings.len(),
{
    updates_are_counted(WidgetModel::initial(interval), readings);
}

/// The cadence of a widget is the one it was constructed with, whatever
/// updates followed.
pub proof fn interval_is_fixed(interval: Ratio<u64>, readings: Seq<(ReadingModel, ReadingModel)>)
    ensures
        WidgetModel::initial(interval).run(readings).interval == interval,
{
    updates_are_counted(WidgetModel::initial(interval), readings);
}

/// Updates with readings within the scale keep the widget's invariant.
pub proof fn run_keeps_wf(widget: WidgetModel, readings: Seq<(ReadingModel, ReadingModel)>)
    requires
        widget.wf(),
        all_in_scale(readings),
    ensures
        widget.run(readings).wf(),
    decreases readings.len(),
{
    if readings.len() > 0 {
        let earlier = readings.drop_last();
        assert forall|k: int| 0 <= k < earlier.len() implies (#[trigger] earlier[k]).0.in_scale()
            && earlier[k].1.in_scale() by {
            assert(earlier[k] == readings[k]);
        }
        run_keeps_wf(widget, earlier);
        step_keeps_wf(widget.run(earlier), readings.last().0, readings.last().1);
    }
}

/// The history of a fresh widget after any updates, sample by sample: the
/// sentinel first, then for the k-th update a sample at tick k + 1 with the
/// percentage of that update's reading.
pub proof fn history_after_updates(
    interval: Ratio<u64>,
    readings: Seq<(ReadingModel, ReadingModel)>,
)
    ensures
        WidgetModel::initial(interval).run(readings).main.samples.len() == readings.len() + 1,
        WidgetModel::initial(interval).run(readings).swap.samples.len() == readings.len() + 1,
        WidgetModel::initial(interval).run(readings).main.samples[0] == sentinel(),
        WidgetModel::initial(interval).run(readings).swap.samples[0] == sentinel(),
        forall|k: int|
            0 <= k < readings.len() ==> #[trigger] WidgetModel::initial(interval).run(
                readings,
            ).main.samples[k + 1] == (Point { tick: (k + 2) as nat, percent: readings[k].0.percent }),
        forall|k: int|
            0 <= k < readings.len() ==> #[trigger] WidgetModel::initial(interval).run(
                readings,
            ).swap.samples[k + 1] == (Point { tick: (k + 2) as nat, percent: readings[k].1.percent }),
    decreases readings.len(),
{
    let start = WidgetModel::initial(interval);
    if readings.len() > 0 {
        let earlier = readings.drop_last();
        let before = start.run(earlier);
        let after = start.run(readings);
        history_after_updates(interval, earlier);
        updates_are_counted(start, earlier);
        assert forall|k: int| 0 <= k < readings.len() implies #[trigger] after.main.samples[k + 1]
            == (Point { tick: (k + 2) as nat, percent: readings[k].0.percent }) by {
            if k < earlier.len() {
                assert(after.main.samples[k + 1] == before.main.samples[k + 1]);
                assert(earlier[k] == readings[k]);
            }
        }
        assert forall|k: int| 0 <= k < readings.len() implies #[trigger] after.swap.samples[k + 1]
            == (Point { tick: (k + 2) as nat, percent: readings[k].1.percent }) by {
            if k < earlier.len() {
                assert(after.swap.samples[k + 1] == before.swap.samples[k + 1]);
                assert(earlier[k] == readings[k]);
            }
        }
    }
}

/// Whatever was appended to a fresh widget from readings within the scale
/// lies between 0 % and 100 %.
pub proof fn percentages_stay_in_scale(
    interval: Ratio<u64>,
    readings: Seq<(ReadingModel, ReadingModel)>,
)
    requires
        all_in_scale(readings),
    ensures
        forall|i: int|
            0 <= i <= readings.len() ==> 0 <= #[trigger] WidgetModel::initial(interval).run(
                readings,
            ).main.samples[i].percent <= FULL_SCALE,
        forall|i: int|
            0 <= i <= readings.len() ==> 0 <= #[trigger] WidgetModel::initial(interval).run(
                readings,
            ).swap.samples[i].percent <= FULL_SCALE,
{
    initial_is_wf(interval);
    run_keeps_wf(WidgetModel::initial(interval), readings);
    updates_are_counted(WidgetModel::initial(interval), readings);
}

/// After any updates of a fresh widget the two series are equally long and
/// hold, at every index i, the tick i + 1.
pub proof fn series_stay_aligned(interval: Ratio<u64>, readings: Seq<(ReadingModel, ReadingModel)>)
    ensures
        WidgetModel::initial(interval).run(readings).aligned(),
        forall|i: int|
            0 <= i <= readings.len() ==> #[trigger] WidgetModel::initial(interval).run(
                readings,
            ).main.samples[i].tick == i + 1,
        forall|i: int|
            0 <= i <= readings.len() ==> #[trigger] WidgetModel::initial(interval).run(
                readings,
            ).swap.samples[i].tick == i + 1,
{
    let after = WidgetModel::initial(interval).run(readings);
    history_after_updates(interval, readings);
    assert forall|i: int| 0 <= i <= readings.len() implies #[trigger] after.main.samples[i].tick
        == i + 1 by {
        if i > 0 {
            assert(after.main.samples[(i - 1) + 1].tick == i + 1);
        }
    }
    assert forall|i: int| 0 <= i <= readings.len() implies #[trigger] after.swap.samples[i].tick
        == i + 1 by {
        if i > 0 {
            assert(after.swap.samples[(i - 1) + 1].tick == i + 1);
        }
    }
}

/// Two drawings of one widget into one region, with no update in between,
/// are the same.
pub proof fn drawing_is_repeatable(
    widget: WidgetModel,
    area: Region,
    first: FrameModel,
    second: FrameModel,
)
    requires
        first == widget.frame(area),
        second == widget.frame(area),
    ensures
        first == second,
{
}

/// However long the history has grown, a drawing shows a window of exactly
/// 101 ticks, which ends one tick after the clock's.
pub proof fn drawing_shows_fixed_window(
    interval: Ratio<u64>,
    readings: Seq<(ReadingModel, ReadingModel)>,
    area: Region,
)
    ensures
        ({
            let frame = WidgetModel::initial(interval).run(readings).frame(area);
            &&& frame.x_bounds == window(1 + readings.len())
            &&& frame.x_bounds.1 - frame.x_bounds.0 == 101
            &&& frame.x_bounds.1 == readings.len() + 2
        }),
{
    updates_are_counted(WidgetModel::initial(interval), readings);
}

} // verus!
