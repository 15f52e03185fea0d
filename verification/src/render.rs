//! What a drawing of the widget consists of: the chart's axes and traces,
//! and the captions laid over it.

use vstd::prelude::*;
use crate::series::{points_of, MemData, Point, Sample, SeriesModel};
use crate::text::{caption, caption_text};

verus! {

/// How many ticks before the clock's the chart reaches back.
pub const WINDOW_BEHIND: u64 = 100;

/// How many ticks after the clock's the chart reaches ahead.
pub const WINDOW_AHEAD: u64 = 1;

/// Column of the captions, counted from the left edge of the region.
pub const CAPTION_COLUMN: u16 = 3;

/// Row of the caption of main memory, counted from the top of the region.
pub const MAIN_ROW: u16 = 2;

/// Row of the caption of swap, counted from the top of the region.
pub const SWAP_ROW: u16 = 3;

/// One more than the largest byte count that can be rendered: 2^64 - 1024.
pub const SIZE_LIMIT: u64 = 18446744073709550592;

/// The colour that tells one series from the other.
#[derive(Clone, Copy, Debug, PartialEq, Eq, Structural)]
pub enum Tint {
    Yellow,
    Blue,
}

/// The mark that a trace puts at each of its points.
#[derive(Clone, Copy, Debug, PartialEq, Eq, Structural)]
pub enum Marker {
    Dot,
    Braille,
}

/// A rectangle of character cells on the output surface.
#[derive(Clone, Copy, Debug, PartialEq, Eq, Structural)]
pub struct Region {
    pub x: u16,
    pub y: u16,
    pub width: u16,
    pub height: u16,
}

/// A line of text at an absolute cell of the output surface.
#[derive(Debug, PartialEq, Eq)]
pub struct Caption {
    pub x: u16,
    pub y: u16,
    pub text: String,
    pub tint: Tint,
}

/// A caption as plain values.
pub struct CaptionModel {
    pub x: int,
    pub y: int,
    pub text: Seq<char>,
    pub tint: Tint,
}

impl View for Caption {
    type V = CaptionModel;

    open spec fn view(&self) -> CaptionModel {
        CaptionModel { x: self.x as int, y: self.y as int, text: self.text@, tint: self.tint }
    }
}

/// One series as the chart is to plot it.
#[derive(Debug, PartialEq, Eq)]
pub struct Trace<'a> {
    pub tint: Tint,
    pub marker: Marker,
    pub samples: &'a Vec<Sample>,
}

/// A trace as plain values.
pub struct TraceModel {
    pub tint: Tint,
    pub marker: Marker,
    pub points: Seq<Point>,
}

impl<'a> View for Trace<'a> {
    type V = TraceModel;

    open spec fn view(&self) -> TraceModel {
        TraceModel { tint: self.tint, marker: self.marker, points: points_of(self.samples@) }
    }
}

/// A drawing of the widget: a titled chart with fixed axes, its traces in
/// the order in which they are to be plotted, and the captions over it.
///
/// The horizontal axis counts ticks, the vertical one hundredths of a
/// percent.
#[derive(Debug, PartialEq, Eq)]
pub struct Frame<'a> {
    pub title: &'a str,
    pub x_bounds: (i128, i128),
    pub y_bounds: (u16, u16),
    pub traces: Vec<Trace<'a>>,
    pub captions: Vec<Caption>,
}

/// A drawing as plain values.
pub struct FrameModel {
    pub title: Seq<char>,
    pub x_bounds: (int, int),
    pub y_bounds: (int, int),
    pub traces: Seq<TraceModel>,
    pub captions: Seq<CaptionModel>,
}

impl<'a> View for Frame<'a> {
    type V = FrameModel;

    open spec fn view(&self) -> FrameModel {
        FrameModel {
            title: self.title@,
            x_bounds: (self.x_bounds.0 as int, self.x_bounds.1 as int),
            y_bounds: (self.y_bounds.0 as int, self.y_bounds.1 as int),
            traces: Seq::new(self.traces@.len(), |i: int| self.traces@[i]@),
            captions: Seq::new(self.captions@.len(), |i: int| self.captions@[i]@),
        }
    }
}

/// The ticks that the chart shows when the clock stands at `tick`: from 100
/// before it to 1 after it.
pub open spec fn window(tick: nat) -> (int, int) {
    (tick - WINDOW_BEHIND, tick + WINDOW_AHEAD)
}

/// The window is 101 ticks wide, wherever the clock stands.
pub proof fn window_width(tick: nat)
    ensures
        window(tick).1 - window(tick).0 == 101,
        window(tick).0 < tick < window(tick).1,
{
}

/// The bounds of the horizontal axis when the clock stands at `tick`.
pub fn window_of(tick: u64) -> (bounds: (i128, i128))
    ensures
        (bounds.0 as int, bounds.1 as int) == window(tick as nat),
        bounds.1 - bounds.0 == 101,
{
    let at: i128 = tick as i128;
    (at - WINDOW_BEHIND as i128, at + WINDOW_AHEAD as i128)
}

/// What `size::Size::Bytes(bytes)` displays as: the byte count in the
/// largest binary unit that it fills, such as `512 bytes` or `1.50 KiB`.
pub uninterp spec fn size_display(bytes: nat) -> Seq<char>;

/// Renders a byte count through the `Display` impl of `size::Size`, on
/// `Size::Bytes(bytes)`.
///
/// The contract claims only that the text depends on nothing but the count.
/// `Size` takes the count through a float and back and panics where the
/// float is 2^64, which is what counts from [`SIZE_LIMIT`] on round to: they
/// are left out.
#[verifier::external_body]
fn size_text(bytes: u64) -> (text: String)
    requires
        bytes < SIZE_LIMIT,
    ensures
        text@ == size_display(bytes as nat),
{
    format!("{}", size::Size::Bytes(bytes))
}

/// Whether the captions of a drawing into `area` have a place: their column
/// and rows exist on the surface.
pub open spec fn captions_fit(area: Region) -> bool {
    &&& area.x + CAPTION_COLUMN <= u16::MAX
    &&& area.y + MAIN_ROW <= u16::MAX
    &&& area.y + SWAP_ROW <= u16::MAX
}

/// Whether the totals of `series` can be rendered.
pub open spec fn renderable(series: SeriesModel) -> bool {
    series.used < SIZE_LIMIT && series.total < SIZE_LIMIT
}

/// The caption of `series` in a drawing into `area`: at the captions'
/// column and at `row`, with the latest percentage and the current totals.
pub open spec fn caption_of(
    area: Region,
    row: u16,
    label: Seq<char>,
    series: SeriesModel,
    tint: Tint,
) -> CaptionModel {
    CaptionModel {
        x: area.x + CAPTION_COLUMN,
        y: area.y + row,
        text: caption_text(
            label,
            series.latest().percent,
            size_display(series.used),
            size_display(series.total),
        ),
        tint,
    }
}

/// Lays the caption of `series` into `area` at `row`.
pub fn lay_caption(area: Region, row: u16, label: &str, series: &MemData, tint: Tint) -> (line:
    Caption)
    requires
        series@.samples.len() > 0,
        renderable(series@),
        area.x + CAPTION_COLUMN <= u16::MAX,
        area.y + row <= u16::MAX,
    ensures
        line@ == caption_of(area, row, label@, series@, tint),
{
    let used = size_text(series.used());
    let total = size_text(series.total());
    let text = caption(label, series.latest().percent, used.as_str(), total.as_str());
    Caption { x: area.x + CAPTION_COLUMN, y: area.y + row, text, tint }
}

} // verus!
