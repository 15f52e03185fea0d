//! A memory-usage telemetry widget: it records utilisation readings of main
//! memory and swap on a logical clock and describes how the recent history is
//! to be charted.

pub mod laws;
pub mod reading;
pub mod render;
pub mod series;
pub mod text;
pub mod widget;

pub use reading::Reading;
pub use render::{Caption, Frame, Marker, Region, Tint, Trace};
pub use series::{MemData, Sample};
pub use widget::MemWidget;
