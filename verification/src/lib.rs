//! Wire types and the verified logic of a remote web UI for embedded devices:
//! the messages a device and a browser exchange, how they are framed on a
//! serial line, and the decisions the device, the bridge and the browser make.

pub mod bounded;
pub mod bridge;
pub mod dashboard;
pub mod device;
pub mod framing;
pub mod logs;
pub mod protocol;

pub use bounded::CHART_BARS;
pub use protocol::{
    BarData, ChartTime, ChartVal, Command, Id, Input, Log, SliderVal, TimeSeriesData, UIInput, Widget, WidgetKind, UI,
};
