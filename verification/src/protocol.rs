//! The messages exchanged between a device and the browser: commands that
//! describe and feed the UI, and the inputs the user sends back.
use crate::bounded::{label_as_str, label_bytes, CHART_BARS};
use vstd::string::StringSliceAdditionalSpecFns;
use vstd::prelude::*;

verus! {

/// Identifies a widget, and the chart or control it shows.
pub type Id = u16;

/// Time stamp of a time-series sample.
pub type ChartTime = u16;

/// One value of a chart.
pub type ChartVal = u8;

/// Position of a slider.
pub type SliderVal = u8;

/// A chunk of log data for the browser's log decoder.
#[derive(Clone, PartialEq, Eq, Debug, Hash)]
pub enum Log<'a> {
    /// The firmware image whose tables decode later packets.
    Elf(&'a [u8]),
    /// Encoded log frames.
    Packet(&'a [u8]),
}

/// A message from the device to the browser. A UI description starts with
/// `Reset`.
#[derive(Clone, PartialEq, Eq, Debug, Hash)]
pub enum Command<'a> {
    Log(Log<'a>),
    Reset,
    UI(UI),
    TimeSeriesData(TimeSeriesData),
    BarData(BarData),
}

/// A user interaction, sent from the browser to the device.
#[derive(Clone, PartialEq, Eq, Debug, Hash, Structural)]
pub enum Input {
    Click(Id),
    Slider(Id, SliderVal),
}

/// One element of the UI layout.
#[derive(Clone, PartialEq, Eq, Debug, Hash)]
pub enum UI {
    Widget(Widget),
    /// Starts a new row.
    Break,
}

/// One sample of a time series.
#[derive(Clone, PartialEq, Eq, Debug, Hash, Structural)]
pub struct TimeSeriesData {
    pub id: Id,
    pub time: ChartTime,
    pub val: ChartVal,
}

/// The full set of bar values of a bar chart.
#[derive(Clone, PartialEq, Eq, Debug, Hash)]
pub struct BarData {
    pub id: Id,
    pub vals: heapless::Vec<ChartVal, CHART_BARS>,
}

/// A user interaction, by the kind of control.
#[derive(Clone, PartialEq, Eq, Debug, Hash, Structural)]
pub enum UIInput {
    Button(Id),
    Slider(Id, SliderVal),
}

/// A control or a chart, with its label and identifier.
#[derive(Clone, PartialEq, Eq, Debug, Hash)]
pub struct Widget {
    pub kind: WidgetKind,
    pub label: heapless::String<32>,
    pub id: Id,
}

/// The kinds of widget the browser can show.
#[derive(Clone, Copy, PartialEq, Eq, Debug, Hash, Structural)]
pub enum WidgetKind {
    TimeSeriesChart,
    BarChart,
    Button,
    Slider,
}

impl Widget {
    /// The label, as text.
    pub fn label_str(&self) -> (s: &str)
        ensures
            s.spec_bytes() == label_bytes(self.label),
    {
        label_as_str(&self.label)
    }
}

impl<'a> From<Widget> for Command<'a> {
    fn from(value: Widget) -> (r: Self) {
        Command::UI(UI::Widget(value))
    }
}

impl<'a> vstd::std_specs::convert::FromSpecImpl<Widget> for Command<'a> {
    open spec fn obeys_from_spec() -> bool {
        true
    }

    open spec fn from_spec(v: Widget) -> Self {
        Command::UI(UI::Widget(v))
    }
}

impl<'a> From<UI> for Command<'a> {
    fn from(value: UI) -> (r: Self) {
        match value {
            UI::Widget(w) => Command::from(w),
            UI::Break => Command::UI(UI::Break),
        }
    }
}

impl<'a> vstd::std_specs::convert::FromSpecImpl<UI> for Command<'a> {
    open spec fn obeys_from_spec() -> bool {
        true
    }

    open spec fn from_spec(v: UI) -> Self {
        Command::UI(v)
    }
}

/// Turning a widget into a command wraps it unchanged, kind, label and id
/// alike; turning a layout element into a command wraps it unchanged.
pub proof fn lemma_conversions_wrap_unchanged(w: Widget, ui: UI)
    ensures
        <Command<'static> as vstd::std_specs::convert::FromSpec<Widget>>::from_spec(w) == Command::UI::<'static>(UI::Widget(w)),
        <Command<'static> as vstd::std_specs::convert::FromSpec<UI>>::from_spec(ui) == Command::UI::<'static>(ui),
        <Command<'static> as vstd::std_specs::convert::FromSpec<Widget>>::from_spec(w) matches Command::UI(UI::Widget(x))
            && x.kind == w.kind && x.id == w.id && x.label == w.label,
{
}

/// Turning a widget into a command gives the same command whether it is
/// converted directly or first placed in the layout.
pub proof fn lemma_widget_command_via_layout(w: Widget)
    ensures
        <Command<'static> as vstd::std_specs::convert::FromSpec<UI>>::from_spec(UI::Widget(w))
            == <Command<'static> as vstd::std_specs::convert::FromSpec<Widget>>::from_spec(w),
{
}

} // verus!
