use embedded_web_ui::{BarData, Command, Input, Log, TimeSeriesData, UIInput, Widget, WidgetKind, CHART_BARS, UI};

fn widget(kind: WidgetKind, label: &str, id: u16) -> Widget {
    Widget { kind, label: label.into(), id }
}

#[test]
fn it_works() {
    // cool
}

#[test]
fn widget_becomes_ui_command() {
    let w = widget(WidgetKind::Button, "LED on", 1);
    let c: Command = w.clone().into();
    assert_eq!(c, Command::UI(UI::Widget(w)));
}

#[test]
fn layout_becomes_ui_command() {
    let w = widget(WidgetKind::Slider, "slidos", 4);
    let via_layout: Command = UI::Widget(w.clone()).into();
    let direct: Command = w.into();
    assert_eq!(via_layout, direct);
    let brk: Command = UI::Break.into();
    assert_eq!(brk, Command::UI(UI::Break));
}

#[test]
fn label_text_round_trips() {
    let w = widget(WidgetKind::BarChart, "a bar chart", 5);
    assert_eq!(w.label_str(), "a bar chart");
}

#[test]
fn message_types_compare_by_value() {
    let a = Command::TimeSeriesData(TimeSeriesData { id: 1, time: 2, val: 3 });
    assert_eq!(a.clone(), a);
    assert_ne!(Input::Click(1), Input::Slider(1, 0));
    assert_ne!(UIInput::Button(2), UIInput::Slider(2, 7));
    let data = [1u8, 2, 3];
    assert_ne!(Log::Elf(&data), Log::Packet(&data));
    let mut vals = heapless::Vec::new();
    vals.push(9u8).unwrap();
    let bars = Command::BarData(BarData { id: 5, vals });
    assert_eq!(bars.clone(), bars);
    assert_eq!(CHART_BARS, 64);
}
