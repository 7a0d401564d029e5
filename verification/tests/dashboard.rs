use embedded_web_ui::dashboard::{click_input, view_for, view_layout, Dashboard, DashboardEffect, ViewItem, REFRESH_BUTTON};
use embedded_web_ui::device::{action_for, DeviceAction};
use embedded_web_ui::{BarData, Command, Input, Log, Widget, WidgetKind, UI};

fn bars(id: u16, vals: &[u8]) -> BarData {
    BarData { id, vals: heapless::Vec::from_slice(vals).unwrap() }
}

#[test]
fn fresh_dashboard_shows_refresh_button() {
    let d = Dashboard::new();
    assert_eq!(d.items.len(), 1);
    match &d.items[0] {
        UI::Widget(w) => {
            assert_eq!(w.kind, WidgetKind::Button);
            assert_eq!(w.id, REFRESH_BUTTON);
            assert_eq!(w.label.as_str(), "plz refresh");
        }
        UI::Break => panic!("expected the refresh button"),
    }
    assert!(d.charts.is_empty());
}

#[test]
fn reset_clears_layout_and_charts() {
    let mut d = Dashboard::new();
    d.handle(Command::BarData(bars(3, &[1])));
    let effects = d.handle(Command::Reset);
    assert!(effects.is_empty());
    assert!(d.items.is_empty());
    assert!(d.charts.is_empty());
}

#[test]
fn chart_set_up_once() {
    let mut d = Dashboard::new();
    let first = d.handle(Command::BarData(bars(5, &[1, 2, 3])));
    assert_eq!(first, vec![DashboardEffect::InitChart(5), DashboardEffect::UpdateChart(5, vec![1, 2, 3])]);
    let second = d.handle(Command::BarData(bars(5, &[4])));
    assert_eq!(second, vec![DashboardEffect::UpdateChart(5, vec![4])]);
    assert!(d.charts.contains(&5));
    d.handle(Command::Reset);
    let third = d.handle(Command::BarData(bars(5, &[])));
    assert_eq!(third, vec![DashboardEffect::InitChart(5), DashboardEffect::UpdateChart(5, vec![])]);
}

#[test]
fn ui_is_queued_then_pushed() {
    let mut d = Dashboard::new();
    d.handle(Command::Reset);
    let w = Widget { kind: WidgetKind::Slider, label: "slidos".into(), id: 4 };
    let effects = d.handle(Command::UI(UI::Widget(w.clone())));
    assert_eq!(effects, vec![DashboardEffect::ShowUi(UI::Widget(w.clone()))]);
    assert!(d.items.is_empty());
    d.push_item(UI::Widget(w.clone()));
    d.push_item(UI::Break);
    assert_eq!(d.items, vec![UI::Widget(w), UI::Break]);
}

#[test]
fn log_goes_to_decoder() {
    let mut d = Dashboard::new();
    let chunk = [1u8, 2, 3];
    let effects = d.handle(Command::Log(Log::Packet(&chunk)));
    assert_eq!(effects, vec![DashboardEffect::HandleLog(Log::Packet(&chunk))]);
    assert_eq!(d.items.len(), 1);
}

#[test]
fn views_of_widgets() {
    let mk = |kind, id| UI::Widget(Widget { kind, label: "x".into(), id });
    let ts = view_for(&mk(WidgetKind::TimeSeriesChart, 1));
    assert_eq!((ts.item, ts.label), (ViewItem::TimeSeriesPlaceholder, None));
    let bc = view_for(&mk(WidgetKind::BarChart, 2));
    assert_eq!((bc.item, bc.label), (ViewItem::BarChart { id: 2 }, Some(b"x".to_vec())));
    let bt = view_for(&mk(WidgetKind::Button, 3));
    assert_eq!((bt.item, bt.label), (ViewItem::Button { id: 3, click: Input::Click(3) }, Some(b"x".to_vec())));
    let sl = view_for(&mk(WidgetKind::Slider, 4));
    assert_eq!((sl.item, sl.label), (ViewItem::Slider { id: 4 }, Some(b"x".to_vec())));
    let br = view_for(&UI::Break);
    assert_eq!((br.item, br.label), (ViewItem::LineBreak, None));
    assert_eq!(click_input(9), Input::Click(9));
    let layout = vec![UI::Widget(Widget { kind: WidgetKind::Button, label: "LED on".into(), id: 1 }), UI::Break];
    let drawn = view_layout(&layout);
    assert_eq!(drawn.len(), 2);
    assert_eq!(drawn[0].item, ViewItem::Button { id: 1, click: Input::Click(1) });
    assert_eq!(drawn[0].label, Some(b"LED on".to_vec()));
    assert_eq!(drawn[1].item, ViewItem::LineBreak);
}

#[test]
fn refresh_button_resends_panel() {
    let d = Dashboard::new();
    match view_for(&d.items[0]).item {
        ViewItem::Button { click, .. } => assert_eq!(action_for(&click), DeviceAction::ResendPanel),
        other => panic!("unexpected view {other:?}"),
    }
}

#[test]
fn panel_rebuilds_layout() {
    let mut d = Dashboard::new();
    let panel = embedded_web_ui::device::demo_panel();
    let expected: Vec<UI> = panel
        .iter()
        .filter_map(|c| match c {
            Command::UI(ui) => Some(ui.clone()),
            _ => None,
        })
        .collect();
    for command in panel {
        for effect in d.handle(command) {
            match effect {
                DashboardEffect::ShowUi(ui) => d.push_item(ui),
                other => panic!("unexpected effect {other:?}"),
            }
        }
    }
    assert_eq!(d.items, expected);
    assert_eq!(d.items.len(), 7);
}

#[test]
fn panel_replaces_charts() {
    let mut d = Dashboard::new();
    d.handle(Command::BarData(bars(1, &[1])));
    d.handle(Command::BarData(bars(2, &[2])));
    for c in [Command::Reset, Command::BarData(bars(2, &[3])), Command::UI(UI::Break), Command::BarData(bars(7, &[4]))] {
        d.handle(c);
    }
    let mut ids: Vec<u16> = d.charts.iter().copied().collect();
    ids.sort();
    assert_eq!(ids, vec![2, 7]);
}
