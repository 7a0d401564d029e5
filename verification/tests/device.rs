use embedded_web_ui::device::{
    action_for, bar_data_command, chart_data_from_words, demo_panel, random_chart_data, DeviceAction, BAR_CHART_ROUNDS,
    DEMO_BAR_CHART,
};
use embedded_web_ui::{Command, Input, WidgetKind, UI};
use embedded_web_ui::device::ChartRng;
use rand_core::{RngCore, SeedableRng};

#[test]
fn inputs_and_actions() {
    assert_eq!(action_for(&Input::Click(0)), DeviceAction::ResendPanel);
    assert_eq!(action_for(&Input::Click(1)), DeviceAction::LedPinLow);
    assert_eq!(action_for(&Input::Click(2)), DeviceAction::LedPinHigh);
    assert_eq!(
        action_for(&Input::Click(3)),
        DeviceAction::StreamBarData { chart: 5, rounds: 10 }
    );
    assert_eq!(action_for(&Input::Click(4)), DeviceAction::Ignore);
    assert_eq!(action_for(&Input::Slider(4, 80)), DeviceAction::Ignore);
    assert_eq!(DEMO_BAR_CHART, 5);
    assert_eq!(BAR_CHART_ROUNDS, 10);
}

#[test]
fn chart_words_little_endian() {
    let words = [0x0807060504030201u64, 0, u64::MAX, 0x10, 0, 0, 0, 0xff00000000000000];
    let v = chart_data_from_words(&words);
    assert_eq!(v.len(), 64);
    assert_eq!(&v[..8], &[1, 2, 3, 4, 5, 6, 7, 8]);
    assert_eq!(&v[8..16], &[0; 8]);
    assert_eq!(&v[16..24], &[0xff; 8]);
    assert_eq!(&v[24..32], &[0x10, 0, 0, 0, 0, 0, 0, 0]);
    assert_eq!(v[63], 0xff);
    assert_eq!(v[62], 0);
}

#[test]
fn random_chart_data_matches_wyrng() {
    let seed = [0, 1, 3, 3, 7, 0, 0, 0];
    let mut reference = wyhash::WyRng::from_seed(seed);
    let mut rng = ChartRng::from_seed(seed);
    assert_eq!(rng.state, 0x0000_0007_0303_0100);
    let a = random_chart_data(&mut rng);
    let mut expected = Vec::new();
    for _ in 0..8 {
        expected.extend_from_slice(&reference.next_u64().to_le_bytes());
    }
    assert_eq!(&a[..], &expected[..]);
    let b = random_chart_data(&mut rng);
    assert_ne!(a, b);
    for _ in 0..8 {
        reference.next_u64();
    }
    assert_eq!(rng.next_u64(), reference.next_u64());
}

#[test]
fn first_draw_of_zero_state() {
    let mut rng = ChartRng { state: 0 };
    let mut reference = wyhash::WyRng::seed_from_u64(0);
    assert_eq!(rng.next_u64(), reference.next_u64());
    assert_eq!(rng.state, 0xa076_1d64_78bd_642f);
}

#[test]
fn panel_starts_with_reset() {
    let p = demo_panel();
    assert_eq!(p.len(), 8);
    assert_eq!(p[0], Command::Reset);
    assert_eq!(p[4], Command::UI(UI::Break));
    assert_eq!(p[6], Command::UI(UI::Break));
    let expect = [
        (1, WidgetKind::Button, "LED on", 1u16),
        (2, WidgetKind::Button, "LED off", 2),
        (3, WidgetKind::Button, "give data", 3),
        (5, WidgetKind::Slider, "slidos", 4),
        (7, WidgetKind::BarChart, "a bar chart", 5),
    ];
    for (i, kind, label, id) in expect {
        match &p[i] {
            Command::UI(UI::Widget(w)) => {
                assert_eq!(w.kind, kind);
                assert_eq!(w.label.as_str(), label);
                assert_eq!(w.id, id);
            }
            _ => panic!("expected a widget at {i}"),
        }
    }
}

#[test]
fn bar_data_update() {
    let vals = chart_data_from_words(&[1, 2, 3, 4, 5, 6, 7, 8]);
    match bar_data_command(DEMO_BAR_CHART, vals.clone()) {
        Command::BarData(d) => {
            assert_eq!(d.id, 5);
            assert_eq!(d.vals, vals);
        }
        _ => panic!("expected bar data"),
    }
}

#[test]
fn dev_server_panel_layout() {
    let p = embedded_web_ui::device::dev_server_panel();
    assert_eq!(p.len(), 8);
    assert_eq!(p[0], Command::Reset);
    for i in [2, 4, 6] {
        assert_eq!(p[i], Command::UI(UI::Break));
    }
    let expect = [
        (1, WidgetKind::Button, "oh,aye", 1u16),
        (3, WidgetKind::Slider, "slidos", 2),
        (5, WidgetKind::BarChart, "a bar chart", 3),
        (7, WidgetKind::BarChart, "another bar chart", 4),
    ];
    for (i, kind, label, id) in expect {
        match &p[i] {
            Command::UI(UI::Widget(w)) => {
                assert_eq!((w.kind, w.label.as_str(), w.id), (kind, label, id));
            }
            _ => panic!("expected a widget at {i}"),
        }
    }
}
