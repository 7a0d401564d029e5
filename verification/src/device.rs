//! What the device does: the panel it describes, how it answers each input,
//! and the chart data it sends.
use crate::bounded::{bar_values, bar_values_new, bar_values_push, label_bytes, label_from_str, CHART_BARS};
use crate::protocol::{BarData, Command, Id, Input, Widget, WidgetKind, UI};
use vstd::prelude::*;
use vstd::string::StringSliceAdditionalSpecFns;

verus! {

/// What the wyrng generator adds to its state at each draw.
pub const WYRNG_INCREMENT: u64 = 0xa076_1d64_78bd_642f;

/// What the wyrng generator mixes into its state to make a draw.
pub const WYRNG_MIX: u64 = 0xe703_7ed1_a0b4_28db;

/// The generator's state after one draw: the increment added, wrapping.
pub open spec fn wyrng_advance(s: u64) -> u64 {
    ((s + WYRNG_INCREMENT) % 0x1_0000_0000_0000_0000) as u64
}

/// The word drawn from state `s`: the 128-bit product of the advanced state
/// and the advanced state mixed with `WYRNG_MIX`, folded to 64 bits by an
/// exclusive or of its halves.
pub open spec fn wyrng_output(s: u64) -> u64 {
    let n = wyrng_advance(s);
    let p = ((n ^ WYRNG_MIX) as u128 * n as u128) as u128;
    ((p >> 64u128) ^ p) as u64
}

/// `wyhash::wyrng`: draws the next word from the generator state `state`
/// and advances the state.
#[verifier::external_body]
fn wyrng_draw(state: &mut u64) -> (r: u64)
    ensures
        *final(state) == wyrng_advance(*old(state)),
        r == wyrng_output(*old(state)),
{
    wyhash::wyrng(state)
}

/// The words drawn `n` times in a row from state `s`.
pub open spec fn wyrng_draws(s: u64, n: nat) -> Seq<u64>
    decreases n,
{
    if n == 0 {
        Seq::empty()
    } else {
        wyrng_draws(s, (n - 1) as nat).push(wyrng_output(wyrng_advance_n(s, (n - 1) as nat)))
    }
}

/// The state after `n` draws from state `s`.
pub open spec fn wyrng_advance_n(s: u64, n: nat) -> u64
    decreases n,
{
    if n == 0 {
        s
    } else {
        wyrng_advance(wyrng_advance_n(s, (n - 1) as nat))
    }
}

/// The state of the wyrng generator the device draws chart values from, as
/// `wyhash::WyRng` holds it.
pub struct ChartRng {
    pub state: u64,
}

impl ChartRng {
    /// A generator seeded with eight bytes, read least significant byte
    /// first, as `WyRng::from_seed` reads them.
    pub fn from_seed(seed: [u8; 8]) -> (r: ChartRng)
        ensures
            r.state == (seed@[0] as u64) | ((seed@[1] as u64) << 8u64) | ((seed@[2] as u64) << 16u64)
                | ((seed@[3] as u64) << 24u64) | ((seed@[4] as u64) << 32u64) | ((seed@[5] as u64) << 40u64)
                | ((seed@[6] as u64) << 48u64) | ((seed@[7] as u64) << 56u64),
    {
        let state = (seed[0] as u64) | ((seed[1] as u64) << 8u64) | ((seed[2] as u64) << 16u64)
            | ((seed[3] as u64) << 24u64) | ((seed[4] as u64) << 32u64) | ((seed[5] as u64) << 40u64)
            | ((seed[6] as u64) << 48u64) | ((seed[7] as u64) << 56u64);
        ChartRng { state }
    }

    /// Draws the next word.
    pub fn next_u64(&mut self) -> (r: u64)
        ensures
            r == wyrng_output(old(self).state),
            final(self).state == wyrng_advance(old(self).state),
    {
        wyrng_draw(&mut self.state)
    }
}

/// The bar chart the device fills with random data.
pub const DEMO_BAR_CHART: Id = 5;

/// How many rounds of random bar data one request gets.
pub const BAR_CHART_ROUNDS: u8 = 10;

/// What the device does when it receives an input.
#[derive(Clone, Copy, PartialEq, Eq, Debug, Structural)]
pub enum DeviceAction {
    /// Send the whole panel again (the browser's refresh button, id 0).
    ResendPanel,
    /// Drive the LED pin low, which lights the active-low LED.
    LedPinLow,
    /// Drive the LED pin high, which turns the LED off.
    LedPinHigh,
    /// Send `rounds` rounds of random values to bar chart `chart`.
    StreamBarData { chart: Id, rounds: u8 },
    /// Nothing to do.
    Ignore,
}

/// The device's answer to each user input: buttons 0 to 3 have a meaning,
/// everything else is ignored.
pub open spec fn device_action(input: Input) -> DeviceAction {
    match input {
        Input::Click(0) => DeviceAction::ResendPanel,
        Input::Click(1) => DeviceAction::LedPinLow,
        Input::Click(2) => DeviceAction::LedPinHigh,
        Input::Click(3) => DeviceAction::StreamBarData { chart: DEMO_BAR_CHART, rounds: BAR_CHART_ROUNDS },
        _ => DeviceAction::Ignore,
    }
}

/// A slider change, whatever the slider and its value, makes the device do
/// nothing; so does a click on any button but the four it knows (0 to 3),
/// and each of those four has its own answer.
pub proof fn lemma_only_known_buttons_act(id: Id, v: u8)
    ensures
        device_action(Input::Slider(id, v)) == DeviceAction::Ignore,
        id > 3 ==> device_action(Input::Click(id)) == DeviceAction::Ignore,
        device_action(Input::Click(0)) == DeviceAction::ResendPanel,
        device_action(Input::Click(1)) == DeviceAction::LedPinLow,
        device_action(Input::Click(2)) == DeviceAction::LedPinHigh,
        device_action(Input::Click(3)) == (DeviceAction::StreamBarData { chart: 5, rounds: 10 }),
{
}

/// The device's answer to a user input.
pub fn action_for(input: &Input) -> (a: DeviceAction)
    ensures
        a == device_action(*input),
        (*input is Slider) ==> a == DeviceAction::Ignore,
        *input matches Input::Click(id) ==> (id > 3 ==> a == DeviceAction::Ignore),
{
    match input {
        Input::Click(0) => DeviceAction::ResendPanel,
        Input::Click(1) => DeviceAction::LedPinLow,
        Input::Click(2) => DeviceAction::LedPinHigh,
        Input::Click(3) => DeviceAction::StreamBarData { chart: DEMO_BAR_CHART, rounds: BAR_CHART_ROUNDS },
        Input::Slider(_, _) => DeviceAction::Ignore,
        _ => DeviceAction::Ignore,
    }
}

/// Byte `i` of words laid out one after the other, each least significant
/// byte first.
pub open spec fn le_byte(words: Seq<u64>, i: int) -> u8 {
    ((words[i / 8] >> (8 * (i % 8)) as u64) & 0xff) as u8
}

/// The bytes of `words`, each word least significant byte first.
pub open spec fn le_bytes(words: Seq<u64>) -> Seq<u8> {
    Seq::new(8 * words.len(), |i: int| le_byte(words, i))
}

/// Bar values made of eight words, each laid out least significant byte
/// first.
pub fn chart_data_from_words(words: &[u64]) -> (v: heapless::Vec<u8, 64>)
    requires
        words@.len() == CHART_BARS / 8,
    ensures
        bar_values(v) == le_bytes(words@),
{
    let mut v = bar_values_new();
    let mut w: usize = 0;
    while w < 8
        invariant
            words@.len() == 8,
            w <= 8,
            bar_values(v).len() == 8 * w,
            forall|i: int| 0 <= i < 8 * w ==> #[trigger] bar_values(v)[i] == le_byte(words@, i),
        decreases 8 - w,
    {
        let word = words[w];
        let mut k: usize = 0;
        while k < 8
            invariant
                words@.len() == 8,
                w < 8,
                k <= 8,
                word == words@[w as int],
                bar_values(v).len() == 8 * w + k,
                forall|i: int| 0 <= i < 8 * w + k ==> #[trigger] bar_values(v)[i] == le_byte(words@, i),
            decreases 8 - k,
        {
            let b = ((word >> (8 * k as u64)) & 0xff) as u8;
            let ghost idx = 8 * w + k;
            assert(idx / 8 == w && idx % 8 == k) by (nonlinear_arith)
                requires
                    idx == 8 * w + k,
                    k < 8,
            ;
            let _ = bar_values_push(&mut v, b);
            k = k + 1;
        }
        w = w + 1;
    }
    assert(bar_values(v) =~= le_bytes(words@));
    v
}

/// Random bar values: the next eight words drawn from `rng`, each laid out
/// least significant byte first.
pub fn random_chart_data(rng: &mut ChartRng) -> (v: heapless::Vec<u8, 64>)
    ensures
        bar_values(v) == le_bytes(wyrng_draws(old(rng).state, 8)),
        final(rng).state == wyrng_advance_n(old(rng).state, 8),
{
    let ghost s0 = rng.state;
    let mut words: Vec<u64> = Vec::new();
    let mut i: usize = 0;
    while i < CHART_BARS / 8
        invariant
            i <= 8,
            words@ == wyrng_draws(s0, i as nat),
            words@.len() == i,
            rng.state == wyrng_advance_n(s0, i as nat),
        decreases 8 - i,
    {
        let w = rng.next_u64();
        words.push(w);
        i = i + 1;
    }
    chart_data_from_words(words.as_slice())
}

/// An ASCII text encodes to as many bytes as it has characters.
proof fn lemma_ascii_byte_len(t: &str)
    requires
        vstd::string::is_ascii(t),
    ensures
        t.spec_bytes().len() == t@.len(),
{
    vstd::utf8::is_ascii_chars_encode_utf8(t@);
}

/// A widget command for the panel.
fn panel_widget(kind: WidgetKind, text: &str, id: Id) -> (c: Command<'static>)
    requires
        text.spec_bytes().len() <= 32,
    ensures
        c matches Command::UI(UI::Widget(w)) && w.kind == kind && w.id == id && label_bytes(w.label) == text.spec_bytes(),
{
    let label = label_from_str(text);
    match label {
        Some(label) => Command::UI(UI::Widget(Widget { kind, label, id })),
        None => {
            assert(false);
            Command::Reset
        },
    }
}

/// The panel the device shows: a reset, three buttons (LED on, LED off, give
/// data), a slider and a bar chart, in rows.
pub fn demo_panel() -> (p: Vec<Command<'static>>)
    ensures
        p@.len() == 8,
        p@[0] == Command::Reset::<'static>,
        p@[4] == Command::UI::<'static>(UI::Break),
        p@[6] == Command::UI::<'static>(UI::Break),
        p@[1] matches Command::UI(UI::Widget(w)) && w.kind == WidgetKind::Button && w.id == 1 && label_bytes(w.label) == "LED on".spec_bytes(),
        p@[2] matches Command::UI(UI::Widget(w)) && w.kind == WidgetKind::Button && w.id == 2 && label_bytes(w.label) == "LED off".spec_bytes(),
        p@[3] matches Command::UI(UI::Widget(w)) && w.kind == WidgetKind::Button && w.id == 3 && label_bytes(w.label) == "give data".spec_bytes(),
        p@[5] matches Command::UI(UI::Widget(w)) && w.kind == WidgetKind::Slider && w.id == 4 && label_bytes(w.label) == "slidos".spec_bytes(),
        p@[7] matches Command::UI(UI::Widget(w)) && w.kind == WidgetKind::BarChart && w.id == DEMO_BAR_CHART && label_bytes(w.label) == "a bar chart".spec_bytes(),
{
    proof {
        reveal_strlit("LED on");
        reveal_strlit("LED off");
        reveal_strlit("give data");
        reveal_strlit("slidos");
        reveal_strlit("a bar chart");
        lemma_ascii_byte_len("LED on");
        lemma_ascii_byte_len("LED off");
        lemma_ascii_byte_len("give data");
        lemma_ascii_byte_len("slidos");
        lemma_ascii_byte_len("a bar chart");
    }
    let mut p: Vec<Command<'static>> = Vec::new();
    p.push(Command::Reset);
    p.push(panel_widget(WidgetKind::Button, "LED on", 1));
    p.push(panel_widget(WidgetKind::Button, "LED off", 2));
    p.push(panel_widget(WidgetKind::Button, "give data", 3));
    p.push(Command::UI(UI::Break));
    p.push(panel_widget(WidgetKind::Slider, "slidos", 4));
    p.push(Command::UI(UI::Break));
    p.push(panel_widget(WidgetKind::BarChart, "a bar chart", DEMO_BAR_CHART));
    p
}

/// The panel the development server describes in place of a device: a
/// reset, a button, a slider and two bar charts, each on its own row.
pub fn dev_server_panel() -> (p: Vec<Command<'static>>)
    ensures
        p@.len() == 8,
        p@[0] == Command::Reset::<'static>,
        p@[2] == Command::UI::<'static>(UI::Break),
        p@[4] == Command::UI::<'static>(UI::Break),
        p@[6] == Command::UI::<'static>(UI::Break),
        p@[1] matches Command::UI(UI::Widget(w)) && w.kind == WidgetKind::Button && w.id == 1 && label_bytes(w.label) == "oh,aye".spec_bytes(),
        p@[3] matches Command::UI(UI::Widget(w)) && w.kind == WidgetKind::Slider && w.id == 2 && label_bytes(w.label) == "slidos".spec_bytes(),
        p@[5] matches Command::UI(UI::Widget(w)) && w.kind == WidgetKind::BarChart && w.id == 3 && label_bytes(w.label) == "a bar chart".spec_bytes(),
        p@[7] matches Command::UI(UI::Widget(w)) && w.kind == WidgetKind::BarChart && w.id == 4 && label_bytes(w.label) == "another bar chart".spec_bytes(),
{
    proof {
        reveal_strlit("oh,aye");
        reveal_strlit("slidos");
        reveal_strlit("a bar chart");
        reveal_strlit("another bar chart");
        lemma_ascii_byte_len("oh,aye");
        lemma_ascii_byte_len("slidos");
        lemma_ascii_byte_len("a bar chart");
        lemma_ascii_byte_len("another bar chart");
    }
    let mut p: Vec<Command<'static>> = Vec::new();
    p.push(Command::Reset);
    p.push(panel_widget(WidgetKind::Button, "oh,aye", 1));
    p.push(Command::UI(UI::Break));
    p.push(panel_widget(WidgetKind::Slider, "slidos", 2));
    p.push(Command::UI(UI::Break));
    p.push(panel_widget(WidgetKind::BarChart, "a bar chart", 3));
    p.push(Command::UI(UI::Break));
    p.push(panel_widget(WidgetKind::BarChart, "another bar chart", 4));
    p
}

/// The update the device sends for one round of bar data.
pub fn bar_data_command(chart: Id, vals: heapless::Vec<u8, 64>) -> (c: Command<'static>)
    ensures
        c matches Command::BarData(d) && d.id == chart && bar_values(d.vals) == bar_values(vals),
{
    Command::BarData(BarData { id: chart, vals })
}

} // verus!
