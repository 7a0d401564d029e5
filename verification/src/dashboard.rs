//! The browser side: the layout and charts it keeps, how each command from
//! the device changes them, and what each layout element shows.
use crate::bounded::{bar_values, bar_values_to_vec, label_bytes, label_from_str};
use crate::device::{device_action, DeviceAction};
use crate::protocol::{Command, Id, Input, Log, Widget, WidgetKind, UI};
use vstd::prelude::*;
use vstd::string::StringSliceAdditionalSpecFns;

verus! {

#[verifier::external_type_specification]
#[verifier::external_body]
#[verifier::reject_recursive_types(A)]
#[verifier::reject_recursive_types(S)]
pub struct ExImHashSet<A, S>(im_rc::HashSet<A, S>);

/// The chart identifiers held by a set.
pub uninterp spec fn chart_ids(s: im_rc::HashSet<u16>) -> Set<u16>;

/// `im_rc::HashSet::new`: an empty set.
#[verifier::external_body]
fn chart_set_new() -> (s: im_rc::HashSet<u16>)
    ensures
        chart_ids(s) == Set::<u16>::empty(),
{
    im_rc::HashSet::new()
}

/// `im_rc::HashSet::contains`: whether `id` is held.
#[verifier::external_body]
fn chart_set_contains(s: &im_rc::HashSet<u16>, id: u16) -> (r: bool)
    ensures
        r == chart_ids(*s).contains(id),
{
    s.contains(&id)
}

/// `im_rc::HashSet::insert`: adds `id`; hands back the equal value that was
/// held already, if any.
#[verifier::external_body]
fn chart_set_insert(s: &mut im_rc::HashSet<u16>, id: u16) -> (r: Option<u16>)
    ensures
        chart_ids(*final(s)) == chart_ids(*old(s)).insert(id),
        r is Some <==> chart_ids(*old(s)).contains(id),
{
    s.insert(id)
}

/// `im_rc::HashSet::clear`: removes everything.
#[verifier::external_body]
fn chart_set_clear(s: &mut im_rc::HashSet<u16>)
    ensures
        chart_ids(*final(s)) == Set::<u16>::empty(),
{
    s.clear()
}

/// The identifier of the button the browser shows before any device has
/// described its panel; a device answers its click by describing it again.
pub const REFRESH_BUTTON: Id = 0;

/// What the browser keeps: the layout it shows and the charts it has set up.
pub struct Dashboard {
    pub items: Vec<UI>,
    pub charts: im_rc::HashSet<Id>,
}

/// What a command asks of the browser beyond the state it changes.
#[derive(Clone, PartialEq, Eq, Debug)]
pub enum DashboardEffect<'a> {
    /// Hand the log data to the log decoder.
    HandleLog(Log<'a>),
    /// Queue the element for the layout; it is added by `push_item`.
    ShowUi(UI),
    /// Set up the drawing for a chart seen for the first time.
    InitChart(Id),
    /// Draw new values in a chart.
    UpdateChart(Id, Vec<u8>),
}

/// The layout after a command: a reset empties it; other commands leave it
/// as it is (layout elements are queued, see `queued_ui`).
pub open spec fn layout_after<'a>(items: Seq<UI>, c: Command<'a>) -> Seq<UI> {
    if c is Reset {
        Seq::empty()
    } else {
        items
    }
}

/// The charts set up after a command: a reset forgets them all, bar data
/// adds its chart.
pub open spec fn charts_after<'a>(charts: Set<u16>, c: Command<'a>) -> Set<u16> {
    match c {
        Command::Reset => Set::empty(),
        Command::BarData(d) => charts.insert(d.id),
        _ => charts,
    }
}

/// The layout elements a command queues.
pub open spec fn queued_ui<'a>(c: Command<'a>) -> Seq<UI> {
    match c {
        Command::UI(ui) => seq![ui],
        _ => Seq::empty(),
    }
}

/// The layout after a list of commands, applied in order.
pub open spec fn layout_after_all<'a>(items: Seq<UI>, cmds: Seq<Command<'a>>) -> Seq<UI>
    decreases cmds.len(),
{
    if cmds.len() == 0 {
        items
    } else {
        layout_after_all(layout_after(items, cmds[0]), cmds.drop_first())
    }
}

/// The layout elements a list of commands queues, in order.
pub open spec fn queued_all<'a>(cmds: Seq<Command<'a>>) -> Seq<UI>
    decreases cmds.len(),
{
    if cmds.len() == 0 {
        Seq::empty()
    } else {
        queued_ui(cmds[0]) + queued_all(cmds.drop_first())
    }
}

/// The charts set up after a list of commands, applied in order.
pub open spec fn charts_after_all<'a>(charts: Set<u16>, cmds: Seq<Command<'a>>) -> Set<u16>
    decreases cmds.len(),
{
    if cmds.len() == 0 {
        charts
    } else {
        charts_after_all(charts_after(charts, cmds[0]), cmds.drop_first())
    }
}

/// The chart ids that the bar data in a list of commands names.
pub open spec fn bar_ids<'a>(cmds: Seq<Command<'a>>) -> Set<u16>
    decreases cmds.len(),
{
    if cmds.len() == 0 {
        Set::empty()
    } else {
        match cmds[0] {
            Command::BarData(d) => bar_ids(cmds.drop_first()).insert(d.id),
            _ => bar_ids(cmds.drop_first()),
        }
    }
}

/// Commands without a reset only add the charts their bar data names.
proof fn lemma_no_reset_adds_charts<'a>(charts: Set<u16>, cmds: Seq<Command<'a>>)
    requires
        forall|i: int| 0 <= i < cmds.len() ==> !(#[trigger] cmds[i] is Reset),
    ensures
        charts_after_all(charts, cmds) == charts + bar_ids(cmds),
    decreases cmds.len(),
{
    if cmds.len() == 0 {
        assert(charts + Set::<u16>::empty() =~= charts);
    } else {
        assert(!(cmds[0] is Reset));
        assert forall|i: int| 0 <= i < cmds.drop_first().len() implies !(#[trigger] cmds.drop_first()[i] is Reset) by {
            assert(cmds.drop_first()[i] == cmds[i + 1]);
        }
        let next = charts_after(charts, cmds[0]);
        lemma_no_reset_adds_charts(next, cmds.drop_first());
        assert(next + bar_ids(cmds.drop_first()) =~= charts + bar_ids(cmds));
    }
}

/// After a message that starts with a reset, and holds no other, the charts
/// set up are exactly those its bar data names, whatever was set up before.
pub proof fn lemma_panel_replaces_charts<'a>(charts: Set<u16>, cmds: Seq<Command<'a>>)
    requires
        cmds.len() > 0,
        cmds[0] is Reset,
        forall|i: int| 1 <= i < cmds.len() ==> !(#[trigger] cmds[i] is Reset),
    ensures
        charts_after_all(charts, cmds) == bar_ids(cmds),
{
    let rest = cmds.drop_first();
    assert forall|i: int| 0 <= i < rest.len() implies !(#[trigger] rest[i] is Reset) by {
        assert(rest[i] == cmds[i + 1]);
    }
    lemma_no_reset_adds_charts(Set::<u16>::empty(), rest);
    assert(Set::<u16>::empty() + bar_ids(rest) =~= bar_ids(rest));
}

/// Commands without a reset leave the layout as it is.
proof fn lemma_no_reset_keeps_layout<'a>(items: Seq<UI>, cmds: Seq<Command<'a>>)
    requires
        forall|i: int| 0 <= i < cmds.len() ==> !(#[trigger] cmds[i] is Reset),
    ensures
        layout_after_all(items, cmds) == items,
    decreases cmds.len(),
{
    if cmds.len() > 0 {
        assert(!(cmds[0] is Reset));
        assert forall|i: int| 0 <= i < cmds.drop_first().len() implies !(#[trigger] cmds.drop_first()[i] is Reset) by {
            assert(cmds.drop_first()[i] == cmds[i + 1]);
        }
        lemma_no_reset_keeps_layout(items, cmds.drop_first());
    }
}

/// A panel description that starts with a reset, and holds no other, shows
/// its own layout elements, in order, whatever was shown before: the layout
/// left by the commands, followed by the elements they queue, is exactly the
/// queued elements.
pub proof fn lemma_panel_replaces_layout<'a>(items: Seq<UI>, cmds: Seq<Command<'a>>)
    requires
        cmds.len() > 0,
        cmds[0] is Reset,
        forall|i: int| 1 <= i < cmds.len() ==> !(#[trigger] cmds[i] is Reset),
    ensures
        layout_after_all(items, cmds) + queued_all(cmds) == queued_all(cmds),
        layout_after_all(items, cmds).len() == 0,
{
    let rest = cmds.drop_first();
    assert forall|i: int| 0 <= i < rest.len() implies !(#[trigger] rest[i] is Reset) by {
        assert(rest[i] == cmds[i + 1]);
    }
    lemma_no_reset_keeps_layout(Seq::<UI>::empty(), rest);
    assert(layout_after_all(items, cmds) == Seq::<UI>::empty());
    assert(layout_after_all(items, cmds) + queued_all(cmds) =~= queued_all(cmds));
}

impl Dashboard {
    /// The chart identifiers set up so far.
    pub open spec fn chart_set(&self) -> Set<u16> {
        chart_ids(self.charts)
    }

    /// A fresh browser: one refresh button, labelled "plz refresh", and no
    /// charts.
    pub fn new() -> (d: Dashboard)
        ensures
            d.items@.len() == 1,
            d.items@[0] matches UI::Widget(w) && w.kind == WidgetKind::Button && w.id == REFRESH_BUTTON
                && label_bytes(w.label) == "plz refresh".spec_bytes(),
            d.chart_set() == Set::<u16>::empty(),
    {
        proof {
            reveal_strlit("plz refresh");
            vstd::utf8::is_ascii_chars_encode_utf8("plz refresh"@);
        }
        let label = label_from_str("plz refresh");
        let mut items: Vec<UI> = Vec::new();
        match label {
            Some(label) => {
                items.push(UI::Widget(Widget { kind: WidgetKind::Button, label, id: REFRESH_BUTTON }));
            },
            None => {
                assert(false);
            },
        }
        Dashboard { items, charts: chart_set_new() }
    }

    /// Adds a queued element at the end of the layout.
    pub fn push_item(&mut self, ui: UI)
        ensures
            final(self).items@ == old(self).items@.push(ui),
            final(self).chart_set() == old(self).chart_set(),
    {
        self.items.push(ui);
    }

    /// Applies one command from the device. `Reset` clears the layout and the
    /// charts; bar data sets up its chart the first time its id is seen and
    /// then draws the values. The browser does not handle time-series data
    /// yet and stops on it; callers must not pass it.
    pub fn handle<'a>(&mut self, command: Command<'a>) -> (effects: Vec<DashboardEffect<'a>>)
        requires
            !(command is TimeSeriesData),
        ensures
            final(self).items@ == layout_after(old(self).items@, command),
            final(self).chart_set() == charts_after(old(self).chart_set(), command),
            match command {
                Command::Log(log) => effects@ == seq![DashboardEffect::HandleLog(log)],
                Command::Reset => effects@.len() == 0,
                Command::UI(ui) => effects@ == seq![DashboardEffect::<'a>::ShowUi(ui)],
                Command::BarData(data) => {
                    let n: int = if old(self).chart_set().contains(data.id) { 0 } else { 1 };
                    &&& effects@.len() == n + 1
                    &&& n == 1 ==> effects@[0] == DashboardEffect::<'a>::InitChart(data.id)
                    &&& effects@[n] matches DashboardEffect::UpdateChart(id, vals) && id == data.id
                        && vals@ == bar_values(data.vals)
                },
                Command::TimeSeriesData(_) => false,
            },
    {
        let mut effects: Vec<DashboardEffect<'a>> = Vec::new();
        match command {
            Command::Log(log) => {
                effects.push(DashboardEffect::HandleLog(log));
            },
            Command::Reset => {
                chart_set_clear(&mut self.charts);
                self.items.clear();
            },
            Command::UI(ui) => {
                effects.push(DashboardEffect::ShowUi(ui));
            },
            Command::BarData(data) => {
                let id = data.id;
                if !chart_set_contains(&self.charts, id) {
                    let _ = chart_set_insert(&mut self.charts, id);
                    effects.push(DashboardEffect::InitChart(id));
                } else {
                    assert(old(self).chart_set().insert(id) =~= old(self).chart_set());
                }
                let vals = bar_values_to_vec(&data.vals);
                effects.push(DashboardEffect::UpdateChart(id, vals));
            },
            Command::TimeSeriesData(_) => {
                assert(false);
            },
        }
        effects
    }
}

/// The input a click on button `id` sends to the device.
pub fn click_input(id: Id) -> (i: Input)
    ensures
        i == Input::Click(id),
{
    Input::Click(id)
}

/// What the browser draws for one layout element.
#[derive(Clone, PartialEq, Eq, Debug, Structural)]
pub enum ViewItem {
    /// Time-series charts are shown as a placeholder text.
    TimeSeriesPlaceholder,
    /// A bar chart drawn into the element named after `id`.
    BarChart { id: Id },
    /// A button that sends `click` when pressed.
    Button { id: Id, click: Input },
    /// A slider kept in the browser.
    Slider { id: Id },
    /// A line break.
    LineBreak,
}

/// How a layout element is drawn: a chart, control or placeholder for a
/// widget, by its kind; a line break for a break.
pub open spec fn view_of(ui: UI) -> ViewItem {
    match ui {
        UI::Widget(w) => match w.kind {
            WidgetKind::TimeSeriesChart => ViewItem::TimeSeriesPlaceholder,
            WidgetKind::BarChart => ViewItem::BarChart { id: w.id },
            WidgetKind::Button => ViewItem::Button { id: w.id, click: Input::Click(w.id) },
            WidgetKind::Slider => ViewItem::Slider { id: w.id },
        },
        UI::Break => ViewItem::LineBreak,
    }
}

/// The label a layout element shows: the widget's label for bar charts,
/// buttons and sliders; none for time-series placeholders and breaks.
pub open spec fn shown_label(ui: UI) -> Option<Seq<u8>> {
    match ui {
        UI::Widget(w) => match w.kind {
            WidgetKind::TimeSeriesChart => None,
            _ => Some(label_bytes(w.label)),
        },
        UI::Break => None,
    }
}

/// One drawn layout element: what is drawn and the UTF-8 bytes of the label
/// shown with it.
#[derive(Clone, PartialEq, Eq, Debug)]
pub struct DrawnItem {
    pub item: ViewItem,
    pub label: Option<Vec<u8>>,
}

/// How one layout element is drawn, with its label.
pub fn view_for(ui: &UI) -> (v: DrawnItem)
    ensures
        v.item == view_of(*ui),
        v.label is Some <==> shown_label(*ui) is Some,
        v.label matches Some(l) ==> shown_label(*ui) == Some(l@),
        *ui matches UI::Widget(w) ==> (if w.kind == WidgetKind::TimeSeriesChart {
            v.label is None
        } else {
            v.label matches Some(l) && l@ == label_bytes(w.label)
        }),
        (*ui is Break) ==> (v.label is None),
{
    match ui {
        UI::Widget(w) => {
            let label = vstd::slice::slice_to_vec(w.label_str().as_bytes());
            match w.kind {
                WidgetKind::TimeSeriesChart => DrawnItem { item: ViewItem::TimeSeriesPlaceholder, label: None },
                WidgetKind::BarChart => DrawnItem { item: ViewItem::BarChart { id: w.id }, label: Some(label) },
                WidgetKind::Button => DrawnItem { item: ViewItem::Button { id: w.id, click: click_input(w.id) }, label: Some(label) },
                WidgetKind::Slider => DrawnItem { item: ViewItem::Slider { id: w.id }, label: Some(label) },
            }
        },
        UI::Break => DrawnItem { item: ViewItem::LineBreak, label: None },
    }
}

/// How the whole layout is drawn, element by element.
pub fn view_layout(items: &Vec<UI>) -> (vs: Vec<DrawnItem>)
    ensures
        vs@.len() == items@.len(),
        forall|i: int| 0 <= i < items@.len() ==> #[trigger] vs@[i].item == view_of(items@[i])
            && (vs@[i].label is Some <==> shown_label(items@[i]) is Some)
            && (vs@[i].label matches Some(l) ==> shown_label(items@[i]) == Some(l@)),
{
    let mut vs: Vec<DrawnItem> = Vec::new();
    let mut i: usize = 0;
    while i < items.len()
        invariant
            i <= items@.len(),
            vs@.len() == i,
            forall|j: int| 0 <= j < i ==> #[trigger] vs@[j].item == view_of(items@[j])
                && (vs@[j].label is Some <==> shown_label(items@[j]) is Some)
                && (vs@[j].label matches Some(l) ==> shown_label(items@[j]) == Some(l@)),
        decreases items@.len() - i,
    {
        vs.push(view_for(&items[i]));
        i = i + 1;
    }
    vs
}

/// A drawn bar chart, button or slider shows the whole label of its widget,
/// byte for byte and whatever its length; time-series placeholders and
/// breaks show none.
pub proof fn lemma_drawn_label_is_whole_label(w: Widget)
    ensures
        w.kind != WidgetKind::TimeSeriesChart ==> shown_label(UI::Widget(w)) == Some(label_bytes(w.label)),
        w.kind != WidgetKind::TimeSeriesChart ==> shown_label(UI::Widget(w)).unwrap().len() == label_bytes(w.label).len(),
        w.kind == WidgetKind::TimeSeriesChart ==> (shown_label(UI::Widget(w)) is None),
        (shown_label(UI::Break) is None),
{
}

/// Pressing the refresh button a fresh browser shows makes the device
/// describe its panel again.
pub proof fn lemma_refresh_button_resends_panel(w: Widget)
    requires
        w.kind == WidgetKind::Button,
        w.id == REFRESH_BUTTON,
    ensures
        view_of(UI::Widget(w)) matches ViewItem::Button { id, click } && id == REFRESH_BUTTON
            && device_action(click) == DeviceAction::ResendPanel,
{
}

} // verus!
