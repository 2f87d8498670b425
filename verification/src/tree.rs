use vstd::prelude::*;

use crate::clipboard::Clipboard;
use crate::events::UiEvent;
use crate::geometry::{pos_ok, size_ok, spec_padd, padd, Rect, SIZE_LIMIT};
use crate::input::PointerState;
use crate::widgets::button::Button;
use crate::widgets::checkbox::Checkbox;
use crate::widgets::container::Container;
use crate::widgets::form_field::FormField;
use crate::widgets::label::Label;
use crate::widgets::list_view::ListView;
use crate::widgets::modal::Modal;
use crate::widgets::panel::Panel;
use crate::widgets::radio_group::RadioGroup;
use crate::widgets::select::Select;
use crate::widgets::slider::Slider;
use crate::widgets::tabs::Tabs;
use crate::widgets::text_input::TextInput;
use crate::widgets::toggle::Toggle;
use crate::widgets::triangle_hero::TriangleHero;

verus! {

broadcast use {vstd::std_specs::vec::axiom_vec_decreases_to_view, vstd::seq::axiom_seq_index_decreases, vstd::seq::axiom_seq_subrange_decreases};

/// How a tree lays its entries out along the main axis.
#[derive(Clone, Copy, PartialEq, Eq, Structural, Debug)]
pub enum LayoutDirection {
    Column,
    Row,
    Stack,
}

/// Cross-axis placement of an entry.
#[derive(Clone, Copy, PartialEq, Eq, Structural, Debug)]
pub enum CrossAlign {
    Start,
    Center,
    End,
    Stretch,
}

/// How an entry sizes one axis: intrinsic, fixed pixels, or a share of the
/// remaining space proportional to its weight.
#[derive(Clone, Copy, PartialEq, Eq, Structural, Debug)]
pub enum SizeSpec {
    Auto,
    Fixed(i64),
    Flex(i64),
}

/// An entry's layout request.
#[derive(Clone, Copy, PartialEq, Eq, Structural, Debug)]
pub struct LayoutProps {
    pub width: SizeSpec,
    pub height: SizeSpec,
    pub align_self: Option<CrossAlign>,
}

impl LayoutProps {
    /// Both axes intrinsic, no alignment override.
    pub fn auto() -> (r: Self)
        ensures
            r == (LayoutProps { width: SizeSpec::Auto, height: SizeSpec::Auto,
                align_self: None::<CrossAlign> }),
    {
        LayoutProps { width: SizeSpec::Auto, height: SizeSpec::Auto, align_self: None }
    }
}

/// Padding insets around a tree's content.
#[derive(Clone, Copy, PartialEq, Eq, Structural, Debug)]
pub struct EdgeInsets {
    pub left: i64,
    pub right: i64,
    pub top: i64,
    pub bottom: i64,
}

impl EdgeInsets {
    /// The same inset on all four edges.
    pub fn all(value: i64) -> (r: Self)
        ensures
            r == (EdgeInsets { left: value, right: value, top: value, bottom: value }),
    {
        EdgeInsets { left: value, right: value, top: value, bottom: value }
    }

    pub open spec fn wf(self) -> bool {
        &&& size_ok(self.left as int)
        &&& size_ok(self.right as int)
        &&& size_ok(self.top as int)
        &&& size_ok(self.bottom as int)
    }
}

/// One of the concrete widgets a tree can own.
pub enum WidgetBox {
    Button(Button),
    Checkbox(Checkbox),
    Container(Container),
    FormField(Box<FormField>),
    Label(Label),
    ListView(ListView),
    Modal(Modal),
    Panel(Box<Panel>),
    RadioGroup(RadioGroup),
    Select(Select),
    Slider(Slider),
    Tabs(Tabs),
    TextInput(TextInput),
    Toggle(Toggle),
    TriangleHero(TriangleHero),
}

/// One keyed, laid-out widget inside a tree.
pub struct WidgetEntry {
    pub key: &'static str,
    pub widget: WidgetBox,
    pub layout: LayoutProps,
    pub focus_order: i32,
}

/// An ordered set of keyed widget entries with layout metadata: on each draw
/// pass it computes geometry, routes hit-testing and focus, recurses into
/// nested trees, and collects bubbled events.
pub struct UiTree {
    pub widgets: Vec<WidgetEntry>,
    pub area: Rect,
    pub gap: i64,
    pub direction: LayoutDirection,
    pub padding: EdgeInsets,
    pub align_items: CrossAlign,
    pub focus_index: Option<usize>,
}

/// Structural height of a widget: leaves are 0, a nested tree adds a level.
pub open spec fn wheight(w: WidgetBox) -> nat
    decreases w,
{
    match w {
        WidgetBox::Panel(p) => theight(p.child) + 1,
        WidgetBox::FormField(f) => theight(f.child) + 1,
        _ => 0,
    }
}

/// Structural height of a sequence of entries: the tallest widget among them.
pub open spec fn eheight(s: Seq<WidgetEntry>) -> nat
    decreases s,
{
    if s.len() == 0 {
        0
    } else {
        let rest = eheight(s.drop_last());
        let last = wheight(s.last().widget);
        if last > rest {
            last
        } else {
            rest
        }
    }
}

/// Structural height of a tree: one more than its tallest entry.
pub open spec fn theight(t: UiTree) -> nat
    decreases t,
{
    eheight(t.widgets@) + 1
}

proof fn lemma_eheight_bound(s: Seq<WidgetEntry>, i: int)
    requires
        0 <= i < s.len(),
    ensures
        wheight(s[i].widget) <= eheight(s),
    decreases s.len(),
{
    if i == s.len() - 1 {
        assert(s.last() == s[i]);
    } else {
        lemma_eheight_bound(s.drop_last(), i);
    }
}

/// The rect a widget currently stores.
pub open spec fn spec_w_rect(w: WidgetBox) -> Rect {
    match w {
        WidgetBox::Button(x) => x.rect,
        WidgetBox::Checkbox(x) => x.rect,
        WidgetBox::Container(x) => x.rect,
        WidgetBox::FormField(x) => x.rect,
        WidgetBox::Label(x) => x.rect,
        WidgetBox::ListView(x) => x.rect,
        WidgetBox::Modal(x) => x.rect,
        WidgetBox::Panel(x) => x.rect,
        WidgetBox::RadioGroup(x) => x.rect,
        WidgetBox::Select(x) => x.rect,
        WidgetBox::Slider(x) => x.rect,
        WidgetBox::Tabs(x) => x.rect,
        WidgetBox::TextInput(x) => x.rect,
        WidgetBox::Toggle(x) => x.rect,
        WidgetBox::TriangleHero(x) => x.rect,
    }
}

/// Can a widget take keyboard focus?  This depends on the widget's kind
/// alone: decorative widgets cannot.
pub open spec fn spec_w_focusable(w: WidgetBox) -> bool {
    match w {
        WidgetBox::Container(_) => false,
        WidgetBox::Label(_) => false,
        WidgetBox::Panel(_) => false,
        WidgetBox::TriangleHero(_) => false,
        _ => true,
    }
}

/// A widget's well-formedness, through nested trees.
pub open spec fn w_wf(w: WidgetBox) -> bool
    decreases w,
{
    match w {
        WidgetBox::Button(x) => x.wf(),
        WidgetBox::Checkbox(x) => x.wf(),
        WidgetBox::Container(x) => x.wf(),
        WidgetBox::FormField(x) => x.rect.wf() && x.style.wf() && t_wf(x.child),
        WidgetBox::Label(x) => x.wf(),
        WidgetBox::ListView(x) => x.wf(),
        WidgetBox::Modal(x) => x.wf(),
        WidgetBox::Panel(x) => x.rect.wf() && x.padding.wf() && t_wf(x.child),
        WidgetBox::RadioGroup(x) => x.wf(),
        WidgetBox::Select(x) => x.wf(),
        WidgetBox::Slider(x) => x.wf(),
        WidgetBox::Tabs(x) => x.wf(),
        WidgetBox::TextInput(x) => x.wf(),
        WidgetBox::Toggle(x) => x.wf(),
        WidgetBox::TriangleHero(x) => x.wf(),
    }
}

/// A layout request keeps its pixel values in the representable size range.
pub open spec fn spec_size_spec_wf(s: SizeSpec) -> bool {
    match s {
        SizeSpec::Auto => true,
        SizeSpec::Fixed(v) => -SIZE_LIMIT <= v <= SIZE_LIMIT,
        SizeSpec::Flex(v) => -SIZE_LIMIT <= v <= SIZE_LIMIT,
    }
}

/// An entry is well-formed when its widget and layout request are.
pub open spec fn entry_wf(e: WidgetEntry) -> bool
    decreases e,
{
    &&& w_wf(e.widget)
    &&& spec_size_spec_wf(e.layout.width)
    &&& spec_size_spec_wf(e.layout.height)
}

/// All entries of a sequence are well-formed.
pub open spec fn entries_wf(s: Seq<WidgetEntry>) -> bool
    decreases s,
{
    if s.len() == 0 {
        true
    } else {
        entries_wf(s.drop_last()) && entry_wf(s.last())
    }
}

/// A tree's well-formedness: area, gap and padding are in range, every entry
/// is well-formed, and the focused index (if present) names a focusable
/// entry.
pub open spec fn t_wf(t: UiTree) -> bool
    decreases t,
{
    &&& t.area.wf()
    &&& 0 <= t.gap <= SIZE_LIMIT
    &&& t.padding.wf()
    &&& entries_wf(t.widgets@)
    &&& (t.focus_index matches Some(i) ==> (i as int) < t.widgets@.len() && spec_w_focusable(
        t.widgets@[i as int].widget))
}

/// Unrolls `entries_wf` into a statement about each entry.
pub proof fn lemma_entries_wf_index(s: Seq<WidgetEntry>, i: int)
    requires
        entries_wf(s),
        0 <= i < s.len(),
    ensures
        entry_wf(s[i]),
    decreases s.len(),
{
    if i == s.len() - 1 {
        assert(s.last() == s[i]);
    } else {
        lemma_entries_wf_index(s.drop_last(), i);
    }
}

/// Rebuilds `entries_wf` from a statement about each entry.
pub proof fn lemma_entries_wf_all(s: Seq<WidgetEntry>)
    requires
        forall|i: int| 0 <= i < s.len() ==> entry_wf(#[trigger] s[i]),
    ensures
        entries_wf(s),
    decreases s.len(),
{
    if s.len() > 0 {
        assert(forall|i: int| 0 <= i < s.drop_last().len() ==> entry_wf(
            #[trigger] s.drop_last()[i]));
        lemma_entries_wf_all(s.drop_last());
        assert(s.last() == s[s.len() - 1]);
    }
}

/// The lexicographic order on (focus order, declaration index) pairs that
/// keyboard traversal follows.
pub open spec fn focus_lt(a: (int, int), b: (int, int)) -> bool {
    a.0 < b.0 || (a.0 == b.0 && a.1 < b.1)
}

/// The traversal pair of entry `i`.
pub open spec fn focus_pair(s: Seq<WidgetEntry>, i: int) -> (int, int) {
    (s[i].focus_order as int, i)
}

/// Some entry of the tree is focusable.
pub open spec fn has_focusable(s: Seq<WidgetEntry>) -> bool {
    exists|i: int| 0 <= i < s.len() && spec_w_focusable(#[trigger] s[i].widget)
}

/// `i` is the focusable entry with the least traversal pair.
pub open spec fn is_first_focusable(s: Seq<WidgetEntry>, i: int) -> bool {
    &&& 0 <= i < s.len()
    &&& spec_w_focusable(s[i].widget)
    &&& forall|j: int| 0 <= j < s.len() && spec_w_focusable(#[trigger] s[j].widget) && j != i
        ==> focus_lt(focus_pair(s, i), focus_pair(s, j))
}

/// `i` is the focusable entry with the greatest traversal pair.
pub open spec fn is_last_focusable(s: Seq<WidgetEntry>, i: int) -> bool {
    &&& 0 <= i < s.len()
    &&& spec_w_focusable(s[i].widget)
    &&& forall|j: int| 0 <= j < s.len() && spec_w_focusable(#[trigger] s[j].widget) && j != i
        ==> focus_lt(focus_pair(s, j), focus_pair(s, i))
}

/// `i` is the focusable entry that follows `cur` in traversal order: the
/// least pair strictly greater than `cur`'s.
pub open spec fn is_successor(s: Seq<WidgetEntry>, cur: int, i: int) -> bool {
    &&& 0 <= i < s.len()
    &&& spec_w_focusable(s[i].widget)
    &&& focus_lt(focus_pair(s, cur), focus_pair(s, i))
    &&& forall|j: int| 0 <= j < s.len() && spec_w_focusable(#[trigger] s[j].widget) && j != i
        && focus_lt(focus_pair(s, cur), focus_pair(s, j)) ==> focus_lt(focus_pair(s, i),
        focus_pair(s, j))
}

/// `i` is the focusable entry that precedes `cur` in traversal order: the
/// greatest pair strictly less than `cur`'s.
pub open spec fn is_predecessor(s: Seq<WidgetEntry>, cur: int, i: int) -> bool {
    &&& 0 <= i < s.len()
    &&& spec_w_focusable(s[i].widget)
    &&& focus_lt(focus_pair(s, i), focus_pair(s, cur))
    &&& forall|j: int| 0 <= j < s.len() && spec_w_focusable(#[trigger] s[j].widget) && j != i
        && focus_lt(focus_pair(s, j), focus_pair(s, cur)) ==> focus_lt(focus_pair(s, j),
        focus_pair(s, i))
}

impl UiTree {
    /// An empty column with the given area and inter-entry gap.
    pub fn column(area: Rect, gap: i64) -> (r: UiTree)
        requires
            area.wf(),
            0 <= gap <= SIZE_LIMIT,
        ensures
            r == (UiTree {
                widgets: r.widgets,
                area,
                gap,
                direction: LayoutDirection::Column,
                padding: EdgeInsets { left: 0i64, right: 0i64, top: 0i64, bottom: 0i64 },
                align_items: CrossAlign::Stretch,
                focus_index: None::<usize>,
            }),
            r.widgets@.len() == 0,
            t_wf(r),
    {
        UiTree {
            widgets: Vec::new(),
            area,
            gap,
            direction: LayoutDirection::Column,
            padding: EdgeInsets::all(0),
            align_items: CrossAlign::Stretch,
            focus_index: None,
        }
    }

    /// An empty row with the given area and inter-entry gap.
    pub fn row(area: Rect, gap: i64) -> (r: UiTree)
        requires
            area.wf(),
            0 <= gap <= SIZE_LIMIT,
        ensures
            r == (UiTree {
                widgets: r.widgets,
                area,
                gap,
                direction: LayoutDirection::Row,
                padding: EdgeInsets { left: 0i64, right: 0i64, top: 0i64, bottom: 0i64 },
                align_items: CrossAlign::Center,
                focus_index: None::<usize>,
            }),
            r.widgets@.len() == 0,
            t_wf(r),
    {
        UiTree {
            widgets: Vec::new(),
            area,
            gap,
            direction: LayoutDirection::Row,
            padding: EdgeInsets::all(0),
            align_items: CrossAlign::Center,
            focus_index: None,
        }
    }

    /// An empty stack over the given area.
    pub fn stack(area: Rect) -> (r: UiTree)
        requires
            area.wf(),
        ensures
            r == (UiTree {
                widgets: r.widgets,
                area,
                gap: 0i64,
                direction: LayoutDirection::Stack,
                padding: EdgeInsets { left: 0i64, right: 0i64, top: 0i64, bottom: 0i64 },
                align_items: CrossAlign::Stretch,
                focus_index: None::<usize>,
            }),
            r.widgets@.len() == 0,
            t_wf(r),
    {
        UiTree {
            widgets: Vec::new(),
            area,
            gap: 0,
            direction: LayoutDirection::Stack,
            padding: EdgeInsets::all(0),
            align_items: CrossAlign::Stretch,
            focus_index: None,
        }
    }

    /// Appends an unkeyed widget with intrinsic layout.
    pub fn push(&mut self, widget: WidgetBox)
        requires
            t_wf(*old(self)),
            w_wf(widget),
        ensures
            t_wf(*final(self)),
            final(self).widgets@ == old(self).widgets@.push(WidgetEntry {
                key: final(self).widgets@.last().key,
                widget: final(self).widgets@.last().widget,
                layout: LayoutProps { width: SizeSpec::Auto, height: SizeSpec::Auto,
                    align_self: None::<CrossAlign> },
                focus_order: i32::MAX,
            }),
            final(self).widgets@.last().key@ == Seq::<char>::empty(),
            final(self).widgets@.last().widget == widget,
            *final(self) == (UiTree { widgets: final(self).widgets, ..*old(self) }),
    {
        proof {
            reveal_strlit("");
        }
        self.push_key_with_order(
            "",
            widget,
            LayoutProps::auto(),
            i32::MAX,
        );
    }

    /// Appends a keyed widget with intrinsic layout.
    pub fn push_key(&mut self, key: &'static str, widget: WidgetBox)
        requires
            t_wf(*old(self)),
            w_wf(widget),
        ensures
            t_wf(*final(self)),
            final(self).widgets@ == old(self).widgets@.push(WidgetEntry {
                key,
                widget: final(self).widgets@.last().widget,
                layout: LayoutProps { width: SizeSpec::Auto, height: SizeSpec::Auto,
                    align_self: None::<CrossAlign> },
                focus_order: i32::MAX,
            }),
            final(self).widgets@.last().widget == widget,
            *final(self) == (UiTree { widgets: final(self).widgets, ..*old(self) }),
    {
        self.push_key_with_order(key, widget, LayoutProps::auto(), i32::MAX);
    }

    /// Appends a keyed widget with explicit layout.
    pub fn push_key_with(&mut self, key: &'static str, widget: WidgetBox, layout: LayoutProps)
        requires
            t_wf(*old(self)),
            w_wf(widget),
            spec_size_spec_wf(layout.width),
            spec_size_spec_wf(layout.height),
        ensures
            t_wf(*final(self)),
            final(self).widgets@ == old(self).widgets@.push(WidgetEntry {
                key,
                widget: final(self).widgets@.last().widget,
                layout,
                focus_order: i32::MAX,
            }),
            final(self).widgets@.last().widget == widget,
            *final(self) == (UiTree { widgets: final(self).widgets, ..*old(self) }),
    {
        self.push_key_with_order(key, widget, layout, i32::MAX);
    }

    /// Appends a keyed widget with explicit layout and focus order.
    pub fn push_key_with_order(
        &mut self,
        key: &'static str,
        widget: WidgetBox,
        layout: LayoutProps,
        focus_order: i32,
    )
        requires
            t_wf(*old(self)),
            w_wf(widget),
            spec_size_spec_wf(layout.width),
            spec_size_spec_wf(layout.height),
        ensures
            t_wf(*final(self)),
            final(self).widgets@ == old(self).widgets@.push(WidgetEntry {
                key,
                widget: final(self).widgets@.last().widget,
                layout,
                focus_order,
            }),
            final(self).widgets@.last().widget == widget,
            *final(self) == (UiTree { widgets: final(self).widgets, ..*old(self) }),
    {
        let entry = WidgetEntry { key, widget, layout, focus_order };
        proof {
            assert(entry_wf(entry));
            assert(self.widgets@.push(entry).drop_last() =~= self.widgets@);
            assert(entries_wf(self.widgets@.push(entry)));
        }
        self.widgets.push(entry);
    }

    /// Sets the tree's area.
    pub fn set_area(&mut self, area: Rect)
        requires
            t_wf(*old(self)),
            area.wf(),
        ensures
            t_wf(*final(self)),
            *final(self) == (UiTree { area, ..*old(self) }),
    {
        self.area = area;
    }

    /// Sets the tree's padding insets.
    pub fn set_padding(&mut self, padding: EdgeInsets)
        requires
            t_wf(*old(self)),
            padding.wf(),
        ensures
            t_wf(*final(self)),
            *final(self) == (UiTree { padding, ..*old(self) }),
    {
        self.padding = padding;
    }

    /// Sets the tree's default cross-axis alignment.
    pub fn set_align_items(&mut self, align: CrossAlign)
        requires
            t_wf(*old(self)),
        ensures
            t_wf(*final(self)),
            *final(self) == (UiTree { align_items: align, ..*old(self) }),
    {
        self.align_items = align;
    }

    /// The index of the first entry with the given key, if any.
    pub fn index_of_key(&self, key: &str) -> (r: Option<usize>)
        ensures
            (r matches Some(i) ==> i < self.widgets@.len() && self.widgets@[i as int].key@
                == key@),
            (r is None ==> forall|i: int| 0 <= i < self.widgets@.len()
                ==> #[trigger] self.widgets@[i].key@ != key@),
            (r matches Some(i) ==> forall|j: int| 0 <= j < i
                ==> #[trigger] self.widgets@[j].key@ != key@),
    {
        let len = self.widgets.len();
        let mut i: usize = 0;
        while i < len
            invariant
                len == self.widgets@.len(),
                0 <= i <= len,
                forall|j: int| 0 <= j < i ==> #[trigger] self.widgets@[j].key@ != key@,
            decreases len - i,
        {
            let entry_key: &str = self.widgets[i].key;
            if crate::text::str_eq(entry_key, key) {
                return Some(i);
            }
            i = i + 1;
        }
        None
    }

    /// A mutable borrow of the widget at `index`, for targeted mutation
    /// between draw passes.
    pub fn widget_at(&mut self, index: usize) -> (r: &mut WidgetBox)
        requires
            index < old(self).widgets@.len(),
        ensures
            *r == old(self).widgets@[index as int].widget,
            final(self).widgets@ == old(self).widgets@.update(index as int, WidgetEntry {
                widget: *final(r),
                ..old(self).widgets@[index as int]
            }),
            *final(self) == (UiTree { widgets: final(self).widgets, ..*old(self) }),
    {
        &mut self.widgets[index].widget
    }
}

/// Zero-floored value.
pub open spec fn max0(v: int) -> int {
    if v > 0 {
        v
    } else {
        0
    }
}

/// The intrinsic width a widget reports: its stored rect's width.
pub open spec fn desired_w(e: WidgetEntry) -> int {
    spec_w_rect(e.widget).width as int
}

/// The intrinsic height a widget reports: its stored rect's height.
pub open spec fn desired_h(e: WidgetEntry) -> int {
    spec_w_rect(e.widget).height as int
}

/// The total inter-entry gap of `n` entries.
pub open spec fn spec_total_gap(gap: int, n: int) -> int {
    if n >= 1 {
        gap * (n - 1)
    } else {
        0
    }
}

/// The main-axis pixels the fixed and intrinsic entries of a column consume.
pub open spec fn col_fixed(s: Seq<WidgetEntry>) -> int
    decreases s,
{
    if s.len() == 0 {
        0
    } else {
        col_fixed(s.drop_last()) + match s.last().layout.height {
            SizeSpec::Fixed(h) => max0(h as int),
            SizeSpec::Auto => max0(desired_h(s.last())),
            SizeSpec::Flex(_) => 0,
        }
    }
}

/// The total flex weight of a column's entries.
pub open spec fn col_flex(s: Seq<WidgetEntry>) -> int
    decreases s,
{
    if s.len() == 0 {
        0
    } else {
        col_flex(s.drop_last()) + match s.last().layout.height {
            SizeSpec::Flex(f) => max0(f as int),
            _ => 0,
        }
    }
}

/// The main-axis pixels the fixed and intrinsic entries of a row consume.
pub open spec fn row_fixed(s: Seq<WidgetEntry>) -> int
    decreases s,
{
    if s.len() == 0 {
        0
    } else {
        row_fixed(s.drop_last()) + match s.last().layout.width {
            SizeSpec::Fixed(w) => max0(w as int),
            SizeSpec::Auto => max0(desired_w(s.last())),
            SizeSpec::Flex(_) => 0,
        }
    }
}

/// The total flex weight of a row's entries.
pub open spec fn row_flex(s: Seq<WidgetEntry>) -> int
    decreases s,
{
    if s.len() == 0 {
        0
    } else {
        row_flex(s.drop_last()) + match s.last().layout.width {
            SizeSpec::Flex(f) => max0(f as int),
            _ => 0,
        }
    }
}

/// The cross-axis placement of a span of `size` inside `[start, start+span)`.
pub open spec fn cross_pos(align: CrossAlign, start: int, span: int, size: int) -> int {
    match align {
        CrossAlign::Start => start,
        CrossAlign::Stretch => start,
        CrossAlign::Center => spec_padd(start, (span - size) / 2),
        CrossAlign::End => spec_padd(start, span - size),
    }
}

impl UiTree {
    /// The content area: the tree's area inset by its padding, with
    /// negative sizes clamped to zero.
    pub open spec fn spec_inner(self) -> Rect {
        Rect {
            x: spec_padd(self.area.x as int, self.padding.left as int) as i64,
            y: spec_padd(self.area.y as int, self.padding.top as int) as i64,
            width: max0(self.area.width - self.padding.left - self.padding.right) as i64,
            height: max0(self.area.height - self.padding.top - self.padding.bottom) as i64,
        }
    }

    /// The alignment an entry uses: its own override, else the tree default.
    pub open spec fn entry_align(self, e: WidgetEntry) -> CrossAlign {
        match e.layout.align_self {
            Some(a) => a,
            None => self.align_items,
        }
    }

    /// The space a column distributes to its flex entries.
    pub open spec fn col_remaining(self) -> int {
        max0(self.spec_inner().height - col_fixed(self.widgets@) - spec_total_gap(
            self.gap as int, self.widgets@.len() as int))
    }

    /// The main-axis (height) share of entry `k` in a column.
    pub open spec fn col_main(self, k: int) -> int {
        let e = self.widgets@[k];
        match e.layout.height {
            SizeSpec::Fixed(h) => max0(h as int),
            SizeSpec::Auto => max0(desired_h(e)),
            SizeSpec::Flex(f) => if col_flex(self.widgets@) > 0 {
                self.col_remaining() * max0(f as int) / col_flex(self.widgets@)
            } else {
                0
            },
        }
    }

    /// The cross-axis (width) size of entry `k` in a column.
    pub open spec fn col_cross(self, k: int) -> int {
        let e = self.widgets@[k];
        let inner = self.spec_inner();
        if self.entry_align(e) == CrossAlign::Stretch {
            inner.width as int
        } else {
            match e.layout.width {
                SizeSpec::Fixed(w) => if max0(w as int) < inner.width {
                    max0(w as int)
                } else {
                    inner.width as int
                },
                SizeSpec::Auto => if desired_w(e) > 0 {
                    if desired_w(e) < inner.width {
                        desired_w(e)
                    } else {
                        inner.width as int
                    }
                } else {
                    inner.width as int
                },
                SizeSpec::Flex(_) => inner.width as int,
            }
        }
    }

    /// The top edge of entry `k` in a column: entries flow downward,
    /// separated by the gap (positions saturate at the coordinate limit).
    pub open spec fn col_y(self, k: int) -> int
        decreases k,
    {
        if k <= 0 {
            self.spec_inner().y as int
        } else {
            spec_padd(self.col_y(k - 1), self.col_main(k - 1) + self.gap)
        }
    }

    /// The rect of entry `k` in a column.
    pub open spec fn col_rect(self, k: int) -> Rect {
        let e = self.widgets@[k];
        let inner = self.spec_inner();
        Rect {
            x: cross_pos(self.entry_align(e), inner.x as int, inner.width as int,
                self.col_cross(k)) as i64,
            y: self.col_y(k) as i64,
            width: self.col_cross(k) as i64,
            height: self.col_main(k) as i64,
        }
    }

    /// The space a row distributes to its flex entries.
    pub open spec fn row_remaining(self) -> int {
        max0(self.spec_inner().width - row_fixed(self.widgets@) - spec_total_gap(
            self.gap as int, self.widgets@.len() as int))
    }

    /// The main-axis (width) share of entry `k` in a row.
    pub open spec fn row_main(self, k: int) -> int {
        let e = self.widgets@[k];
        match e.layout.width {
            SizeSpec::Fixed(w) => max0(w as int),
            SizeSpec::Auto => max0(desired_w(e)),
            SizeSpec::Flex(f) => if row_flex(self.widgets@) > 0 {
                self.row_remaining() * max0(f as int) / row_flex(self.widgets@)
            } else {
                0
            },
        }
    }

    /// The cross-axis (height) size of entry `k` in a row.
    pub open spec fn row_cross(self, k: int) -> int {
        let e = self.widgets@[k];
        let inner = self.spec_inner();
        if self.entry_align(e) == CrossAlign::Stretch {
            inner.height as int
        } else {
            match e.layout.height {
                SizeSpec::Fixed(h) => if max0(h as int) < inner.height {
                    max0(h as int)
                } else {
                    inner.height as int
                },
                SizeSpec::Auto => if desired_h(e) > 0 {
                    if desired_h(e) < inner.height {
                        desired_h(e)
                    } else {
                        inner.height as int
                    }
                } else {
                    inner.height as int
                },
                SizeSpec::Flex(_) => inner.height as int,
            }
        }
    }

    /// The left edge of entry `k` in a row.
    pub open spec fn row_x(self, k: int) -> int
        decreases k,
    {
        if k <= 0 {
            self.spec_inner().x as int
        } else {
            spec_padd(self.row_x(k - 1), self.row_main(k - 1) + self.gap)
        }
    }

    /// The rect of entry `k` in a row.
    pub open spec fn row_rect(self, k: int) -> Rect {
        let e = self.widgets@[k];
        let inner = self.spec_inner();
        Rect {
            x: self.row_x(k) as i64,
            y: cross_pos(self.entry_align(e), inner.y as int, inner.height as int,
                self.row_cross(k)) as i64,
            width: self.row_main(k) as i64,
            height: self.row_cross(k) as i64,
        }
    }

    /// The width of entry `k` in a stack.
    pub open spec fn stack_w(self, k: int) -> int {
        let e = self.widgets@[k];
        let inner = self.spec_inner();
        match e.layout.width {
            SizeSpec::Fixed(w) => if max0(w as int) < inner.width {
                max0(w as int)
            } else {
                inner.width as int
            },
            SizeSpec::Auto => if desired_w(e) > 0 {
                if desired_w(e) < inner.width {
                    desired_w(e)
                } else {
                    inner.width as int
                }
            } else {
                inner.width as int
            },
            SizeSpec::Flex(_) => inner.width as int,
        }
    }

    /// The height of entry `k` in a stack.
    pub open spec fn stack_h(self, k: int) -> int {
        let e = self.widgets@[k];
        let inner = self.spec_inner();
        match e.layout.height {
            SizeSpec::Fixed(h) => if max0(h as int) < inner.height {
                max0(h as int)
            } else {
                inner.height as int
            },
            SizeSpec::Auto => if desired_h(e) > 0 {
                if desired_h(e) < inner.height {
                    desired_h(e)
                } else {
                    inner.height as int
                }
            } else {
                inner.height as int
            },
            SizeSpec::Flex(_) => inner.height as int,
        }
    }

    /// The rect of entry `k` in a stack: entries overlap the inner area,
    /// aligned on the cross axis and centred vertically.
    pub open spec fn stack_rect(self, k: int) -> Rect {
        let e = self.widgets@[k];
        let inner = self.spec_inner();
        Rect {
            x: cross_pos(self.entry_align(e), inner.x as int, inner.width as int,
                self.stack_w(k)) as i64,
            y: spec_padd(inner.y as int, (inner.height - self.stack_h(k)) / 2) as i64,
            width: self.stack_w(k) as i64,
            height: self.stack_h(k) as i64,
        }
    }

    /// The post-layout rect of entry `k`, by the tree's direction.
    pub open spec fn spec_entry_rect(self, k: int) -> Rect {
        match self.direction {
            LayoutDirection::Column => self.col_rect(k),
            LayoutDirection::Row => self.row_rect(k),
            LayoutDirection::Stack => self.stack_rect(k),
        }
    }

    /// The index that wins the pointer hit-test this frame, scanning
    /// entries `< upto`: the last focusable entry whose rect contains the
    /// pointer, when a press-or-release edge exists.
    pub open spec fn spec_hit_focus(self, input: PointerState, upto: int, prev: Option<usize>)
        -> Option<usize>
        decreases upto,
    {
        if upto <= 0 {
            prev
        } else {
            let k = upto - 1;
            if (input.just_pressed || input.just_released) && self.spec_entry_rect(
                k).spec_contains(input.x as int, input.y as int) && spec_w_focusable(
                self.widgets@[k].widget) {
                Some(k as usize)
            } else {
                self.spec_hit_focus(input, k, prev)
            }
        }
    }
}

/// What each widget's focus-flag update does, stated per kind: widgets that
/// hold transient interaction state drop it when they lose focus.
pub open spec fn spec_w_set_focused(w: WidgetBox, focused: bool) -> WidgetBox {
    match w {
        WidgetBox::Button(x) => WidgetBox::Button(Button { focused, ..x }),
        WidgetBox::Checkbox(x) => WidgetBox::Checkbox(Checkbox { focused, ..x }),
        WidgetBox::Container(x) => WidgetBox::Container(x),
        WidgetBox::FormField(x) => WidgetBox::FormField(Box::new(FormField { focused, ..*x })),
        WidgetBox::Label(x) => WidgetBox::Label(x),
        WidgetBox::ListView(x) => WidgetBox::ListView(ListView { focused, ..x }),
        WidgetBox::Modal(x) => WidgetBox::Modal(Modal { focused, ..x }),
        WidgetBox::Panel(x) => WidgetBox::Panel(x),
        WidgetBox::RadioGroup(x) => WidgetBox::RadioGroup(RadioGroup { focused, ..x }),
        WidgetBox::Select(x) => WidgetBox::Select(Select { focused, open: x.open && focused,
            ..x }),
        WidgetBox::Slider(x) => WidgetBox::Slider(Slider { focused, dragging: x.dragging
            && focused, ..x }),
        WidgetBox::Tabs(x) => WidgetBox::Tabs(Tabs { focused, ..x }),
        WidgetBox::TextInput(x) => WidgetBox::TextInput(TextInput {
            focused,
            selection_anchor: if focused {
                x.selection_anchor
            } else {
                None
            },
            dragging_selection: x.dragging_selection && focused,
            ..x
        }),
        WidgetBox::Toggle(x) => WidgetBox::Toggle(Toggle { focused, ..x }),
        WidgetBox::TriangleHero(x) => WidgetBox::TriangleHero(x),
    }
}

/// What storing a rect does: every widget just records it.
pub open spec fn spec_w_set_rect(w: WidgetBox, rect: Rect) -> WidgetBox {
    match w {
        WidgetBox::Button(x) => WidgetBox::Button(Button { rect, ..x }),
        WidgetBox::Checkbox(x) => WidgetBox::Checkbox(Checkbox { rect, ..x }),
        WidgetBox::Container(x) => WidgetBox::Container(Container { rect, ..x }),
        WidgetBox::FormField(x) => WidgetBox::FormField(Box::new(FormField { rect, ..*x })),
        WidgetBox::Label(x) => WidgetBox::Label(Label { rect, ..x }),
        WidgetBox::ListView(x) => WidgetBox::ListView(ListView { rect, ..x }),
        WidgetBox::Modal(x) => WidgetBox::Modal(Modal { rect, ..x }),
        WidgetBox::Panel(x) => WidgetBox::Panel(Box::new(Panel { rect, ..*x })),
        WidgetBox::RadioGroup(x) => WidgetBox::RadioGroup(RadioGroup { rect, ..x }),
        WidgetBox::Select(x) => WidgetBox::Select(Select { rect, ..x }),
        WidgetBox::Slider(x) => WidgetBox::Slider(Slider { rect, ..x }),
        WidgetBox::Tabs(x) => WidgetBox::Tabs(Tabs { rect, ..x }),
        WidgetBox::TextInput(x) => WidgetBox::TextInput(TextInput { rect, ..x }),
        WidgetBox::Toggle(x) => WidgetBox::Toggle(Toggle { rect, ..x }),
        WidgetBox::TriangleHero(x) => WidgetBox::TriangleHero(TriangleHero { rect, ..x }),
    }
}

/// Does a widget consume focus traversal internally?  Only a field wrapping
/// a nested tree with a focusable entry does.
pub open spec fn spec_w_consumes_traversal(w: WidgetBox) -> bool {
    match w {
        WidgetBox::FormField(f) => f.child.widgets@.len() > 0 && has_focusable(f.child.widgets@),
        _ => false,
    }
}

/// Reports whether a widget can take keyboard focus.
pub fn w_focusable(w: &WidgetBox) -> (r: bool)
    ensures
        r == spec_w_focusable(*w),
{
    match w {
        WidgetBox::Container(_) => false,
        WidgetBox::Label(_) => false,
        WidgetBox::Panel(_) => false,
        WidgetBox::TriangleHero(_) => false,
        _ => true,
    }
}

/// Updates a widget's focus flag (dropping transient interaction state on
/// blur, as each widget's own rule says).
pub fn w_set_focused(w: &mut WidgetBox, focused: bool)
    requires
        w_wf(*old(w)),
    ensures
        w_wf(*final(w)),
        *final(w) == spec_w_set_focused(*old(w), focused),
{
    match w {
        WidgetBox::Button(x) => x.set_focused(focused),
        WidgetBox::Checkbox(x) => x.set_focused(focused),
        WidgetBox::Container(_) => {},
        WidgetBox::FormField(x) => x.focused = focused,
        WidgetBox::Label(_) => {},
        WidgetBox::ListView(x) => x.set_focused(focused),
        WidgetBox::Modal(x) => x.set_focused(focused),
        WidgetBox::Panel(_) => {},
        WidgetBox::RadioGroup(x) => x.set_focused(focused),
        WidgetBox::Select(x) => x.set_focused(focused),
        WidgetBox::Slider(x) => x.set_focused(focused),
        WidgetBox::Tabs(x) => x.set_focused(focused),
        WidgetBox::TextInput(x) => x.set_focused(focused),
        WidgetBox::Toggle(x) => x.set_focused(focused),
        WidgetBox::TriangleHero(_) => {},
    }
}

/// Stores a widget's final, post-layout rect.
#[verifier::rlimit(100)]
#[verifier::spinoff_prover]
pub fn w_set_rect(w: &mut WidgetBox, rect: Rect)
    requires
        w_wf(*old(w)),
        rect.wf(),
    ensures
        w_wf(*final(w)),
        *final(w) == spec_w_set_rect(*old(w), rect),
        spec_w_rect(*final(w)) == rect,
{
    match w {
        WidgetBox::Button(x) => x.rect = rect,
        WidgetBox::Checkbox(x) => x.rect = rect,
        WidgetBox::Container(x) => x.rect = rect,
        WidgetBox::FormField(x) => x.rect = rect,
        WidgetBox::Label(x) => x.rect = rect,
        WidgetBox::ListView(x) => x.rect = rect,
        WidgetBox::Modal(x) => x.rect = rect,
        WidgetBox::Panel(x) => x.rect = rect,
        WidgetBox::RadioGroup(x) => x.rect = rect,
        WidgetBox::Select(x) => x.rect = rect,
        WidgetBox::Slider(x) => x.rect = rect,
        WidgetBox::Tabs(x) => x.rect = rect,
        WidgetBox::TextInput(x) => x.rect = rect,
        WidgetBox::Toggle(x) => x.rect = rect,
        WidgetBox::TriangleHero(x) => x.rect = rect,
    }
}

/// Invokes a widget's activation, if it has one, and hands back its event.
pub fn w_activate(w: &mut WidgetBox) -> (r: Option<UiEvent>)
    requires
        w_wf(*old(w)),
    ensures
        w_wf(*final(w)),
        spec_w_rect(*final(w)) == spec_w_rect(*old(w)),
        spec_w_focusable(*final(w)) == spec_w_focusable(*old(w)),
{
    match w {
        WidgetBox::Button(x) => x.activate(),
        WidgetBox::Checkbox(x) => x.activate(),
        WidgetBox::ListView(x) => x.activate(),
        WidgetBox::Select(x) => x.activate(),
        WidgetBox::Toggle(x) => x.activate(),
        _ => None,
    }
}

/// Asks a composite widget to move focus forward inside its nested tree.
pub fn w_focus_next_in_children(w: &mut WidgetBox) -> (consumed: bool)
    requires
        w_wf(*old(w)),
    ensures
        w_wf(*final(w)),
        consumed == spec_w_consumes_traversal(*old(w)),
        spec_w_rect(*final(w)) == spec_w_rect(*old(w)),
        spec_w_focusable(*final(w)) == spec_w_focusable(*old(w)),
        spec_w_consumes_traversal(*final(w)) == spec_w_consumes_traversal(*old(w)),
        wheight(*final(w)) == wheight(*old(w)),
{
    match w {
        WidgetBox::FormField(x) => x.child.focus_next(),
        _ => false,
    }
}

/// Asks a composite widget to move focus backward inside its nested tree.
pub fn w_focus_prev_in_children(w: &mut WidgetBox) -> (consumed: bool)
    requires
        w_wf(*old(w)),
    ensures
        w_wf(*final(w)),
        consumed == spec_w_consumes_traversal(*old(w)),
        spec_w_rect(*final(w)) == spec_w_rect(*old(w)),
        spec_w_focusable(*final(w)) == spec_w_focusable(*old(w)),
        spec_w_consumes_traversal(*final(w)) == spec_w_consumes_traversal(*old(w)),
        wheight(*final(w)) == wheight(*old(w)),
{
    match w {
        WidgetBox::FormField(x) => x.child.focus_prev(),
        _ => false,
    }
}

impl UiTree {
    /// Advances focus to the next focusable entry in (focus order,
    /// declaration index) order, wrapping; clears focus when nothing is
    /// focusable.  Reports whether a focusable entry exists.
    pub fn focus_next(&mut self) -> (advanced: bool)
        requires
            t_wf(*old(self)),
        ensures
            t_wf(*final(self)),
            *final(self) == (UiTree { focus_index: final(self).focus_index, ..*old(self) }),
            advanced == has_focusable(old(self).widgets@),
            !advanced ==> final(self).focus_index is None,
            advanced ==> (final(self).focus_index matches Some(ni) && {
                let s = old(self).widgets@;
                match old(self).focus_index {
                    Some(cur) => {
                        if exists|j: int| 0 <= j < s.len() && spec_w_focusable(
                            #[trigger] s[j].widget) && focus_lt(focus_pair(s, cur as int),
                            focus_pair(s, j)) {
                            is_successor(s, cur as int, ni as int)
                        } else {
                            is_first_focusable(s, ni as int)
                        }
                    },
                    None => is_first_focusable(s, ni as int),
                }
            }),
    {
        let len = self.widgets.len();
        let ghost s = self.widgets@;
        let cur_pair: Option<(i32, usize)> = match self.focus_index {
            Some(c) => Some((self.widgets[c].focus_order, c)),
            None => None,
        };
        let mut best_min: Option<(i32, usize)> = None;
        let mut best_gt: Option<(i32, usize)> = None;
        let mut j: usize = 0;
        while j < len
            invariant
                len == s.len(),
                s == self.widgets@,
                0 <= j <= len,
                cur_pair == (match self.focus_index {
                    Some(c) => Some((s[c as int].focus_order, c)),
                    None => None::<(i32, usize)>,
                }),
                t_wf(*self),
                (best_min is None <==> !(exists|k: int| 0 <= k < j && spec_w_focusable(
                    #[trigger] s[k].widget))),
                (best_min matches Some(p) ==> p.1 < j && spec_w_focusable(s[p.1 as int].widget)
                    && p.0 == s[p.1 as int].focus_order && forall|k: int| 0 <= k < j
                    && spec_w_focusable(#[trigger] s[k].widget) && k != p.1 ==> focus_lt(
                    focus_pair(s, p.1 as int), focus_pair(s, k))),
                (best_gt matches Some(p) ==> cur_pair matches Some(cp) && p.1 < j
                    && spec_w_focusable(s[p.1 as int].widget) && p.0 == s[p.1 as int].focus_order
                    && focus_lt((cp.0 as int, cp.1 as int), focus_pair(s, p.1 as int))
                    && forall|k: int| 0 <= k < j && spec_w_focusable(#[trigger] s[k].widget)
                    && k != p.1 && focus_lt((cp.0 as int, cp.1 as int), focus_pair(s, k))
                    ==> focus_lt(focus_pair(s, p.1 as int), focus_pair(s, k))),
                (best_gt is None ==> forall|k: int| 0 <= k < j && spec_w_focusable(
                    #[trigger] s[k].widget) ==> (cur_pair matches Some(cp) ==> !focus_lt((
                    cp.0 as int, cp.1 as int), focus_pair(s, k)))),
            decreases len - j,
        {
            if w_focusable(&self.widgets[j].widget) {
                let p: (i32, usize) = (self.widgets[j].focus_order, j);
                best_min = match best_min {
                    Some(q) => {
                        if p.0 < q.0 || (p.0 == q.0 && p.1 < q.1) {
                            Some(p)
                        } else {
                            Some(q)
                        }
                    },
                    None => Some(p),
                };
                match cur_pair {
                    Some(cp) => {
                        if cp.0 < p.0 || (cp.0 == p.0 && cp.1 < p.1) {
                            best_gt = match best_gt {
                                Some(q) => {
                                    if p.0 < q.0 || (p.0 == q.0 && p.1 < q.1) {
                                        Some(p)
                                    } else {
                                        Some(q)
                                    }
                                },
                                None => Some(p),
                            };
                        }
                    },
                    None => {},
                }
            }
            j = j + 1;
        }
        match best_min {
            None => {
                self.focus_index = None;
                false
            },
            Some(mn) => {
                let target: usize = match (cur_pair, best_gt) {
                    (Some(_), Some(p)) => p.1,
                    _ => mn.1,
                };
                self.focus_index = Some(target);
                true
            },
        }
    }

    /// Moves focus to the previous focusable entry in traversal order,
    /// wrapping; clears focus when nothing is focusable.  Reports whether a
    /// focusable entry exists.
    pub fn focus_prev(&mut self) -> (advanced: bool)
        requires
            t_wf(*old(self)),
        ensures
            t_wf(*final(self)),
            *final(self) == (UiTree { focus_index: final(self).focus_index, ..*old(self) }),
            advanced == has_focusable(old(self).widgets@),
            !advanced ==> final(self).focus_index is None,
            advanced ==> (final(self).focus_index matches Some(ni) && {
                let s = old(self).widgets@;
                match old(self).focus_index {
                    Some(cur) => {
                        if exists|j: int| 0 <= j < s.len() && spec_w_focusable(
                            #[trigger] s[j].widget) && focus_lt(focus_pair(s, j), focus_pair(
                            s, cur as int)) {
                            is_predecessor(s, cur as int, ni as int)
                        } else {
                            is_last_focusable(s, ni as int)
                        }
                    },
                    None => is_last_focusable(s, ni as int),
                }
            }),
    {
        let len = self.widgets.len();
        let ghost s = self.widgets@;
        let cur_pair: Option<(i32, usize)> = match self.focus_index {
            Some(c) => Some((self.widgets[c].focus_order, c)),
            None => None,
        };
        let mut best_max: Option<(i32, usize)> = None;
        let mut best_lt: Option<(i32, usize)> = None;
        let mut j: usize = 0;
        while j < len
            invariant
                len == s.len(),
                s == self.widgets@,
                0 <= j <= len,
                cur_pair == (match self.focus_index {
                    Some(c) => Some((s[c as int].focus_order, c)),
                    None => None::<(i32, usize)>,
                }),
                t_wf(*self),
                (best_max is None <==> !(exists|k: int| 0 <= k < j && spec_w_focusable(
                    #[trigger] s[k].widget))),
                (best_max matches Some(p) ==> p.1 < j && spec_w_focusable(s[p.1 as int].widget)
                    && p.0 == s[p.1 as int].focus_order && forall|k: int| 0 <= k < j
                    && spec_w_focusable(#[trigger] s[k].widget) && k != p.1 ==> focus_lt(
                    focus_pair(s, k), focus_pair(s, p.1 as int))),
                (best_lt matches Some(p) ==> cur_pair matches Some(cp) && p.1 < j
                    && spec_w_focusable(s[p.1 as int].widget) && p.0 == s[p.1 as int].focus_order
                    && focus_lt(focus_pair(s, p.1 as int), (cp.0 as int, cp.1 as int))
                    && forall|k: int| 0 <= k < j && spec_w_focusable(#[trigger] s[k].widget)
                    && k != p.1 && focus_lt(focus_pair(s, k), (cp.0 as int, cp.1 as int))
                    ==> focus_lt(focus_pair(s, k), focus_pair(s, p.1 as int))),
                (best_lt is None ==> forall|k: int| 0 <= k < j && spec_w_focusable(
                    #[trigger] s[k].widget) ==> (cur_pair matches Some(cp) ==> !focus_lt(
                    focus_pair(s, k), (cp.0 as int, cp.1 as int)))),
            decreases len - j,
        {
            if w_focusable(&self.widgets[j].widget) {
                let p: (i32, usize) = (self.widgets[j].focus_order, j);
                best_max = match best_max {
                    Some(q) => {
                        if q.0 < p.0 || (q.0 == p.0 && q.1 < p.1) {
                            Some(p)
                        } else {
                            Some(q)
                        }
                    },
                    None => Some(p),
                };
                match cur_pair {
                    Some(cp) => {
                        if p.0 < cp.0 || (p.0 == cp.0 && p.1 < cp.1) {
                            best_lt = match best_lt {
                                Some(q) => {
                                    if q.0 < p.0 || (q.0 == p.0 && q.1 < p.1) {
                                        Some(p)
                                    } else {
                                        Some(q)
                                    }
                                },
                                None => Some(p),
                            };
                        }
                    },
                    None => {},
                }
            }
            j = j + 1;
        }
        match best_max {
            None => {
                self.focus_index = None;
                false
            },
            Some(mx) => {
                let target: usize = match (cur_pair, best_lt) {
                    (Some(_), Some(p)) => p.1,
                    _ => mx.1,
                };
                self.focus_index = Some(target);
                true
            },
        }
    }

    /// Asks the focused entry to consume forward traversal inside itself.
    pub fn focus_next_in_focused_child(&mut self) -> (consumed: bool)
        requires
            t_wf(*old(self)),
        ensures
            t_wf(*final(self)),
            final(self).widgets@.len() == old(self).widgets@.len(),
            final(self).focus_index == old(self).focus_index,
            *final(self) == (UiTree { widgets: final(self).widgets, ..*old(self) }),
            consumed == (match old(self).focus_index {
                Some(i) => spec_w_consumes_traversal(old(self).widgets@[i as int].widget),
                None => false,
            }),
            forall|k: int| 0 <= k < old(self).widgets@.len() ==> {
                let e0 = old(self).widgets@[k];
                let e1 = #[trigger] final(self).widgets@[k];
                &&& e1.key == e0.key
                &&& e1.layout == e0.layout
                &&& e1.focus_order == e0.focus_order
                &&& spec_w_rect(e1.widget) == spec_w_rect(e0.widget)
                &&& spec_w_focusable(e1.widget) == spec_w_focusable(e0.widget)
                &&& spec_w_consumes_traversal(e1.widget) == spec_w_consumes_traversal(e0.widget)
                &&& wheight(e1.widget) == wheight(e0.widget)
            },
    {
        let idx: usize = match self.focus_index {
            Some(i) => i,
            None => {
                return false;
            },
        };
        let ghost s0 = *self;
        proof {
            lemma_entries_wf_index(self.widgets@, idx as int);
        }
        let w = &mut self.widgets[idx].widget;
        let consumed = w_focus_next_in_children(w);
        proof {
            assert(final(self).widgets@ =~= s0.widgets@.update(idx as int, WidgetEntry {
                widget: final(self).widgets@[idx as int].widget,
                ..s0.widgets@[idx as int]
            }));
            assert forall|k: int| 0 <= k < self.widgets@.len() implies entry_wf(
                #[trigger] self.widgets@[k]) by {
                lemma_entries_wf_index(s0.widgets@, k);
            }
            lemma_entries_wf_all(self.widgets@);
        }
        consumed
    }

    /// Asks the focused entry to consume backward traversal inside itself.
    pub fn focus_prev_in_focused_child(&mut self) -> (consumed: bool)
        requires
            t_wf(*old(self)),
        ensures
            t_wf(*final(self)),
            final(self).widgets@.len() == old(self).widgets@.len(),
            final(self).focus_index == old(self).focus_index,
            *final(self) == (UiTree { widgets: final(self).widgets, ..*old(self) }),
            consumed == (match old(self).focus_index {
                Some(i) => spec_w_consumes_traversal(old(self).widgets@[i as int].widget),
                None => false,
            }),
            forall|k: int| 0 <= k < old(self).widgets@.len() ==> {
                let e0 = old(self).widgets@[k];
                let e1 = #[trigger] final(self).widgets@[k];
                &&& e1.key == e0.key
                &&& e1.layout == e0.layout
                &&& e1.focus_order == e0.focus_order
                &&& spec_w_rect(e1.widget) == spec_w_rect(e0.widget)
                &&& spec_w_focusable(e1.widget) == spec_w_focusable(e0.widget)
                &&& spec_w_consumes_traversal(e1.widget) == spec_w_consumes_traversal(e0.widget)
                &&& wheight(e1.widget) == wheight(e0.widget)
            },
    {
        let idx: usize = match self.focus_index {
            Some(i) => i,
            None => {
                return false;
            },
        };
        let ghost s0 = *self;
        proof {
            lemma_entries_wf_index(self.widgets@, idx as int);
        }
        let w = &mut self.widgets[idx].widget;
        let consumed = w_focus_prev_in_children(w);
        proof {
            assert(final(self).widgets@ =~= s0.widgets@.update(idx as int, WidgetEntry {
                widget: final(self).widgets@[idx as int].widget,
                ..s0.widgets@[idx as int]
            }));
            assert forall|k: int| 0 <= k < self.widgets@.len() implies entry_wf(
                #[trigger] self.widgets@[k]) by {
                lemma_entries_wf_index(s0.widgets@, k);
            }
            lemma_entries_wf_all(self.widgets@);
        }
        consumed
    }
}

/// Reads the rect a widget currently stores (its intrinsic size report).
pub fn w_rect(w: &WidgetBox) -> (r: Rect)
    ensures
        r == spec_w_rect(*w),
{
    match w {
        WidgetBox::Button(x) => x.rect,
        WidgetBox::Checkbox(x) => x.rect,
        WidgetBox::Container(x) => x.rect,
        WidgetBox::FormField(x) => x.rect,
        WidgetBox::Label(x) => x.rect,
        WidgetBox::ListView(x) => x.rect,
        WidgetBox::Modal(x) => x.rect,
        WidgetBox::Panel(x) => x.rect,
        WidgetBox::RadioGroup(x) => x.rect,
        WidgetBox::Select(x) => x.rect,
        WidgetBox::Slider(x) => x.rect,
        WidgetBox::Tabs(x) => x.rect,
        WidgetBox::TextInput(x) => x.rect,
        WidgetBox::Toggle(x) => x.rect,
        WidgetBox::TriangleHero(x) => x.rect,
    }
}

/// The flex total is at least any single entry's weight contribution.
proof fn lemma_col_flex_at(s: Seq<WidgetEntry>, k: int)
    requires
        0 <= k < s.len(),
    ensures
        col_flex(s) >= 0,
        col_flex(s) >= (match s[k].layout.height {
            SizeSpec::Flex(f) => max0(f as int),
            _ => 0,
        }),
    decreases s.len(),
{
    lemma_col_flex_nonneg(s.drop_last());
    if k == s.len() - 1 {
        assert(s.last() == s[k]);
    } else {
        lemma_col_flex_at(s.drop_last(), k);
    }
}

proof fn lemma_col_flex_nonneg(s: Seq<WidgetEntry>)
    ensures
        col_flex(s) >= 0,
    decreases s.len(),
{
    if s.len() > 0 {
        lemma_col_flex_nonneg(s.drop_last());
    }
}

/// The flex total is at least any single entry's weight contribution.
proof fn lemma_row_flex_at(s: Seq<WidgetEntry>, k: int)
    requires
        0 <= k < s.len(),
    ensures
        row_flex(s) >= 0,
        row_flex(s) >= (match s[k].layout.width {
            SizeSpec::Flex(f) => max0(f as int),
            _ => 0,
        }),
    decreases s.len(),
{
    lemma_row_flex_nonneg(s.drop_last());
    if k == s.len() - 1 {
        assert(s.last() == s[k]);
    } else {
        lemma_row_flex_at(s.drop_last(), k);
    }
}

proof fn lemma_row_flex_nonneg(s: Seq<WidgetEntry>)
    ensures
        row_flex(s) >= 0,
    decreases s.len(),
{
    if s.len() > 0 {
        lemma_row_flex_nonneg(s.drop_last());
    }
}

/// A flex share never exceeds the remaining space it is carved from.
proof fn lemma_share_le_rem(rem: int, fx: int, total: int)
    requires
        0 <= rem,
        0 <= fx <= total,
        0 < total,
    ensures
        0 <= rem * fx / total <= rem,
{
    assert(0 <= rem * fx && rem * fx <= rem * total) by (nonlinear_arith)
        requires
            0 <= rem,
            0 <= fx <= total;
    vstd::arithmetic::div_mod::lemma_div_pos_is_pos(rem * fx, total);
    vstd::arithmetic::div_mod::lemma_div_is_ordered(rem * fx, rem * total, total);
    assert(rem * total == total * rem) by (nonlinear_arith);
    vstd::arithmetic::div_mod::lemma_div_multiples_vanish(rem, total);
}

impl UiTree {
    /// The content area, as laid out: the tree's area inset by its padding.
    pub fn inner_area(&self) -> (r: Rect)
        requires
            t_wf(*self),
        ensures
            r == self.spec_inner(),
            r.wf(),
    {
        let width_raw: i64 = self.area.width - self.padding.left - self.padding.right;
        let height_raw: i64 = self.area.height - self.padding.top - self.padding.bottom;
        Rect {
            x: padd(self.area.x, self.padding.left),
            y: padd(self.area.y, self.padding.top),
            width: if width_raw > 0 {
                width_raw
            } else {
                0
            },
            height: if height_raw > 0 {
                height_raw
            } else {
                0
            },
        }
    }

    /// First layout pass of a column: the fixed/intrinsic total and the
    /// flex-weight total.
    fn col_totals(&self) -> (r: (u128, u128))
        requires
            t_wf(*self),
        ensures
            r.0 as int == col_fixed(self.widgets@),
            r.1 as int == col_flex(self.widgets@),
            r.0 as int <= 0x1_0000_0000_0000_0000_0000_0000,
            r.1 as int <= 0x1_0000_0000_0000_0000_0000_0000,
    {
        let ghost s = self.widgets@;
        let n = self.widgets.len();
        let mut fixed_sum: u128 = 0;
        let mut flex_sum: u128 = 0;
        let mut k: usize = 0;
        while k < n
            invariant
                t_wf(*self),
                s == self.widgets@,
                n == s.len(),
                0 <= k <= n,
                fixed_sum as int == col_fixed(s.subrange(0, k as int)),
                flex_sum as int == col_flex(s.subrange(0, k as int)),
                fixed_sum as int <= k as int * SIZE_LIMIT,
                flex_sum as int <= k as int * SIZE_LIMIT,
            decreases n - k,
        {
            proof {
                lemma_entries_wf_index(s, k as int);
                assert(s.subrange(0, k as int + 1).drop_last() =~= s.subrange(0, k as int));
                assert(s.subrange(0, k as int + 1).last() == s[k as int]);
                assert((k as int + 1) * SIZE_LIMIT == k as int * SIZE_LIMIT + SIZE_LIMIT)
                    by (nonlinear_arith);
            }
            match self.widgets[k].layout.height {
                SizeSpec::Fixed(h) => {
                    let add: i64 = if h > 0 {
                        h
                    } else {
                        0
                    };
                    fixed_sum = fixed_sum + add as u128;
                },
                SizeSpec::Auto => {
                    let dh = w_rect(&self.widgets[k].widget).height;
                    let add: i64 = if dh > 0 {
                        dh
                    } else {
                        0
                    };
                    fixed_sum = fixed_sum + add as u128;
                },
                SizeSpec::Flex(f) => {
                    let add: i64 = if f > 0 {
                        f
                    } else {
                        0
                    };
                    flex_sum = flex_sum + add as u128;
                },
            }
            k = k + 1;
        }
        proof {
            assert(s.subrange(0, n as int) =~= s);
            assert(fixed_sum as int <= 0x1_0000_0000_0000_0000_0000_0000int
                && flex_sum as int <= 0x1_0000_0000_0000_0000_0000_0000int) by (nonlinear_arith)
                requires
                    fixed_sum as int <= n as int * SIZE_LIMIT,
                    flex_sum as int <= n as int * SIZE_LIMIT,
                    0 <= n as int <= 0xffff_ffff_ffff_ffffu64 as int;
        }
        (fixed_sum, flex_sum)
    }

    /// First layout pass of a row.
    fn row_totals(&self) -> (r: (u128, u128))
        requires
            t_wf(*self),
        ensures
            r.0 as int == row_fixed(self.widgets@),
            r.1 as int == row_flex(self.widgets@),
            r.0 as int <= 0x1_0000_0000_0000_0000_0000_0000,
            r.1 as int <= 0x1_0000_0000_0000_0000_0000_0000,
    {
        let ghost s = self.widgets@;
        let n = self.widgets.len();
        let mut fixed_sum: u128 = 0;
        let mut flex_sum: u128 = 0;
        let mut k: usize = 0;
        while k < n
            invariant
                t_wf(*self),
                s == self.widgets@,
                n == s.len(),
                0 <= k <= n,
                fixed_sum as int == row_fixed(s.subrange(0, k as int)),
                flex_sum as int == row_flex(s.subrange(0, k as int)),
                fixed_sum as int <= k as int * SIZE_LIMIT,
                flex_sum as int <= k as int * SIZE_LIMIT,
            decreases n - k,
        {
            proof {
                lemma_entries_wf_index(s, k as int);
                assert(s.subrange(0, k as int + 1).drop_last() =~= s.subrange(0, k as int));
                assert(s.subrange(0, k as int + 1).last() == s[k as int]);
                assert((k as int + 1) * SIZE_LIMIT == k as int * SIZE_LIMIT + SIZE_LIMIT)
                    by (nonlinear_arith);
            }
            match self.widgets[k].layout.width {
                SizeSpec::Fixed(w) => {
                    let add: i64 = if w > 0 {
                        w
                    } else {
                        0
                    };
                    fixed_sum = fixed_sum + add as u128;
                },
                SizeSpec::Auto => {
                    let dw = w_rect(&self.widgets[k].widget).width;
                    let add: i64 = if dw > 0 {
                        dw
                    } else {
                        0
                    };
                    fixed_sum = fixed_sum + add as u128;
                },
                SizeSpec::Flex(f) => {
                    let add: i64 = if f > 0 {
                        f
                    } else {
                        0
                    };
                    flex_sum = flex_sum + add as u128;
                },
            }
            k = k + 1;
        }
        proof {
            assert(s.subrange(0, n as int) =~= s);
            assert(fixed_sum as int <= 0x1_0000_0000_0000_0000_0000_0000int
                && flex_sum as int <= 0x1_0000_0000_0000_0000_0000_0000int) by (nonlinear_arith)
                requires
                    fixed_sum as int <= n as int * SIZE_LIMIT,
                    flex_sum as int <= n as int * SIZE_LIMIT,
                    0 <= n as int <= 0xffff_ffff_ffff_ffffu64 as int;
        }
        (fixed_sum, flex_sum)
    }

    /// The total inter-entry gap.
    fn gap_total(&self) -> (r: u128)
        requires
            t_wf(*self),
        ensures
            r as int == spec_total_gap(self.gap as int, self.widgets@.len() as int),
            r as int <= 0x1_0000_0000_0000_0000_0000_0000,
    {
        let n = self.widgets.len();
        if n >= 1 {
            proof {
                assert(0 <= self.gap as int * (n as int - 1)
                    <= 0x1_0000_0000_0000_0000_0000_0000int) by (nonlinear_arith)
                    requires
                        0 <= self.gap as int <= 0x100_0000,
                        0 <= n as int - 1 <= 0xffff_ffff_ffff_ffffu64 as int;
            }
            (self.gap as u128) * ((n - 1) as u128)
        } else {
            0
        }
    }

    /// The cross-axis placement of a span, mirroring `cross_pos`.
    fn cross_place(align: CrossAlign, start: i64, span: i64, size: i64) -> (r: i64)
        requires
            pos_ok(start as int),
            0 <= size <= span <= SIZE_LIMIT,
        ensures
            r as int == cross_pos(align, start as int, span as int, size as int),
            pos_ok(r as int),
    {
        match align {
            CrossAlign::Start => start,
            CrossAlign::Stretch => start,
            CrossAlign::Center => padd(start, (span - size) / 2),
            CrossAlign::End => padd(start, span - size),
        }
    }

    /// Resolves the final rect of every entry, per the tree's direction.
    fn layout_rects(&self) -> (r: Vec<Rect>)
        requires
            t_wf(*self),
        ensures
            r@.len() == self.widgets@.len(),
            forall|k: int| 0 <= k < r@.len() ==> #[trigger] r@[k] == self.spec_entry_rect(k),
            forall|k: int| 0 <= k < r@.len() ==> (#[trigger] r@[k]).wf(),
    {
        let ghost s = self.widgets@;
        let inner = self.inner_area();
        let n = self.widgets.len();
        let mut rects: Vec<Rect> = Vec::new();
        match self.direction {
            LayoutDirection::Column => {
                let (fixed_sum, flex_sum) = self.col_totals();
                let gaps = self.gap_total();
                let avail: i128 = inner.height as i128 - fixed_sum as i128 - gaps as i128;
                let rem: i64 = if avail > 0 {
                    avail as i64
                } else {
                    0
                };
                proof {
                    assert(rem as int == self.col_remaining());
                }
                let mut y: i64 = inner.y;
                let mut k: usize = 0;
                while k < n
                    invariant
                        t_wf(*self),
                        s == self.widgets@,
                        n == s.len(),
                        inner == self.spec_inner(),
                        inner.wf(),
                        0 <= k <= n,
                        flex_sum as int == col_flex(s),
                        rem as int == self.col_remaining(),
                        0 <= rem <= SIZE_LIMIT,
                        rects@.len() == k,
                        forall|j: int| 0 <= j < k ==> #[trigger] rects@[j] == self.col_rect(j),
                        forall|j: int| 0 <= j < k ==> (#[trigger] rects@[j]).wf(),
                        y as int == self.col_y(k as int),
                        pos_ok(y as int),
                    decreases n - k,
                {
                    proof {
                        lemma_entries_wf_index(s, k as int);
                    }
                    let main: i64 = match self.widgets[k].layout.height {
                        SizeSpec::Fixed(h) => if h > 0 {
                            h
                        } else {
                            0
                        },
                        SizeSpec::Auto => {
                            let dh = w_rect(&self.widgets[k].widget).height;
                            if dh > 0 {
                                dh
                            } else {
                                0
                            }
                        },
                        SizeSpec::Flex(f) => {
                            if flex_sum > 0 {
                                let fx: i64 = if f > 0 {
                                    f
                                } else {
                                    0
                                };
                                proof {
                                    lemma_col_flex_at(s, k as int);
                                    lemma_share_le_rem(rem as int, fx as int, flex_sum as int);
                                    assert(0 <= rem as int * fx as int
                                        <= 0x1_0000_0000_0000_0000int) by (nonlinear_arith)
                                        requires
                                            0 <= rem as int <= 0x100_0000,
                                            0 <= fx as int <= 0x100_0000;
                                }
                                (((rem as u128) * (fx as u128)) / flex_sum) as i64
                            } else {
                                0
                            }
                        },
                    };
                    proof {
                        assert(main as int == self.col_main(k as int));
                    }
                    let cross: i64 = {
                        let align = match self.widgets[k].layout.align_self {
                            Some(a) => a,
                            None => self.align_items,
                        };
                        if matches!(align, CrossAlign::Stretch) {
                            inner.width
                        } else {
                            match self.widgets[k].layout.width {
                                SizeSpec::Fixed(w) => {
                                    let fw: i64 = if w > 0 {
                                        w
                                    } else {
                                        0
                                    };
                                    if fw < inner.width {
                                        fw
                                    } else {
                                        inner.width
                                    }
                                },
                                SizeSpec::Auto => {
                                    let dw = w_rect(&self.widgets[k].widget).width;
                                    if dw > 0 {
                                        if dw < inner.width {
                                            dw
                                        } else {
                                            inner.width
                                        }
                                    } else {
                                        inner.width
                                    }
                                },
                                SizeSpec::Flex(_) => inner.width,
                            }
                        }
                    };
                    let align = match self.widgets[k].layout.align_self {
                        Some(a) => a,
                        None => self.align_items,
                    };
                    let x = UiTree::cross_place(align, inner.x, inner.width, cross);
                    let rect = Rect { x, y, width: cross, height: main };
                    proof {
                        assert(rect == self.col_rect(k as int));
                    }
                    rects.push(rect);
                    y = padd(y, main + self.gap);
                    k = k + 1;
                }
            },
            LayoutDirection::Row => {
                let (fixed_sum, flex_sum) = self.row_totals();
                let gaps = self.gap_total();
                let avail: i128 = inner.width as i128 - fixed_sum as i128 - gaps as i128;
                let rem: i64 = if avail > 0 {
                    avail as i64
                } else {
                    0
                };
                proof {
                    assert(rem as int == self.row_remaining());
                }
                let mut x: i64 = inner.x;
                let mut k: usize = 0;
                while k < n
                    invariant
                        t_wf(*self),
                        s == self.widgets@,
                        n == s.len(),
                        inner == self.spec_inner(),
                        inner.wf(),
                        0 <= k <= n,
                        flex_sum as int == row_flex(s),
                        rem as int == self.row_remaining(),
                        0 <= rem <= SIZE_LIMIT,
                        rects@.len() == k,
                        forall|j: int| 0 <= j < k ==> #[trigger] rects@[j] == self.row_rect(j),
                        forall|j: int| 0 <= j < k ==> (#[trigger] rects@[j]).wf(),
                        x as int == self.row_x(k as int),
                        pos_ok(x as int),
                    decreases n - k,
                {
                    proof {
                        lemma_entries_wf_index(s, k as int);
                    }
                    let main: i64 = match self.widgets[k].layout.width {
                        SizeSpec::Fixed(w) => if w > 0 {
                            w
                        } else {
                            0
                        },
                        SizeSpec::Auto => {
                            let dw = w_rect(&self.widgets[k].widget).width;
                            if dw > 0 {
                                dw
                            } else {
                                0
                            }
                        },
                        SizeSpec::Flex(f) => {
                            if flex_sum > 0 {
                                let fx: i64 = if f > 0 {
                                    f
                                } else {
                                    0
                                };
                                proof {
                                    lemma_row_flex_at(s, k as int);
                                    lemma_share_le_rem(rem as int, fx as int, flex_sum as int);
                                    assert(0 <= rem as int * fx as int
                                        <= 0x1_0000_0000_0000_0000int) by (nonlinear_arith)
                                        requires
                                            0 <= rem as int <= 0x100_0000,
                                            0 <= fx as int <= 0x100_0000;
                                }
                                (((rem as u128) * (fx as u128)) / flex_sum) as i64
                            } else {
                                0
                            }
                        },
                    };
                    proof {
                        assert(main as int == self.row_main(k as int));
                    }
                    let cross: i64 = {
                        let align = match self.widgets[k].layout.align_self {
                            Some(a) => a,
                            None => self.align_items,
                        };
                        if matches!(align, CrossAlign::Stretch) {
                            inner.height
                        } else {
                            match self.widgets[k].layout.height {
                                SizeSpec::Fixed(h) => {
                                    let fh: i64 = if h > 0 {
                                        h
                                    } else {
                                        0
                                    };
                                    if fh < inner.height {
                                        fh
                                    } else {
                                        inner.height
                                    }
                                },
                                SizeSpec::Auto => {
                                    let dh = w_rect(&self.widgets[k].widget).height;
                                    if dh > 0 {
                                        if dh < inner.height {
                                            dh
                                        } else {
                                            inner.height
                                        }
                                    } else {
                                        inner.height
                                    }
                                },
                                SizeSpec::Flex(_) => inner.height,
                            }
                        }
                    };
                    let align = match self.widgets[k].layout.align_self {
                        Some(a) => a,
                        None => self.align_items,
                    };
                    let y = UiTree::cross_place(align, inner.y, inner.height, cross);
                    let rect = Rect { x, y, width: main, height: cross };
                    proof {
                        assert(rect == self.row_rect(k as int));
                    }
                    rects.push(rect);
                    x = padd(x, main + self.gap);
                    k = k + 1;
                }
            },
            LayoutDirection::Stack => {
                let mut k: usize = 0;
                while k < n
                    invariant
                        t_wf(*self),
                        s == self.widgets@,
                        n == s.len(),
                        inner == self.spec_inner(),
                        inner.wf(),
                        0 <= k <= n,
                        rects@.len() == k,
                        forall|j: int| 0 <= j < k ==> #[trigger] rects@[j] == self.stack_rect(j),
                        forall|j: int| 0 <= j < k ==> (#[trigger] rects@[j]).wf(),
                    decreases n - k,
                {
                    proof {
                        lemma_entries_wf_index(s, k as int);
                    }
                    let width: i64 = match self.widgets[k].layout.width {
                        SizeSpec::Fixed(w) => {
                            let fw: i64 = if w > 0 {
                                w
                            } else {
                                0
                            };
                            if fw < inner.width {
                                fw
                            } else {
                                inner.width
                            }
                        },
                        SizeSpec::Auto => {
                            let dw = w_rect(&self.widgets[k].widget).width;
                            if dw > 0 {
                                if dw < inner.width {
                                    dw
                                } else {
                                    inner.width
                                }
                            } else {
                                inner.width
                            }
                        },
                        SizeSpec::Flex(_) => inner.width,
                    };
                    let height: i64 = match self.widgets[k].layout.height {
                        SizeSpec::Fixed(h) => {
                            let fh: i64 = if h > 0 {
                                h
                            } else {
                                0
                            };
                            if fh < inner.height {
                                fh
                            } else {
                                inner.height
                            }
                        },
                        SizeSpec::Auto => {
                            let dh = w_rect(&self.widgets[k].widget).height;
                            if dh > 0 {
                                if dh < inner.height {
                                    dh
                                } else {
                                    inner.height
                                }
                            } else {
                                inner.height
                            }
                        },
                        SizeSpec::Flex(_) => inner.height,
                    };
                    let align = match self.widgets[k].layout.align_self {
                        Some(a) => a,
                        None => self.align_items,
                    };
                    let x = UiTree::cross_place(align, inner.x, inner.width, width);
                    let y = padd(inner.y, (inner.height - height) / 2);
                    let rect = Rect { x, y, width, height };
                    proof {
                        assert(rect == self.stack_rect(k as int));
                    }
                    rects.push(rect);
                    k = k + 1;
                }
            },
        }
        rects
    }
}


/// Two entry sequences with the same length, focusability and focus orders
/// agree on every traversal predicate.
pub open spec fn same_focus_shape(s1: Seq<WidgetEntry>, s2: Seq<WidgetEntry>) -> bool {
    &&& s1.len() == s2.len()
    &&& forall|k: int| 0 <= k < s1.len() ==> spec_w_focusable((#[trigger] s1[k]).widget)
        == spec_w_focusable(s2[k].widget) && s1[k].focus_order == s2[k].focus_order
}

proof fn lemma_focus_shape_preds(s1: Seq<WidgetEntry>, s2: Seq<WidgetEntry>)
    requires
        same_focus_shape(s1, s2),
    ensures
        has_focusable(s1) == has_focusable(s2),
        forall|i: int| is_first_focusable(s1, i) == is_first_focusable(s2, i),
        forall|i: int| is_last_focusable(s1, i) == is_last_focusable(s2, i),
        forall|c: int, i: int| 0 <= c < s1.len() ==> #[trigger] is_successor(s1, c, i)
            == is_successor(s2, c, i),
        forall|c: int, i: int| 0 <= c < s1.len() ==> #[trigger] is_predecessor(s1, c, i)
            == is_predecessor(s2, c, i),
        forall|c: int| #![trigger s1[c]] 0 <= c < s1.len() ==> ((exists|j: int| 0 <= j
            < s1.len() && spec_w_focusable(#[trigger] s1[j].widget) && focus_lt(focus_pair(
            s1, c), focus_pair(s1, j))) <==> (exists|j: int| 0 <= j < s2.len()
            && spec_w_focusable(#[trigger] s2[j].widget) && focus_lt(focus_pair(s2, c),
            focus_pair(s2, j)))),
        forall|c: int| #![trigger s2[c]] 0 <= c < s1.len() ==> ((exists|j: int| 0 <= j
            < s1.len() && spec_w_focusable(#[trigger] s1[j].widget) && focus_lt(focus_pair(
            s1, j), focus_pair(s1, c))) <==> (exists|j: int| 0 <= j < s2.len()
            && spec_w_focusable(#[trigger] s2[j].widget) && focus_lt(focus_pair(s2, j),
            focus_pair(s2, c)))),
{
    assert forall|k: int| 0 <= k < s1.len() implies #[trigger] focus_pair(s1, k) == focus_pair(
        s2, k) by {}
    if has_focusable(s1) {
        let j = choose|j: int| 0 <= j < s1.len() && spec_w_focusable(#[trigger] s1[j].widget);
        assert(spec_w_focusable(s2[j].widget));
    }
    if has_focusable(s2) {
        let j = choose|j: int| 0 <= j < s2.len() && spec_w_focusable(#[trigger] s2[j].widget);
        assert(spec_w_focusable(s1[j].widget));
    }
    assert forall|i: int| is_first_focusable(s1, i) == is_first_focusable(s2, i) by {
        if is_first_focusable(s1, i) {
            assert forall|j: int| 0 <= j < s2.len() && spec_w_focusable(
                #[trigger] s2[j].widget) && j != i implies focus_lt(focus_pair(s2, i),
                focus_pair(s2, j)) by {
                assert(spec_w_focusable(s1[j].widget));
            }
        }
        if is_first_focusable(s2, i) {
            assert forall|j: int| 0 <= j < s1.len() && spec_w_focusable(
                #[trigger] s1[j].widget) && j != i implies focus_lt(focus_pair(s1, i),
                focus_pair(s1, j)) by {
                assert(spec_w_focusable(s2[j].widget));
            }
        }
    }
    assert forall|i: int| is_last_focusable(s1, i) == is_last_focusable(s2, i) by {
        if is_last_focusable(s1, i) {
            assert forall|j: int| 0 <= j < s2.len() && spec_w_focusable(
                #[trigger] s2[j].widget) && j != i implies focus_lt(focus_pair(s2, j),
                focus_pair(s2, i)) by {
                assert(spec_w_focusable(s1[j].widget));
            }
        }
        if is_last_focusable(s2, i) {
            assert forall|j: int| 0 <= j < s1.len() && spec_w_focusable(
                #[trigger] s1[j].widget) && j != i implies focus_lt(focus_pair(s1, j),
                focus_pair(s1, i)) by {
                assert(spec_w_focusable(s2[j].widget));
            }
        }
    }
    assert forall|c: int, i: int| 0 <= c < s1.len() implies #[trigger] is_successor(s1, c, i)
        == is_successor(s2, c, i) by {
        if is_successor(s1, c, i) {
            assert forall|j: int| 0 <= j < s2.len() && spec_w_focusable(
                #[trigger] s2[j].widget) && j != i && focus_lt(focus_pair(s2, c), focus_pair(
                s2, j)) implies focus_lt(focus_pair(s2, i), focus_pair(s2, j)) by {
                assert(spec_w_focusable(s1[j].widget));
            }
        }
        if is_successor(s2, c, i) {
            assert forall|j: int| 0 <= j < s1.len() && spec_w_focusable(
                #[trigger] s1[j].widget) && j != i && focus_lt(focus_pair(s1, c), focus_pair(
                s1, j)) implies focus_lt(focus_pair(s1, i), focus_pair(s1, j)) by {
                assert(spec_w_focusable(s2[j].widget));
            }
        }
    }
    assert forall|c: int, i: int| 0 <= c < s1.len() implies #[trigger] is_predecessor(s1, c, i)
        == is_predecessor(s2, c, i) by {
        if is_predecessor(s1, c, i) {
            assert forall|j: int| 0 <= j < s2.len() && spec_w_focusable(
                #[trigger] s2[j].widget) && j != i && focus_lt(focus_pair(s2, j), focus_pair(
                s2, c)) implies focus_lt(focus_pair(s2, j), focus_pair(s2, i)) by {
                assert(spec_w_focusable(s1[j].widget));
            }
        }
        if is_predecessor(s2, c, i) {
            assert forall|j: int| 0 <= j < s1.len() && spec_w_focusable(
                #[trigger] s1[j].widget) && j != i && focus_lt(focus_pair(s1, j), focus_pair(
                s1, c)) implies focus_lt(focus_pair(s1, j), focus_pair(s1, i)) by {
                assert(spec_w_focusable(s2[j].widget));
            }
        }
    }
    assert forall|c: int| #![trigger s1[c]] 0 <= c < s1.len() implies ((exists|j: int| 0 <= j
        < s1.len() && spec_w_focusable(#[trigger] s1[j].widget) && focus_lt(focus_pair(s1, c),
        focus_pair(s1, j))) <==> (exists|j: int| 0 <= j < s2.len() && spec_w_focusable(
        #[trigger] s2[j].widget) && focus_lt(focus_pair(s2, c), focus_pair(s2, j)))) by {
        if exists|j: int| 0 <= j < s1.len() && spec_w_focusable(#[trigger] s1[j].widget)
            && focus_lt(focus_pair(s1, c), focus_pair(s1, j)) {
            let j = choose|j: int| 0 <= j < s1.len() && spec_w_focusable(
                #[trigger] s1[j].widget) && focus_lt(focus_pair(s1, c), focus_pair(s1, j));
            assert(spec_w_focusable(s2[j].widget) && focus_lt(focus_pair(s2, c), focus_pair(
                s2, j)));
        }
        if exists|j: int| 0 <= j < s2.len() && spec_w_focusable(#[trigger] s2[j].widget)
            && focus_lt(focus_pair(s2, c), focus_pair(s2, j)) {
            let j = choose|j: int| 0 <= j < s2.len() && spec_w_focusable(
                #[trigger] s2[j].widget) && focus_lt(focus_pair(s2, c), focus_pair(s2, j));
            assert(spec_w_focusable(s1[j].widget) && focus_lt(focus_pair(s1, c), focus_pair(
                s1, j)));
        }
    }
    assert forall|c: int| #![trigger s2[c]] 0 <= c < s1.len() implies ((exists|j: int| 0 <= j
        < s1.len() && spec_w_focusable(#[trigger] s1[j].widget) && focus_lt(focus_pair(s1, j),
        focus_pair(s1, c))) <==> (exists|j: int| 0 <= j < s2.len() && spec_w_focusable(
        #[trigger] s2[j].widget) && focus_lt(focus_pair(s2, j), focus_pair(s2, c)))) by {
        if exists|j: int| 0 <= j < s1.len() && spec_w_focusable(#[trigger] s1[j].widget)
            && focus_lt(focus_pair(s1, j), focus_pair(s1, c)) {
            let j = choose|j: int| 0 <= j < s1.len() && spec_w_focusable(
                #[trigger] s1[j].widget) && focus_lt(focus_pair(s1, j), focus_pair(s1, c));
            assert(spec_w_focusable(s2[j].widget) && focus_lt(focus_pair(s2, j), focus_pair(
                s2, c)));
        }
        if exists|j: int| 0 <= j < s2.len() && spec_w_focusable(#[trigger] s2[j].widget)
            && focus_lt(focus_pair(s2, j), focus_pair(s2, c)) {
            let j = choose|j: int| 0 <= j < s2.len() && spec_w_focusable(
                #[trigger] s2[j].widget) && focus_lt(focus_pair(s2, j), focus_pair(s2, c));
            assert(spec_w_focusable(s1[j].widget) && focus_lt(focus_pair(s1, j), focus_pair(
                s1, c)));
        }
    }
}

/// Entry sequences that agree on every widget's height have the same height.
proof fn lemma_eheight_congruent(s1: Seq<WidgetEntry>, s2: Seq<WidgetEntry>)
    requires
        s1.len() == s2.len(),
        forall|k: int| 0 <= k < s1.len() ==> wheight((#[trigger] s1[k]).widget) == wheight(
            s2[k].widget),
    ensures
        eheight(s1) == eheight(s2),
    decreases s1.len(),
{
    if s1.len() > 0 {
        assert(s1.last() == s1[s1.len() - 1]);
        assert(s2.last() == s2[s2.len() - 1]);
        lemma_eheight_congruent(s1.drop_last(), s2.drop_last());
    }
}

/// Neither the focus flag nor the stored rect changes a widget's height.
proof fn lemma_wheight_stable(w: WidgetBox, focused: bool, rect: Rect)
    ensures
        wheight(spec_w_set_focused(w, focused)) == wheight(w),
        wheight(spec_w_set_rect(w, rect)) == wheight(w),
{
}

/// Describes where keyboard traversal moves the tree's own focus this
/// frame: forward when a focus-next signal is not consumed by the focused
/// entry's nested tree, else backward for an unconsumed focus-prev signal,
/// else nowhere.
pub open spec fn spec_nav_ok(t0: UiTree, input: PointerState, f1: Option<usize>) -> bool {
    let s = t0.widgets@;
    let consumed = match t0.focus_index {
        Some(c) => spec_w_consumes_traversal(s[c as int].widget),
        None => false,
    };
    if input.focus_next && !consumed {
        if !has_focusable(s) {
            f1 is None
        } else {
            f1 matches Some(ni) && (match t0.focus_index {
                Some(cur) => {
                    if exists|j: int| 0 <= j < s.len() && spec_w_focusable(
                        #[trigger] s[j].widget) && focus_lt(focus_pair(s, cur as int),
                        focus_pair(s, j)) {
                        is_successor(s, cur as int, ni as int)
                    } else {
                        is_first_focusable(s, ni as int)
                    }
                },
                None => is_first_focusable(s, ni as int),
            })
        }
    } else if !input.focus_next && input.focus_prev && !consumed {
        if !has_focusable(s) {
            f1 is None
        } else {
            f1 matches Some(ni) && (match t0.focus_index {
                Some(cur) => {
                    if exists|j: int| 0 <= j < s.len() && spec_w_focusable(
                        #[trigger] s[j].widget) && focus_lt(focus_pair(s, j), focus_pair(
                        s, cur as int)) {
                        is_predecessor(s, cur as int, ni as int)
                    } else {
                        is_last_focusable(s, ni as int)
                    }
                },
                None => is_last_focusable(s, ni as int),
            })
        }
    } else {
        f1 == t0.focus_index
    }
}

/// One frame of a widget: leaves run their own state machine; a panel or
/// field hands its inset area to its nested tree and recurses.
#[verifier::rlimit(100)]
#[verifier::spinoff_prover]
fn w_draw(w: &mut WidgetBox, input: &PointerState, clip: &mut Clipboard)
    -> (events: Vec<UiEvent>)
    requires
        w_wf(*old(w)),
        input.wf(),
    ensures
        w_wf(*final(w)),
        spec_w_rect(*final(w)) == spec_w_rect(*old(w)),
        spec_w_focusable(*final(w)) == spec_w_focusable(*old(w)),
    decreases wheight(*old(w)),
{
    match w {
        WidgetBox::Button(x) => x.draw(input),
        WidgetBox::Checkbox(x) => x.draw(input),
        WidgetBox::Container(x) => x.draw(input),
        WidgetBox::FormField(x) => {
            let pad: i64 = x.style.padding;
            let width_raw: i64 = x.rect.width - 2 * pad;
            let field_top: i64 = padd(x.rect.y, x.style.label_height + x.style.spacing);
            let helper_top_rel: i64 = x.rect.height - x.style.helper_height;
            let field_height_raw: i64 = helper_top_rel - x.style.helper_height
                + x.style.helper_height - x.style.spacing - x.style.label_height
                - x.style.spacing;
            let field_height: i64 = if field_height_raw > 0 {
                field_height_raw
            } else {
                0
            };
            let area = Rect {
                x: padd(x.rect.x, pad),
                y: padd(x.rect.y, x.style.label_height + x.style.spacing + pad),
                width: if width_raw > 0 {
                    width_raw
                } else {
                    0
                },
                height: {
                    let inner_h: i64 = field_height - 2 * pad;
                    if inner_h > 0 {
                        inner_h
                    } else {
                        0
                    }
                },
            };
            proof {
                assert(area == x.spec_child_area());
            }
            x.child.set_area(area);
            if x.focused {
                x.child.draw(input, clip)
            } else {
                let muted = input.suppressed_keyboard_copy();
                x.child.draw(&muted, clip)
            }
        },
        WidgetBox::Label(x) => x.draw(input),
        WidgetBox::ListView(x) => x.draw(input),
        WidgetBox::Modal(x) => x.draw(input),
        WidgetBox::Panel(x) => {
            let width_raw: i64 = x.rect.width - x.padding.left - x.padding.right;
            let height_raw: i64 = x.rect.height - x.padding.top - x.padding.bottom;
            let area = Rect {
                x: padd(x.rect.x, x.padding.left),
                y: padd(x.rect.y, x.padding.top),
                width: if width_raw > 0 {
                    width_raw
                } else {
                    0
                },
                height: if height_raw > 0 {
                    height_raw
                } else {
                    0
                },
            };
            proof {
                assert(area == x.spec_child_area());
            }
            x.child.set_area(area);
            x.child.draw(input, clip)
        },
        WidgetBox::RadioGroup(x) => x.draw(input),
        WidgetBox::Select(x) => x.draw(input),
        WidgetBox::Slider(x) => x.draw(input),
        WidgetBox::Tabs(x) => x.draw(input),
        WidgetBox::TextInput(x) => x.draw(input, clip),
        WidgetBox::Toggle(x) => x.draw(input),
        WidgetBox::TriangleHero(x) => x.draw(input),
    }
}

impl UiTree {
    /// The traversal stage of a draw pass: a focus-next signal first offers
    /// the traversal to the focused entry's nested tree, then advances this
    /// tree's focus; focus-prev mirrors it backward.
    /// The traversal stage of a draw pass: a focus-next signal first offers
    /// the traversal to the focused entry's nested tree, then advances this
    /// tree's focus; focus-prev mirrors it backward.
    fn nav_stage(&mut self, input: &PointerState)
        requires
            t_wf(*old(self)),
            input.wf(),
        ensures
            t_wf(*final(self)),
            final(self).widgets@.len() == old(self).widgets@.len(),
            final(self).area == old(self).area,
            final(self).gap == old(self).gap,
            final(self).direction == old(self).direction,
            final(self).padding == old(self).padding,
            final(self).align_items == old(self).align_items,
            forall|k: int| 0 <= k < old(self).widgets@.len() ==> {
                let e0 = old(self).widgets@[k];
                let e1 = #[trigger] final(self).widgets@[k];
                &&& e1.key == e0.key
                &&& e1.layout == e0.layout
                &&& e1.focus_order == e0.focus_order
                &&& entry_wf(e1)
                &&& spec_w_focusable(e1.widget) == spec_w_focusable(e0.widget)
                &&& wheight(e1.widget) == wheight(e0.widget)
            },
            spec_nav_ok(*old(self), *input, final(self).focus_index),
            theight(*final(self)) == theight(*old(self)),
    {
        if input.focus_next {
            self.nav_next_arm(input);
        } else if input.focus_prev {
            self.nav_prev_arm(input);
        } else {
            proof {
                let t0 = *self;
                assert forall|k: int| 0 <= k < self.widgets@.len() implies entry_wf(
                    #[trigger] self.widgets@[k]) by {
                    lemma_entries_wf_index(self.widgets@, k);
                }
                assert(spec_nav_ok(t0, *input, self.focus_index));
            }
        }
    }

    /// The forward arm of the traversal stage.
    #[verifier::rlimit(100)]
    #[verifier::spinoff_prover]
    fn nav_next_arm(&mut self, input: &PointerState)
        requires
            t_wf(*old(self)),
            input.wf(),
            input.focus_next,
        ensures
            t_wf(*final(self)),
            final(self).widgets@.len() == old(self).widgets@.len(),
            final(self).area == old(self).area,
            final(self).gap == old(self).gap,
            final(self).direction == old(self).direction,
            final(self).padding == old(self).padding,
            final(self).align_items == old(self).align_items,
            forall|k: int| 0 <= k < old(self).widgets@.len() ==> {
                let e0 = old(self).widgets@[k];
                let e1 = #[trigger] final(self).widgets@[k];
                &&& e1.key == e0.key
                &&& e1.layout == e0.layout
                &&& e1.focus_order == e0.focus_order
                &&& entry_wf(e1)
                &&& spec_w_focusable(e1.widget) == spec_w_focusable(e0.widget)
                &&& wheight(e1.widget) == wheight(e0.widget)
            },
            spec_nav_ok(*old(self), *input, final(self).focus_index),
            theight(*final(self)) == theight(*old(self)),
    {
        let ghost t0 = *self;
        let consumed = self.focus_next_in_focused_child();
        if !consumed {
            self.focus_next();
        } else if input.focus_prev {
            let consumed_again = self.focus_prev_in_focused_child();
            proof {
                assert(consumed_again);
            }
        }
        proof {
            assert forall|k: int| 0 <= k < self.widgets@.len() implies entry_wf(
                #[trigger] self.widgets@[k]) && entry_wf(t0.widgets@[k]) by {
                lemma_entries_wf_index(self.widgets@, k);
                lemma_entries_wf_index(t0.widgets@, k);
            }
            assert(same_focus_shape(t0.widgets@, self.widgets@));
            lemma_focus_shape_preds(t0.widgets@, self.widgets@);
            lemma_eheight_congruent(t0.widgets@, self.widgets@);
            assert(spec_nav_ok(t0, *input, self.focus_index));
        }
    }

    /// The backward arm of the traversal stage.
    #[verifier::rlimit(100)]
    #[verifier::spinoff_prover]
    fn nav_prev_arm(&mut self, input: &PointerState)
        requires
            t_wf(*old(self)),
            input.wf(),
            !input.focus_next,
            input.focus_prev,
        ensures
            t_wf(*final(self)),
            final(self).widgets@.len() == old(self).widgets@.len(),
            final(self).area == old(self).area,
            final(self).gap == old(self).gap,
            final(self).direction == old(self).direction,
            final(self).padding == old(self).padding,
            final(self).align_items == old(self).align_items,
            forall|k: int| 0 <= k < old(self).widgets@.len() ==> {
                let e0 = old(self).widgets@[k];
                let e1 = #[trigger] final(self).widgets@[k];
                &&& e1.key == e0.key
                &&& e1.layout == e0.layout
                &&& e1.focus_order == e0.focus_order
                &&& entry_wf(e1)
                &&& spec_w_focusable(e1.widget) == spec_w_focusable(e0.widget)
                &&& wheight(e1.widget) == wheight(e0.widget)
            },
            spec_nav_ok(*old(self), *input, final(self).focus_index),
            theight(*final(self)) == theight(*old(self)),
    {
        let ghost t0 = *self;
        if !self.focus_prev_in_focused_child() {
            self.focus_prev();
        }
        proof {
            assert forall|k: int| 0 <= k < self.widgets@.len() implies entry_wf(
                #[trigger] self.widgets@[k]) && entry_wf(t0.widgets@[k]) by {
                lemma_entries_wf_index(self.widgets@, k);
                lemma_entries_wf_index(t0.widgets@, k);
            }
            assert(same_focus_shape(t0.widgets@, self.widgets@));
            lemma_focus_shape_preds(t0.widgets@, self.widgets@);
            lemma_eheight_congruent(t0.widgets@, self.widgets@);
            assert(spec_nav_ok(t0, *input, self.focus_index));
        }
    }

    /// The per-entry stage of a draw pass, over rects already resolved from
    /// the pre-traversal state `t0`: hit-testing for focus, the focus flag,
    /// the rect, the widget's frame, and activation of the focused entry.
    fn process_entries(&mut self, Ghost(t0): Ghost<UiTree>, rects: &Vec<Rect>,
        input: &PointerState, clip: &mut Clipboard) -> (events: Vec<UiEvent>)
        requires
            input.wf(),
            old(self).widgets@.len() > 0,
            t0.widgets@.len() == old(self).widgets@.len(),
            rects@.len() == old(self).widgets@.len(),
            forall|k: int| 0 <= k < rects@.len() ==> #[trigger] rects@[k]
                == t0.spec_entry_rect(k),
            forall|k: int| 0 <= k < rects@.len() ==> (#[trigger] rects@[k]).wf(),
            forall|k: int| 0 <= k < old(self).widgets@.len() ==> entry_wf(
                #[trigger] old(self).widgets@[k]) && spec_w_focusable(
                old(self).widgets@[k].widget) == spec_w_focusable(t0.widgets@[k].widget),
            (old(self).focus_index matches Some(i) ==> (i as int) < old(self).widgets@.len()
                && spec_w_focusable(old(self).widgets@[i as int].widget)),
        ensures
            final(self).widgets@.len() == old(self).widgets@.len(),
            final(self).area == old(self).area,
            final(self).gap == old(self).gap,
            final(self).direction == old(self).direction,
            final(self).padding == old(self).padding,
            final(self).align_items == old(self).align_items,
            forall|k: int| 0 <= k < old(self).widgets@.len() ==> {
                let e0 = old(self).widgets@[k];
                let e1 = #[trigger] final(self).widgets@[k];
                &&& e1.key == e0.key
                &&& e1.layout == e0.layout
                &&& e1.focus_order == e0.focus_order
                &&& entry_wf(e1)
            },
            forall|k: int| 0 <= k < old(self).widgets@.len() ==> spec_w_rect(
                (#[trigger] final(self).widgets@[k]).widget) == t0.spec_entry_rect(k),
            final(self).focus_index == t0.spec_hit_focus(*input,
                old(self).widgets@.len() as int, old(self).focus_index),
            (final(self).focus_index matches Some(i) ==> (i as int)
                < final(self).widgets@.len() && spec_w_focusable(
                final(self).widgets@[i as int].widget)),
        decreases theight(*old(self)), 0int,
    {
        let ghost t1 = *old(self);
        let ghost f1 = old(self).focus_index;
        let mut events: Vec<UiEvent> = Vec::new();
        let n = self.widgets.len();
        let mut i: usize = 0;
        while i < n
            invariant
                t1 == *old(self),
                input.wf(),
                n == self.widgets@.len(),
                n == t0.widgets@.len(),
                n == t1.widgets@.len(),
                n > 0,
                0 <= i <= n,
                f1 == t1.focus_index,
                rects@.len() == n,
                forall|k: int| 0 <= k < n ==> #[trigger] rects@[k] == t0.spec_entry_rect(k),
                forall|k: int| 0 <= k < n ==> (#[trigger] rects@[k]).wf(),
                self.area == t1.area && self.gap == t1.gap && self.direction == t1.direction
                    && self.padding == t1.padding && self.align_items == t1.align_items,
                forall|k: int| i <= k < n ==> #[trigger] self.widgets@[k] == t1.widgets@[k],
                forall|k: int| 0 <= k < n ==> {
                    let e0 = t1.widgets@[k];
                    let e1 = #[trigger] self.widgets@[k];
                    &&& e1.key == e0.key
                    &&& e1.layout == e0.layout
                    &&& e1.focus_order == e0.focus_order
                    &&& entry_wf(e1)
                },
                forall|k: int| 0 <= k < n ==> spec_w_focusable(
                    (#[trigger] t1.widgets@[k]).widget) == spec_w_focusable(
                    t0.widgets@[k].widget),
                forall|k: int| 0 <= k < i ==> spec_w_rect(
                    (#[trigger] self.widgets@[k]).widget) == t0.spec_entry_rect(k),
                self.focus_index == t0.spec_hit_focus(*input, i as int, f1),
                (self.focus_index matches Some(fi) ==> (fi as int) < n && spec_w_focusable(
                    self.widgets@[fi as int].widget)),
            decreases n - i,
        {
            proof {
                lemma_eheight_bound(t1.widgets@, i as int);
                assert(wheight(self.widgets@[i as int].widget) < theight(t1));
            }
            let rect = rects[i];
            let hit = (input.just_pressed || input.just_released) && rect.contains(
                input.x, input.y) && w_focusable(&self.widgets[i].widget);
            if hit {
                self.focus_index = Some(i);
            }
            let is_focused: bool = match self.focus_index {
                Some(f) => f == i,
                None => false,
            };
            let activate_here: bool = input.activate_primary && is_focused;
            let w = &mut self.widgets[i].widget;
            proof {
                lemma_wheight_stable(*w, is_focused, rect);
            }
            w_set_focused(w, is_focused);
            proof {
                lemma_wheight_stable(*w, is_focused, rect);
            }
            w_set_rect(w, rect);
            proof {
                assert(wheight(*w) < theight(t1));
            }
            let mut child_events = w_draw(w, input, clip);
            events.append(&mut child_events);
            if activate_here {
                let w2 = &mut self.widgets[i].widget;
                if let Some(event) = w_activate(w2) {
                    events.push(event);
                }
            }
            i = i + 1;
        }
        events
    }

    /// One draw pass: keyboard traversal (delegated first to the focused
    /// entry's nested tree), fresh layout, then per entry in order: pointer
    /// hit-testing for focus, the focus flag, the resolved rect, the
    /// widget's own frame, and activation of the focused entry.  Bubbled
    /// events are collected in traversal order.
    pub fn draw(&mut self, input: &PointerState, clip: &mut Clipboard)
        -> (events: Vec<UiEvent>)
        requires
            t_wf(*old(self)),
            input.wf(),
        ensures
            t_wf(*final(self)),
            final(self).widgets@.len() == old(self).widgets@.len(),
            final(self).area == old(self).area,
            final(self).gap == old(self).gap,
            final(self).direction == old(self).direction,
            final(self).padding == old(self).padding,
            final(self).align_items == old(self).align_items,
            forall|k: int| 0 <= k < old(self).widgets@.len() ==> {
                let e0 = old(self).widgets@[k];
                let e1 = #[trigger] final(self).widgets@[k];
                &&& e1.key == e0.key
                &&& e1.layout == e0.layout
                &&& e1.focus_order == e0.focus_order
            },
            old(self).widgets@.len() == 0 ==> *final(self) == *old(self) && events@.len() == 0,
            old(self).widgets@.len() > 0 ==> {
                &&& forall|k: int| 0 <= k < old(self).widgets@.len() ==> spec_w_rect(
                    (#[trigger] final(self).widgets@[k]).widget) == old(self).spec_entry_rect(k)
                &&& exists|f1: Option<usize>| spec_nav_ok(*old(self), *input, f1)
                    && final(self).focus_index == old(self).spec_hit_focus(*input,
                    old(self).widgets@.len() as int, f1)
            },
        decreases theight(*old(self)), 1int,
    {
        let ghost t0 = *self;
        if self.widgets.len() == 0 {
            return Vec::new();
        }
        let rects = self.layout_rects();
        self.nav_stage(input);
        let ghost f1 = self.focus_index;
        proof {
            assert(theight(*self) == theight(t0));
        }
        let events = self.process_entries(Ghost(t0), &rects, input, clip);
        proof {
            assert forall|k: int| 0 <= k < self.widgets@.len() implies entry_wf(
                #[trigger] self.widgets@[k]) by {}
            lemma_entries_wf_all(self.widgets@);
            assert(spec_nav_ok(t0, *input, f1) && self.focus_index == t0.spec_hit_focus(
                *input, t0.widgets@.len() as int, f1));
        }
        events
    }
}

} // verus!
