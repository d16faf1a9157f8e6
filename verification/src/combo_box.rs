//! # Combo Box Widget
//!
//! A drop-down selector: a box showing the selected entry and an arrow; a release on it opens a
//! popup listing the entries as buttons, and pressing one selects it.

use crate::button::{button_size, is_down, is_release, Button};
use crate::draw::{DrawCommand, Icon, PrimitiveStyle, TextBaseline};
use crate::geometry::{coord, spec_contains, Point, Rectangle, Size};
use crate::smartstate::{after_set, needs_redraw, update_smartstate, Container, Smartstate};
use crate::style::{fitting_prefix_len, slice_text_by_width, Spacing, Style};
use crate::text::{measurable, measure_text, text_size};
use crate::slider::trunc_div;
use crate::ui::{after_new_row, lemma_new_row_in_order, lemma_place_in_order, placed_before, placer_new_row, lemma_prefix_trans, PopupState, placer_next, popup_inner_bounds, shifted_for_popup, translated, Placer};
use crate::ui::{allocation, checked_size, spec_checked_size, GuiError, GuiResult, Interaction, Response, Ui, Widget, MAX_ORIGIN};
use crate::geometry::MAX_EXTENT;
use vstd::prelude::*;

verus! {

broadcast use crate::smartstate::lemma_spec_state;

/// Where a combo box keeps its selection: the selected text itself, or the index of the
/// selected entry.
pub enum Selector<'a, 'b> {
    Text(&'a mut &'b str),
    Index(&'a mut usize),
}

impl<'a, 'b> Selector<'a, 'b> {
    /// The selection is one of `contents`: its text is one of the entries, or its index is in
    /// range.
    pub open spec fn selects_one_of<'c>(&self, contents: Seq<&'c str>) -> bool {
        match *self {
            Selector::Text(p) => exists|i: int| 0 <= i < contents.len() && *p == #[trigger] contents[i],
            Selector::Index(p) => *p < contents.len(),
        }
    }

    /// The selector holds the entry at `i` of `contents`: its text, or its index.
    pub open spec fn selects_entry<'c>(&self, contents: Seq<&'c str>, i: int) -> bool {
        match *self {
            Selector::Text(p) => *p == contents[i],
            Selector::Index(p) => *p == i,
        }
    }

    /// Both selectors are of the same kind and hold the same selection.
    pub open spec fn same_selection(&self, other: Selector<'a, 'b>) -> bool {
        match (*self, other) {
            (Selector::Text(p), Selector::Text(q)) => *p == *q,
            (Selector::Index(p), Selector::Index(q)) => *p == *q,
            _ => false,
        }
    }
}

/// The size of a combo box showing text of size `text`: the text plus padding and border,
/// at least `min_height` tall, followed by a square for the arrow and the item spacing; a fixed
/// width replaces that width when it is at least the width without text.
pub open spec fn combo_size(fixed_width: u16, text: Size, pad: Size, border: u32, min_height: u32, item_spacing: u32) -> Result<Size, GuiError> {
    let h0 = text.height + 2 * pad.height + 2 * border;
    let h = if h0 >= min_height { h0 } else { min_height as int };
    let min_w = 2 * pad.width + 2 * border + h + item_spacing;
    let w = if fixed_width > 0 {
        if fixed_width >= min_w { fixed_width as int } else { min_w }
    } else {
        text.width + 2 * pad.width + 2 * border + h + item_spacing
    };
    spec_checked_size(w, h)
}

/// The width of a combo box without text at the default widget height.
pub open spec fn combo_min_width<COL>(style: Style<COL>) -> int {
    2 * style.spacing.button_padding.width + 2 * style.border_width + style.default_widget_height
        + style.spacing.item_spacing.width
}

/// `shown` is what a combo box of fixed width `fixed_width` shows of the selected text: all
/// of it without a fixed width; otherwise the longest prefix that fits in what is left of the
/// width beside the padding, border and arrow (nothing when nothing is left).
pub open spec fn shown_text_ok<COL>(fixed_width: u16, style: Style<COL>, selected: Seq<char>, shown: Seq<char>) -> bool {
    if fixed_width == 0 {
        shown == selected
    } else if fixed_width > combo_min_width(style) {
        exists|k: int| fitting_prefix_len(selected, style.default_font, (fixed_width - combo_min_width(style)) as u32, k)
            && shown == selected.take(k)
    } else {
        shown == Seq::<char>::empty()
    }
}

/// The smartstate id of a combo box's look: 1 when idle, 2 when hovered, 3 otherwise.
pub open spec fn combo_state_id(i: Interaction) -> u32 {
    match i {
        Interaction::Idle => 1,
        Interaction::Hover(_) => 2,
        _ => 3,
    }
}

/// A combo box over the entries `contents`.
pub struct ComboBox<'a, 'b, 'c> where 'b: 'a, 'c: 'a, 'c: 'b {
    pub selected: Selector<'a, 'b>,
    pub smartstate: Container<'a, Smartstate>,
    pub corner_radius: Option<u32>,
    pub width: u16,
    pub contents: &'a [&'c str],
}

impl<'a, 'b, 'c> ComboBox<'a, 'b, 'c> where 'b: 'a, 'c: 'a, 'c: 'b {
    pub open spec fn selector(&self) -> Selector<'a, 'b> {
        self.selected
    }

    pub open spec fn contents(&self) -> Seq<&'c str> {
        self.contents@
    }

    pub open spec fn smartstate_spec(&self) -> Container<'a, Smartstate> {
        self.smartstate
    }

    pub open spec fn corner_radius(&self) -> Option<u32> {
        self.corner_radius
    }

    pub open spec fn fixed_width(&self) -> u16 {
        self.width
    }

    /// The text of the selection: the text selector's text, or the entry at the index
    /// (empty past the end).
    pub open spec fn selected_text(&self) -> &'b str {
        match self.selector() {
            Selector::Text(p) => *p,
            Selector::Index(i) => if *i < self.contents().len() {
                self.contents()[*i as int]
            } else {
                ""
            },
        }
    }

    /// A combo box for the selection `selected` over `contents`, sized to its text, with the
    /// style's corner radius and no smartstate.
    pub fn new(selected: Selector<'a, 'b>, contents: &'a [&'c str]) -> (c: ComboBox<'a, 'b, 'c>)
        ensures
            c.selector() == selected,
            c.contents() == contents@,
            c.smartstate_spec().inner() is None,
            c.corner_radius() is None,
            c.fixed_width() == 0,
    {
        ComboBox { selected, smartstate: Container::empty(), corner_radius: None, width: 0, contents }
    }

    /// Gives the combo box a fixed width; the shown text is shortened to fit.
    pub fn with_width(self, width: u16) -> (c: Self)
        ensures
            c.fixed_width() == width,
            c.selector() == self.selector(),
            c.contents() == self.contents(),
            c.smartstate_spec() == self.smartstate_spec(),
            c.corner_radius() == self.corner_radius(),
    {
        let mut c = self;
        c.width = width;
        c
    }

    /// Adds smartstate support: the box then only redraws when its look changes.
    pub fn smartstate(self, smartstate: &'a mut Smartstate) -> (c: Self)
        ensures
            c.smartstate_spec().inner() == Some(*old(smartstate)),
            c.smartstate_spec().target() matches Some(r) && *final(r) == *final(smartstate),
            c.selector() == self.selector(),
            c.contents() == self.contents(),
            c.corner_radius() == self.corner_radius(),
            c.fixed_width() == self.fixed_width(),
    {
        let mut c = self;
        c.smartstate.set(smartstate);
        c
    }

    /// Rounds the box's corners with `radius` in place of the style's corner radius.
    pub fn with_radius(self, radius: u32) -> (c: Self)
        ensures
            c.corner_radius() == Some(radius),
            c.selector() == self.selector(),
            c.contents() == self.contents(),
            c.smartstate_spec() == self.smartstate_spec(),
            c.fixed_width() == self.fixed_width(),
    {
        let mut c = self;
        c.corner_radius = Some(radius);
        c
    }

    /// The size of the box when it shows `text` (see [`combo_size`]); a text too long to
    /// measure cannot be placed.
    fn get_size<COL: Copy>(&self, text: &str, style: &Style<COL>) -> (r: GuiResult<Size>)
        ensures
            !measurable(text, style.default_font) ==> r == Err::<Size, GuiError>(GuiError::NoSpaceLeft),
            measurable(text, style.default_font) ==> r == combo_size(
                self.fixed_width(),
                text_size(text@, style.default_font),
                style.spacing.button_padding,
                style.border_width,
                style.default_widget_height,
                style.spacing.item_spacing.width,
            ),
    {
        let ts = match measure_text(text, &style.default_font) {
            Some(ts) => ts,
            None => {
                return Err(GuiError::NoSpaceLeft);
            },
        };
        let padding = style.spacing.button_padding;
        let border = style.border_width as u64;
        let h0: u64 = ts.height as u64 + 2 * padding.height as u64 + 2 * border;
        let h: u64 = if h0 >= style.default_widget_height as u64 { h0 } else { style.default_widget_height as u64 };
        let min_w: u64 = 2 * padding.width as u64 + 2 * border + h + style.spacing.item_spacing.width as u64;
        let w: u64 = if self.width > 0 {
            if self.width as u64 >= min_w { self.width as u64 } else { min_w }
        } else {
            ts.width as u64 + 2 * padding.width as u64 + 2 * border + h + style.spacing.item_spacing.width as u64
        };
        checked_size(w, h)
    }

    /// The text of the selection (see [`ComboBox::selected_text`]).
    fn selected_text_exec(&self) -> (t: &'b str)
        ensures
            t == self.selected_text(),
    {
        match &self.selected {
            Selector::Text(p) => **p,
            Selector::Index(i) => {
                if **i < self.contents.len() {
                    self.contents[**i]
                } else {
                    ""
                }
            },
        }
    }

    /// Sets the selection to the entry at `idx`.
    fn select(&mut self, idx: usize)
        requires
            idx < old(self).contents().len(),
        ensures
            final(self).selector().selects_one_of(final(self).contents()),
            final(self).selector().selects_entry(old(self).contents(), idx as int),
            final(self).contents() == old(self).contents(),
            final(self).smartstate_spec() == old(self).smartstate_spec(),
            final(self).corner_radius() == old(self).corner_radius(),
            final(self).fixed_width() == old(self).fixed_width(),
            match (old(self).selector(), final(self).selector()) {
                (Selector::Text(p), Selector::Text(q)) => *final(p) == *final(q),
                (Selector::Index(p), Selector::Index(q)) => *final(p) == *final(q),
                _ => false,
            },
    {
        let item = self.contents[idx];
        match &mut self.selected {
            Selector::Text(p) => {
                **p = item;
            },
            Selector::Index(i) => {
                **i = idx;
            },
        }
    }
}

/// What the combo box shows of the selected text (see [`shown_text_ok`]).
fn shown_text<COL: Copy>(fixed_width: u16, selected: &str, style: &Style<COL>) -> (r: String)
    requires
        style.wf(),
    ensures
        shown_text_ok(fixed_width, *style, selected@, r@),
{
    let min_w: u64 = 2 * style.spacing.button_padding.width as u64 + 2 * style.border_width as u64
        + style.default_widget_height as u64 + style.spacing.item_spacing.width as u64;
    if fixed_width == 0 {
        selected.to_owned()
    } else if fixed_width as u64 > min_w {
        slice_text_by_width((fixed_width as u64 - min_w) as u32, selected, style)
    } else {
        String::new()
    }
}

/// The size in pixels of the arrow icon for a combo box of height `side`.
pub open spec fn arrow_size(side: u32) -> u32 {
    if side <= 18 {
        12
    } else if side <= 23 {
        18
    } else if side <= 32 {
        24
    } else {
        32
    }
}

/// The commands that draw a combo box in `area`: the rounded box, the shown text `t` inside the
/// padding and border, and the down arrow centered in the square of the default widget height
/// at the right end (two pixels up). Coordinates are truncated to `i32`.
pub open spec fn combo_items<COL>(style: Style<COL>, area: Rectangle, rect_style: PrimitiveStyle<COL>, radius: u32, t: String) -> Seq<DrawCommand<COL>> {
    let pad = style.spacing.button_padding;
    let b = style.border_width;
    let side = style.default_widget_height;
    let px = arrow_size(side);
    let icon_left = area.top_left.x + area.size.width - (pad.width + b + side);
    let icon_top = area.top_left.y + pad.height + b + trunc_div(side - px, 2);
    seq![
        DrawCommand::RoundedRect { rect: area, radius, style: rect_style },
        DrawCommand::Text {
            text: t,
            position: Point { x: (area.top_left.x + pad.width + b) as i32, y: (area.top_left.y + pad.height + b) as i32 },
            font: style.default_font,
            color: style.text_color,
            baseline: TextBaseline::Top,
            centered: false,
        },
        DrawCommand::Icon {
            icon: Icon { name: "navigation::NavArrowDown", size: px },
            top_left: Point { x: (icon_left + side / 2 - px / 2) as i32, y: (icon_top + side / 2 - 2 - px / 2) as i32 },
            color: style.text_color,
        },
    ]
}

/// The look of the combo box's box: the item colors with the border when idle, the highlight
/// colors when hovered, and the primary color with the highlight border otherwise.
pub open spec fn combo_rect_style<COL>(style: Style<COL>, inter: Interaction) -> PrimitiveStyle<COL> {
    match inter {
        Interaction::Idle => PrimitiveStyle {
            fill_color: Some(style.item_background_color),
            stroke_color: Some(style.border_color),
            stroke_width: style.border_width,
        },
        Interaction::Hover(_) => PrimitiveStyle {
            fill_color: Some(style.highlight_item_background_color),
            stroke_color: Some(style.highlight_border_color),
            stroke_width: style.highlight_border_width,
        },
        _ => PrimitiveStyle {
            fill_color: Some(style.primary_color),
            stroke_color: Some(style.highlight_border_color),
            stroke_width: style.highlight_border_width,
        },
    }
}

/// `after` holds what `before` held, then the combo box drawn in `area` for `inter` with the
/// corner `radius` and the text `shown`, then possibly more (the popup).
pub open spec fn combo_drawn<'a, COL: Copy>(
    before: Ui<'a, COL>,
    after: Ui<'a, COL>,
    area: Rectangle,
    inter: Interaction,
    radius: u32,
    shown: Seq<char>,
) -> bool {
    exists|t: String|
        #![trigger t@]
        t@ == shown && (before.commands() + before.framed(
            area,
            combo_items(before.style_spec(), area, combo_rect_style(before.style_spec(), inter), radius, t),
        )).is_prefix_of(after.commands())
}

/// Draws a combo box in `area`: the rounded box, the shown text and the arrow at the right end.
fn draw_combo<COL: Copy>(ui: &mut Ui<'_, COL>, area: Rectangle, rect_style: PrimitiveStyle<COL>, radius: u32, shown: &str)
    requires
        !old(ui).framebuf_active(),
    ensures
        exists|t: String| #![trigger t@] t@ == shown@ && final(ui).commands() == old(ui).commands() + old(ui).framed(
            area,
            combo_items(old(ui).style_spec(), area, rect_style, radius, t),
        ),
        final(ui).commands().len() > old(ui).commands().len(),
        !final(ui).framebuf_active(),
        final(ui).placer() == old(ui).placer(),
        final(ui).unchanged_frame(*old(ui)),
        final(ui).interaction() == old(ui).interaction(),
        final(ui).is_cleared() == old(ui).is_cleared(),
        final(ui).popup_showing() == old(ui).popup_showing(),
        final(ui).has_popup_layer() == old(ui).has_popup_layer(),
        final(ui).popup_state() == old(ui).popup_state(),
        final(ui).popup_interaction() == old(ui).popup_interaction(),
        final(ui).popup_buffer_len() == old(ui).popup_buffer_len(),
{
    let style = ui.style();
    let font = style.default_font;
    let text_color = style.text_color;
    let padding = style.spacing.button_padding;
    let border: i64 = style.border_width as i64;
    let side: u32 = style.default_widget_height;
    let left: i64 = area.top_left.x as i64;
    let top: i64 = area.top_left.y as i64;
    let icon_px: u32 = if side <= 18 {
        12
    } else if side <= 23 {
        18
    } else if side <= 32 {
        24
    } else {
        32
    };
    let icon_left: i64 = left + area.size.width as i64 - (padding.width as i64 + border + side as i64);
    let icon_top: i64 = top + padding.height as i64 + border + (side as i64 - icon_px as i64) / 2;
    ui.start_drawing(&area);
    let _ = ui.draw(DrawCommand::RoundedRect { rect: Rectangle::new(area.top_left, area.size), radius, style: rect_style });
    let t = shown.to_owned();
    let ghost tv = t;
    let _ = ui.draw(DrawCommand::Text {
        text: t,
        position: Point::new(coord(left + padding.width as i64 + border), coord(top + padding.height as i64 + border)),
        font,
        color: text_color,
        baseline: TextBaseline::Top,
        centered: false,
    });
    let _ = ui.draw(DrawCommand::Icon {
        icon: Icon::new("navigation::NavArrowDown", icon_px),
        top_left: Point::new(
            coord(icon_left + (side / 2) as i64 - (icon_px / 2) as i64),
            coord(icon_top + (side / 2) as i64 - 2 - (icon_px / 2) as i64),
        ),
        color: text_color,
    });
    let _ = ui.finalize();
    assert(ui.commands() =~= old(ui).commands() + old(ui).framed(area, combo_items(old(ui).style_spec(), area, rect_style, radius, tv)));
}

/// The style of the popup's entries: that of the UI, without item spacing between rows,
/// horizontal button padding, border or rounding.
pub open spec fn popup_style<COL>(st: Style<COL>) -> Style<COL> {
    Style {
        spacing: Spacing {
            item_spacing: Size { height: 0, ..st.spacing.item_spacing },
            button_padding: Size { width: 0, ..st.spacing.button_padding },
            ..st.spacing
        },
        border_width: 0,
        corner_radius: 0,
        ..st
    }
}

/// The width of the popup's entry buttons: the popup's `width` without the window border
/// padding `wbp` on both sides, truncated to 16 bits (0 when the padding takes it all).
pub open spec fn popup_item_width(width: u32, wbp: u32) -> u16 {
    if width >= 2 * wbp {
        (width - 2 * wbp) as u16
    } else {
        0
    }
}

/// One entry's button in a popup with the style `st`, whose area starts at `origin` and that
/// receives `inter` (and is no popup shown over it, unless `covered`): the placer after the
/// button and the new row that follows it, and whether `inter` released on the button.
pub open spec fn popup_entry_step<COL>(
    st: Style<COL>,
    origin: Point,
    inter: Interaction,
    covered: bool,
    p: Placer,
    label: &str,
    w: u16,
) -> (Placer, bool) {
    let font = st.default_font;
    let size = button_size(
        text_size(label@, font),
        st.spacing.button_padding,
        st.widget.normal.border_width,
        st.default_widget_height,
        Some(w),
    );
    if !measurable(label, font) || size is Err {
        (after_new_row(p, st), false)
    } else {
        let (q, placed) = placer_next(p, size->Ok_0);
        match placed {
            Ok(rect) => (
                after_new_row(q, st),
                !covered && (inter matches Interaction::Release(pt) && spec_contains(translated(rect, origin), pt)),
            ),
            Err(_) => (after_new_row(q, st), false),
        }
    }
}

/// The entry that a popup picks: going through `items` from the `i`-th on, each a button `w`
/// wide, while the layout has room for another (three steps), the last one that `inter`
/// released on, or `chosen` when there is none.
pub open spec fn popup_pick<COL>(
    st: Style<COL>,
    origin: Point,
    inter: Interaction,
    covered: bool,
    p: Placer,
    items: Seq<&str>,
    w: u16,
    i: int,
    chosen: Option<usize>,
) -> Option<usize>
    decreases items.len() - i,
{
    if i < 0 || i >= items.len() || !p.room(3) {
        chosen
    } else {
        let (q, hit) = popup_entry_step(st, origin, inter, covered, p, items[i], w);
        popup_pick(st, origin, inter, covered, q, items, w, i + 1, if hit { Some(i as usize) } else { chosen })
    }
}

/// The placer before the `i`-th entry of a popup whose first entry starts at `p` (see
/// [`popup_entry_step`]).
pub open spec fn popup_placer<COL>(
    st: Style<COL>,
    origin: Point,
    inter: Interaction,
    covered: bool,
    p: Placer,
    items: Seq<&str>,
    w: u16,
    i: int,
) -> Placer
    decreases i,
{
    if i <= 0 {
        p
    } else {
        popup_entry_step(st, origin, inter, covered, popup_placer(st, origin, inter, covered, p, items, w, i - 1), items[i - 1], w).0
    }
}

/// What the walk from the `i`-th entry on picks is what it was given, or an entry from the
/// `i`-th on whose button the release landed on.
proof fn lemma_pick_was_released_on<COL>(
    st: Style<COL>,
    origin: Point,
    inter: Interaction,
    covered: bool,
    p0: Placer,
    items: Seq<&str>,
    w: u16,
    i: int,
    chosen: Option<usize>,
)
    requires
        0 <= i,
        items.len() <= usize::MAX,
    ensures
        popup_pick(st, origin, inter, covered, popup_placer(st, origin, inter, covered, p0, items, w, i), items, w, i, chosen)
            matches Some(k) ==> chosen == Some(k) || (i <= k < items.len() && popup_entry_step(
            st,
            origin,
            inter,
            covered,
            popup_placer(st, origin, inter, covered, p0, items, w, k as int),
            items[k as int],
            w,
        ).1),
    decreases items.len() - i,
{
    let p = popup_placer(st, origin, inter, covered, p0, items, w, i);
    if i < items.len() && p.room(3) {
        let (q, hit) = popup_entry_step(st, origin, inter, covered, p, items[i], w);
        let next = if hit { Some(i as usize) } else { chosen };
        assert(popup_placer(st, origin, inter, covered, p0, items, w, i + 1) == q);
        assert(popup_pick(st, origin, inter, covered, p, items, w, i, chosen) == popup_pick(
            st,
            origin,
            inter,
            covered,
            q,
            items,
            w,
            i + 1,
            next,
        ));
        lemma_pick_was_released_on(st, origin, inter, covered, p0, items, w, i + 1, next);
        if hit {
            assert((i as usize) as int == i);
        }
    } else {
        assert(popup_pick(st, origin, inter, covered, p, items, w, i, chosen) == chosen);
    }
}

/// A popup picks the entry whose button the release landed on: when it picks the `i`-th entry,
/// that entry is one of the items, and the release landed on its button (as it was placed after
/// the entries before it); when no release lands on any entry's button, it picks nothing.
pub proof fn law_popup_picks_released_entry<COL>(
    st: Style<COL>,
    origin: Point,
    inter: Interaction,
    covered: bool,
    p0: Placer,
    items: Seq<&str>,
    w: u16,
)
    requires
        items.len() <= usize::MAX,
    ensures
        popup_pick(st, origin, inter, covered, p0, items, w, 0, None) matches Some(i) ==> i < items.len()
            && popup_entry_step(
            st,
            origin,
            inter,
            covered,
            popup_placer(st, origin, inter, covered, p0, items, w, i as int),
            items[i as int],
            w,
        ).1,
        (forall|k: int|
            0 <= k < items.len() ==> !(#[trigger] popup_entry_step(
                st,
                origin,
                inter,
                covered,
                popup_placer(st, origin, inter, covered, p0, items, w, k),
                items[k],
                w,
            ).1)) ==> popup_pick(st, origin, inter, covered, p0, items, w, 0, None) is None,
{
    lemma_pick_was_released_on(st, origin, inter, covered, p0, items, w, 0, None);
    assert(popup_placer(st, origin, inter, covered, p0, items, w, 0) == p0);
}

/// An entry step keeps the placer well formed, uses three steps of room and keeps the reading
/// order: a point before the placer stays before it, and a release on the entry's button lands
/// at a point that was not before the placer and is before it afterwards.
proof fn lemma_entry_step_in_order<COL>(
    st: Style<COL>,
    origin: Point,
    inter: Interaction,
    covered: bool,
    p: Placer,
    label: &str,
    w: u16,
    pt: Point,
    k: int,
)
    requires
        p.wf(),
        p.room(k),
        k >= 3,
        st.spacing.item_spacing.height <= MAX_EXTENT,
        st.default_widget_height <= MAX_EXTENT,
        -MAX_ORIGIN <= origin.x <= MAX_ORIGIN,
        -MAX_ORIGIN <= origin.y <= MAX_ORIGIN,
    ensures
        popup_entry_step(st, origin, inter, covered, p, label, w).0.wf(),
        popup_entry_step(st, origin, inter, covered, p, label, w).0.room(k - 3),
        placed_before(pt, p, origin) ==> placed_before(pt, popup_entry_step(st, origin, inter, covered, p, label, w).0, origin),
        popup_entry_step(st, origin, inter, covered, p, label, w).1 && inter == Interaction::Release(pt) ==> !placed_before(
            pt,
            p,
            origin,
        ) && placed_before(pt, popup_entry_step(st, origin, inter, covered, p, label, w).0, origin),
{
    let font = st.default_font;
    let size = button_size(
        text_size(label@, font),
        st.spacing.button_padding,
        st.widget.normal.border_width,
        st.default_widget_height,
        Some(w),
    );
    let q = if !measurable(label, font) || size is Err { p } else { placer_next(p, size->Ok_0).0 };
    if !(!measurable(label, font) || size is Err) {
        lemma_place_in_order(p, size->Ok_0, origin, pt);
    }
    let h1 = st.spacing.item_spacing.height;
    lemma_new_row_in_order(q, h1, origin, pt);
    lemma_new_row_in_order(placer_new_row(q, h1), st.default_widget_height, origin, pt);
}

/// The placer before the `i`-th entry is well formed with room for the entries left.
proof fn lemma_popup_placer_wf<COL>(
    st: Style<COL>,
    origin: Point,
    inter: Interaction,
    covered: bool,
    p0: Placer,
    items: Seq<&str>,
    w: u16,
    i: int,
    pt: Point,
)
    requires
        p0.wf(),
        p0.room(3 * items.len() as int),
        st.spacing.item_spacing.height <= MAX_EXTENT,
        st.default_widget_height <= MAX_EXTENT,
        -MAX_ORIGIN <= origin.x <= MAX_ORIGIN,
        -MAX_ORIGIN <= origin.y <= MAX_ORIGIN,
        0 <= i <= items.len(),
    ensures
        popup_placer(st, origin, inter, covered, p0, items, w, i).wf(),
        popup_placer(st, origin, inter, covered, p0, items, w, i).room(3 * (items.len() - i)),
    decreases i,
{
    if i > 0 {
        lemma_popup_placer_wf(st, origin, inter, covered, p0, items, w, i - 1, pt);
        let pi = popup_placer(st, origin, inter, covered, p0, items, w, i - 1);
        lemma_entry_step_in_order(st, origin, inter, covered, pi, items[i - 1], w, pt, 3 * (items.len() - (i - 1)));
    }
}

/// A point before the placer before the `a`-th entry stays before the placers of later entries.
proof fn lemma_popup_before_stays<COL>(
    st: Style<COL>,
    origin: Point,
    inter: Interaction,
    covered: bool,
    p0: Placer,
    items: Seq<&str>,
    w: u16,
    a: int,
    b: int,
    pt: Point,
)
    requires
        p0.wf(),
        p0.room(3 * items.len() as int),
        st.spacing.item_spacing.height <= MAX_EXTENT,
        st.default_widget_height <= MAX_EXTENT,
        -MAX_ORIGIN <= origin.x <= MAX_ORIGIN,
        -MAX_ORIGIN <= origin.y <= MAX_ORIGIN,
        0 <= a <= b <= items.len(),
        placed_before(pt, popup_placer(st, origin, inter, covered, p0, items, w, a), origin),
    ensures
        placed_before(pt, popup_placer(st, origin, inter, covered, p0, items, w, b), origin),
    decreases b - a,
{
    if a < b {
        lemma_popup_placer_wf(st, origin, inter, covered, p0, items, w, a, pt);
        let pa = popup_placer(st, origin, inter, covered, p0, items, w, a);
        lemma_entry_step_in_order(st, origin, inter, covered, pa, items[a], w, pt, 3 * (items.len() - a));
        lemma_popup_before_stays(st, origin, inter, covered, p0, items, w, a + 1, b, pt);
    }
}

/// A release lands on the button of at most one entry of a popup: the entries are laid out one
/// below the other, so two different entries are never both released on.
pub proof fn law_release_hits_one_entry<COL>(
    st: Style<COL>,
    origin: Point,
    inter: Interaction,
    covered: bool,
    p0: Placer,
    items: Seq<&str>,
    w: u16,
    i: int,
    j: int,
)
    requires
        p0.wf(),
        p0.room(3 * items.len() as int),
        st.spacing.item_spacing.height <= MAX_EXTENT,
        st.default_widget_height <= MAX_EXTENT,
        -MAX_ORIGIN <= origin.x <= MAX_ORIGIN,
        -MAX_ORIGIN <= origin.y <= MAX_ORIGIN,
        0 <= i < j < items.len(),
    ensures
        !(popup_entry_step(st, origin, inter, covered, popup_placer(st, origin, inter, covered, p0, items, w, i), items[i], w).1
            && popup_entry_step(st, origin, inter, covered, popup_placer(st, origin, inter, covered, p0, items, w, j), items[j], w).1),
{
    let pi = popup_placer(st, origin, inter, covered, p0, items, w, i);
    let pj = popup_placer(st, origin, inter, covered, p0, items, w, j);
    if popup_entry_step(st, origin, inter, covered, pi, items[i], w).1 && popup_entry_step(st, origin, inter, covered, pj, items[j], w).1 {
        let pt = inter->Release_0;
        lemma_popup_placer_wf(st, origin, inter, covered, p0, items, w, i, pt);
        lemma_popup_placer_wf(st, origin, inter, covered, p0, items, w, j, pt);
        lemma_entry_step_in_order(st, origin, inter, covered, pi, items[i], w, pt, 3 * (items.len() - i));
        lemma_entry_step_in_order(st, origin, inter, covered, pj, items[j], w, pt, 3 * (items.len() - j));
        lemma_popup_before_stays(st, origin, inter, covered, p0, items, w, i + 1, j, pt);
    }
}

/// The entry that a popup opened at `top_left`, `width` wide, picks from `items`, with a popup
/// layer (`layer`) whose buffer holds `buffer_len` pixels, in a UI of style `st`, the popup
/// receiving `inter`: none when no popup can be opened (a width of zero in 16 bits, or no popup
/// layer), else the last entry released on in the popup's layout (see [`popup_pick`]).
pub open spec fn popup_choice_of<'c, COL>(
    layer: bool,
    buffer_len: nat,
    st: Style<COL>,
    inter: Interaction,
    top_left: Point,
    width: u32,
    items: Seq<&'c str>,
) -> Option<usize> {
    if width as u16 == 0 || !layer {
        None
    } else {
        let b = popup_inner_bounds(top_left, width as u16, buffer_len, st);
        popup_pick(
            popup_style(st),
            b.top_left,
            inter,
            false,
            Placer::spec_new(b.size),
            items,
            popup_item_width(width, st.spacing.window_border_padding.width),
            0,
            None,
        )
    }
}

/// The entry that the popup of `ui`, opened at `top_left` and `width` wide, picks from `items`.
pub open spec fn popup_choice<'a, 'c, COL: Copy>(ui: Ui<'a, COL>, top_left: Point, width: u32, items: Seq<&'c str>) -> Option<usize> {
    popup_choice_of(ui.popup_state() is Some, ui.popup_buffer_len(), ui.style_spec(), ui.popup_interaction(), top_left, width, items)
}

/// Where a combo box of full size `full` (for its selected entry) that the placer of `ui` is at
/// opens its popup: below it, moved in by the window border padding, or, when the popup would
/// reach past the right edge, at the left edge one more row down.
pub open spec fn combo_popup_origin<'a, COL: Copy>(ui: Ui<'a, COL>, full: Size) -> (int, int) {
    let wbp = ui.style_spec().spacing.window_border_padding.width;
    let pos = ui.placer().pos;
    if pos.x + wbp + full.width > ui.placer().bounds.width {
        (wbp as int, pos.y + wbp + 2 * full.height)
    } else {
        (pos.x + wbp, pos.y + wbp + full.height)
    }
}

/// The entry that a combo box at column `col` and row `row` picks through its popup at `(x, y)`,
/// `width` wide, in a UI of style `st` with the interaction `ui_inter`, whose popup layer has
/// the state `state`, a buffer of `buffer_len` pixels and receives `popup_inter`. The popup
/// opens on a release on the box (`released`), or when the popup layer shows this box's popup,
/// which then receives the UI's interaction moved by the popup's offset; and only where the
/// position is within range. It then picks as [`popup_choice_of`] says; otherwise nothing is
/// picked.
pub open spec fn combo_pick_of<'c, COL>(
    state: Option<PopupState>,
    buffer_len: nat,
    st: Style<COL>,
    popup_inter: Interaction,
    ui_inter: Interaction,
    col: u32,
    row: u32,
    x: int,
    y: int,
    width: u32,
    released: bool,
    items: Seq<&'c str>,
) -> Option<usize> {
    let shows = state matches Some(ps) && ps.showing() && ps.opened_at() == (col, row);
    let inter = if released {
        popup_inter
    } else {
        shifted_for_popup(ui_inter, state->Some_0.offset())
    };
    let bound = MAX_ORIGIN - MAX_EXTENT;
    if (released || shows) && -bound <= x <= bound && -bound <= y <= bound {
        popup_choice_of(state is Some, buffer_len, st, inter, Point { x: x as i32, y: y as i32 }, width, items)
    } else {
        None
    }
}

/// The entry that drawing a combo box in `ui` picks: its full size is `full`, it is placed with
/// the size `alloc` and receives `inter` (see [`combo_pick_of`]).
pub open spec fn combo_pick<'a, 'c, COL: Copy>(
    ui: Ui<'a, COL>,
    full: Size,
    alloc: Size,
    inter: Interaction,
    items: Seq<&'c str>,
) -> Option<usize> {
    let after = placer_next(ui.placer(), alloc).0;
    let (x, y) = combo_popup_origin(ui, full);
    combo_pick_of(
        ui.popup_state(),
        ui.popup_buffer_len(),
        ui.style_spec(),
        ui.popup_interaction(),
        ui.interaction(),
        after.col,
        after.row,
        x,
        y,
        full.width,
        inter is Release,
        items,
    )
}

impl<'a, 'b, 'c> ComboBox<'a, 'b, 'c> where 'b: 'a, 'c: 'a, 'c: 'b {
    /// Fills the popup with a button per entry, `width` wide in all (without item spacing,
    /// padding, border or rounding), and returns the last entry whose button was released on.
    /// Entries beyond what the layout has room for are left out.
    fn popup_items<COL: Copy>(&self, pu: &mut Ui<'_, COL>, width: u32) -> (chosen: Option<usize>)
        requires
            old(pu).wf(),
            !old(pu).framebuf_active(),
        ensures
            final(pu).wf(),
            !final(pu).framebuf_active(),
            old(pu).commands().is_prefix_of(final(pu).commands()),
            chosen matches Some(i) ==> i < self.contents().len(),
            chosen == popup_pick(
                popup_style(old(pu).style_spec()),
                old(pu).bounds().top_left,
                old(pu).interaction(),
                old(pu).popup_showing(),
                old(pu).placer(),
                self.contents(),
                popup_item_width(width, old(pu).style_spec().spacing.window_border_padding.width),
                0,
                None,
            ),
    {
        let style = pu.style_mut();
        style.spacing.item_spacing.height = 0;
        style.spacing.button_padding.width = 0;
        style.border_width = 0;
        style.corner_radius = 0;
        let wbp2: u64 = 2 * pu.style().spacing.window_border_padding.width as u64;
        let item_width: u16 = if width as u64 >= wbp2 {
            #[verifier::truncate]
            ((width as u64 - wbp2) as u16)
        } else {
            0
        };
        let ghost st = popup_style(old(pu).style_spec());
        let ghost origin = old(pu).bounds().top_left;
        let ghost inter = old(pu).interaction();
        let ghost covered = old(pu).popup_showing();
        let ghost start = pu.placer();
        let ghost items = self.contents();
        assert(pu.style_spec() == st);
        assert(item_width == popup_item_width(width, old(pu).style_spec().spacing.window_border_padding.width));
        let mut chosen: Option<usize> = None;
        let mut idx: usize = 0;
        while idx < self.contents.len()
            invariant
                pu.wf(),
                !pu.framebuf_active(),
                old(pu).commands().is_prefix_of(pu.commands()),
                idx <= self.contents@.len(),
                items == self.contents(),
                chosen matches Some(i) ==> i < self.contents@.len(),
                pu.style_spec() == st,
                pu.bounds().top_left == origin,
                pu.interaction() == inter,
                pu.popup_showing() == covered,
                popup_pick(st, origin, inter, covered, start, items, item_width, 0, None) == popup_pick(
                    st,
                    origin,
                    inter,
                    covered,
                    pu.placer(),
                    items,
                    item_width,
                    idx as int,
                    chosen,
                ),
            ensures
                idx >= self.contents@.len() || !pu.placer().room(3),
                items == self.contents(),
                popup_pick(st, origin, inter, covered, start, items, item_width, 0, None) == popup_pick(
                    st,
                    origin,
                    inter,
                    covered,
                    pu.placer(),
                    items,
                    item_width,
                    idx as int,
                    chosen,
                ),
            decreases self.contents@.len() - idx,
        {
            if !pu.has_room(3) {
                break;
            }
            let item: &str = self.contents[idx];
            let ghost before = pu.commands();
            let ghost p0 = pu.placer();
            let mut button = Button::new(item).with_width(item_width);
            let raw = button.draw(pu);
            pu.outline_placed(&raw);
            let resp = match raw {
                Ok(r) => r,
                Err(e) => Response::from_error(e),
            };
            pu.new_row();
            proof {
                lemma_prefix_trans(old(pu).commands(), before, pu.commands());
                assert(pu.placer() == popup_entry_step(st, origin, inter, covered, p0, item, item_width).0);
                assert(resp.click == popup_entry_step(st, origin, inter, covered, p0, item, item_width).1);
            }
            if resp.clicked() {
                chosen = Some(idx);
            }
            idx = idx + 1;
        }
        chosen
    }

    /// Opens the popup at `(x, y)`, `width` wide, when the box was `released` on or the popup
    /// layer shows this box's popup, and lets it pick an entry; says whether one was picked.
    fn popup_if_open<COL: Copy>(&mut self, ui: &mut Ui<'_, COL>, x: i64, y: i64, width: u32, released: bool) -> (picked: bool)
        requires
            old(ui).wf(),
            !old(ui).framebuf_active(),
        ensures
            final(ui).wf(),
            final(ui).placer() == old(ui).placer(),
            final(ui).unchanged_frame(*old(ui)),
            final(ui).interaction() == old(ui).interaction() || old(ui).has_popup_layer(),
            final(ui).interaction() == old(ui).interaction() || final(ui).interaction() is Idle,
            final(ui).has_popup_layer() == old(ui).has_popup_layer(),
            !final(ui).framebuf_active(),
            old(ui).commands().is_prefix_of(final(ui).commands()),
            picked == combo_pick_of(
                old(ui).popup_state(),
                old(ui).popup_buffer_len(),
                old(ui).style_spec(),
                old(ui).popup_interaction(),
                old(ui).interaction(),
                old(ui).placer().col,
                old(ui).placer().row,
                x as int,
                y as int,
                width,
                released,
                old(self).contents(),
            ) is Some,
            combo_pick_of(
                old(ui).popup_state(),
                old(ui).popup_buffer_len(),
                old(ui).style_spec(),
                old(ui).popup_interaction(),
                old(ui).interaction(),
                old(ui).placer().col,
                old(ui).placer().row,
                x as int,
                y as int,
                width,
                released,
                old(self).contents(),
            ) matches Some(i) ==> final(self).selector().selects_entry(old(self).contents(), i as int),
            picked ==> final(self).selector().selects_one_of(old(self).contents()),
            !picked ==> final(self).selector().same_selection(old(self).selector()),
            match (old(self).selector(), final(self).selector()) {
                (Selector::Text(p), Selector::Text(q)) => *final(p) == *final(q),
                (Selector::Index(p), Selector::Index(q)) => *final(p) == *final(q),
                _ => false,
            },
            final(self).contents() == old(self).contents(),
            final(self).fixed_width() == old(self).fixed_width(),
            final(self).corner_radius() == old(self).corner_radius(),
            final(self).smartstate_spec() == old(self).smartstate_spec(),
    {
        let open = released || ui.popup_check();
        let bound: i64 = (MAX_ORIGIN - MAX_EXTENT as i32) as i64;
        if open && -bound <= x && x <= bound && -bound <= y && y <= bound {
            self.run_popup(ui, Point::new(x as i32, y as i32), width)
        } else {
            false
        }
    }

    /// Opens the popup below the combo box at `top_left`, `width` wide, lists the entries in it
    /// and closes it again; the entry picked there, if any, becomes the selection. Returns
    /// whether one was picked.
    fn run_popup<COL: Copy>(&mut self, ui: &mut Ui<'_, COL>, top_left: Point, width: u32) -> (picked: bool)
        requires
            old(ui).wf(),
            !old(ui).framebuf_active(),
            -(MAX_ORIGIN - MAX_EXTENT) <= top_left.x <= MAX_ORIGIN - MAX_EXTENT,
            -(MAX_ORIGIN - MAX_EXTENT) <= top_left.y <= MAX_ORIGIN - MAX_EXTENT,
        ensures
            final(ui).wf(),
            final(ui).placer() == old(ui).placer(),
            final(ui).unchanged_frame(*old(ui)),
            final(ui).interaction() == old(ui).interaction(),
            final(ui).has_popup_layer() == old(ui).has_popup_layer(),
            !final(ui).framebuf_active(),
            old(ui).commands().is_prefix_of(final(ui).commands()),
            picked == popup_choice(*old(ui), top_left, width, old(self).contents()) is Some,
            popup_choice(*old(ui), top_left, width, old(self).contents()) matches Some(i) ==> final(self).selector().selects_entry(
                old(self).contents(),
                i as int,
            ),
            picked ==> final(self).selector().selects_one_of(old(self).contents()),
            !picked ==> final(self).selector().same_selection(old(self).selector()),
            match (old(self).selector(), final(self).selector()) {
                (Selector::Text(p), Selector::Text(q)) => *final(p) == *final(q),
                (Selector::Index(p), Selector::Index(q)) => *final(p) == *final(q),
                _ => false,
            },
            final(self).contents() == old(self).contents(),
            final(self).fixed_width() == old(self).fixed_width(),
            final(self).corner_radius() == old(self).corner_radius(),
            final(self).smartstate_spec() == old(self).smartstate_spec(),
    {
        let popup_width: u16 = #[verifier::truncate] (width as u16);
        match ui.open_popup(top_left, popup_width) {
            Ok((mut popup_ui, session)) => {
                let ghost start = popup_ui.commands();
                let chosen = self.popup_items(&mut popup_ui, width);
                let picked = chosen.is_some();
                let ghost filled = popup_ui.commands();
                ui.close_popup(popup_ui, session, picked);
                proof {
                    lemma_prefix_trans(old(ui).commands(), start, filled);
                    lemma_prefix_trans(old(ui).commands(), filled, ui.commands());
                }
                if let Some(idx) = chosen {
                    self.select(idx);
                }
                picked
            },
            Err(_) => false,
        }
    }
}

impl<'a, 'b, 'c, COL: Copy> Widget<COL> for ComboBox<'a, 'b, 'c> where 'b: 'a, 'c: 'a, 'c: 'b {
    #[verifier::rlimit(100)]
    fn draw(&mut self, ui: &mut Ui<'_, COL>) -> (r: GuiResult<Response>)
        ensures
            old(self).smartstate_spec().target() matches Some(r1) ==> (final(self).smartstate_spec().target() matches Some(r2)
                && *final(r2) == *final(r1)),
            ({
                let st = old(ui).style_spec();
                let font = st.default_font;
                let sel = old(self).selected_text();
                let full = combo_size(
                    old(self).fixed_width(),
                    text_size(sel@, font),
                    st.spacing.button_padding,
                    st.border_width,
                    st.default_widget_height,
                    st.spacing.item_spacing.width,
                );
                &&& !measurable(sel, font) ==> r == Err::<Response, GuiError>(GuiError::NoSpaceLeft)
                &&& (measurable(sel, font) && full is Err) ==> r == Err::<Response, GuiError>(full->Err_0)
                &&& (measurable(sel, font) && full is Ok) ==> exists|shown: &str| {
                    &&& #[trigger] shown_text_ok(old(self).fixed_width(), st, sel@, shown@)
                    &&& !measurable(shown, font) ==> r == Err::<Response, GuiError>(GuiError::NoSpaceLeft)
                    &&& measurable(shown, font) ==> match combo_size(
                        old(self).fixed_width(),
                        text_size(shown@, font),
                        st.spacing.button_padding,
                        st.border_width,
                        st.default_widget_height,
                        st.spacing.item_spacing.width,
                    ) {
                        Err(e) => r == Err::<Response, GuiError>(e),
                        Ok(sz) => match allocation(*old(ui), sz) {
                            Err(e) => r == Err::<Response, GuiError>(e),
                            Ok((area, inter)) => {
                                let now = after_set(old(self).smartstate_spec().inner(), Some(combo_state_id(inter)));
                                &&& r matches Ok(resp)
                                &&& resp.internal.area == area
                                &&& resp.internal.interaction == inter
                                &&& resp.click == inter is Release
                                &&& resp.down == inter.is_down()
                                &&& resp.redraw == needs_redraw(old(self).smartstate_spec().inner(), now)
                                &&& resp.changed == combo_pick(*old(ui), full->Ok_0, sz, inter, old(self).contents()) is Some
                                &&& (combo_pick(*old(ui), full->Ok_0, sz, inter, old(self).contents()) matches Some(i)
                                    ==> final(self).selector().selects_entry(old(self).contents(), i as int))
                                &&& resp.error is None
                                &&& final(self).smartstate_spec().inner() == now
                                &&& needs_redraw(old(self).smartstate_spec().inner(), now) ==> combo_drawn(
                                    *old(ui),
                                    *final(ui),
                                    area,
                                    inter,
                                    match old(self).corner_radius() {
                                        Some(cr) => cr,
                                        None => st.corner_radius,
                                    },
                                    shown@,
                                )
                            },
                        },
                    }
                }
            }),
            r matches Ok(resp) && resp.changed ==> final(self).selector().selects_one_of(old(self).contents()),
            !old(ui).has_popup_layer() ==> !(r matches Ok(resp) && resp.changed),
            r is Err ==> final(self).smartstate_spec() == old(self).smartstate_spec(),
            !(r matches Ok(resp) && resp.changed) ==> final(self).selector().same_selection(old(self).selector()),
            match (old(self).selector(), final(self).selector()) {
                (Selector::Text(p), Selector::Text(q)) => *final(p) == *final(q),
                (Selector::Index(p), Selector::Index(q)) => *final(p) == *final(q),
                _ => false,
            },
            final(self).contents() == old(self).contents(),
            final(self).fixed_width() == old(self).fixed_width(),
            final(self).corner_radius() == old(self).corner_radius(),
    {
        let style = *ui.style();
        let selected_text = self.selected_text_exec();
        let size = self.get_size(selected_text, &style)?;
        let pos = ui.get_placer_top_left();
        let wbp: i64 = style.spacing.window_border_padding.width as i64;
        let mut popup_x: i64 = pos.x as i64 + wbp;
        let mut popup_y: i64 = pos.y as i64 + wbp + size.height as i64;
        if popup_x + size.width as i64 > ui.get_width() as i64 {
            popup_x = wbp;
            popup_y = popup_y + size.height as i64;
        }
        let shown = shown_text(self.width, selected_text, &style);
        let cb_size = self.get_size(shown.as_str(), &style)?;
        let iresponse = ui.allocate_space(cb_size)?;
        let area = iresponse.area;
        let inter = iresponse.interaction;
        let click = is_release(inter);
        let down = is_down(inter);
        let (id, rect_style) = match inter {
            Interaction::Idle => (1u32, PrimitiveStyle::filled_with_border(style.item_background_color, style.border_color, style.border_width)),
            Interaction::Hover(_) => (2u32, PrimitiveStyle::filled_with_border(
                style.highlight_item_background_color,
                style.highlight_border_color,
                style.highlight_border_width,
            )),
            _ => (3u32, PrimitiveStyle::filled_with_border(style.primary_color, style.highlight_border_color, style.highlight_border_width)),
        };
        let redraw = update_smartstate(&mut self.smartstate, Some(id));
        if redraw {
            let radius = match self.corner_radius {
                Some(r) => r,
                None => style.corner_radius,
            };
            draw_combo(ui, area, rect_style, radius, shown.as_str());
        }
        let ghost drawn = ui.commands();
        proof {
            old(ui).lemma_popup_layer();
        }
        let picked = self.popup_if_open(ui, popup_x, popup_y, size.width, click);
        let resp = Response::new(iresponse).set_clicked(click).set_down(down).set_redraw(redraw).set_changed(picked);
        proof {
            lemma_prefix_trans(old(ui).commands(), drawn, ui.commands());
        }
        Ok(resp)
    }
}

} // verus!
