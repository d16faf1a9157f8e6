//! # Button Widget
//!
//! A clickable button that displays a text label and reports clicks.

use crate::draw::{DrawCommand, PrimitiveStyle, TextBaseline};
use crate::geometry::{Point, Rectangle, Size};
use crate::smartstate::{after_set, needs_redraw, update_smartstate, Container, Smartstate};
use crate::style::{WidgetStateStyle, WidgetStyle};
use crate::text::{measurable, measure_text, text_size};
use crate::ui::{allocation, placer_next, checked_size, spec_checked_size, GuiError, GuiResult, Interaction, Response, Ui, Widget};
use vstd::prelude::*;

verus! {

broadcast use crate::smartstate::lemma_spec_state;

/// # Button Widget
///
/// A clickable button widget that displays text and responds to user interaction.
///
/// A button is sized to its text plus the button padding and border (at least the default
/// widget height tall). It is clicked when a release lands on it, and is "down" while a click or
/// drag is on it. Its look follows the widget style's state: normal, hover, pressed (active) or
/// disabled. With a smartstate it only redraws when that look changes.
pub struct Button<'a, COL> {
    pub label: &'a str,
    pub smartstate: Container<'a, Smartstate>,
    pub is_enabled: bool,
    pub is_modified: bool,
    pub custom_style: Option<WidgetStyle<COL>>,
    pub width: Option<u16>,
}

/// The smartstate id of a button's look: 1 when idle, 2 when hovered, 3 when pressed.
pub open spec fn button_state_id_spec(i: Interaction) -> u32 {
    match i {
        Interaction::Idle => 1,
        Interaction::Hover(_) => 2,
        _ => 3,
    }
}

/// The look of a widget in the state that `i` gives it.
pub open spec fn state_style<COL>(ws: WidgetStyle<COL>, enabled: bool, i: Interaction) -> WidgetStateStyle<COL> {
    if !enabled {
        ws.disabled
    } else {
        match i {
            Interaction::Idle => ws.normal,
            Interaction::Hover(_) => ws.hover,
            _ => ws.active,
        }
    }
}

/// Size of a button around text of size `text`: the text plus padding and border on each side,
/// at least `min_height` tall; a fixed width replaces the text-based width.
pub open spec fn button_size(text: Size, padding: Size, border: u32, min_height: u32, fixed_width: Option<u16>) -> Result<Size, GuiError> {
    let w = match fixed_width {
        Some(fw) => fw as int,
        None => text.width + 2 * padding.width + 2 * border,
    };
    let h0 = text.height + 2 * padding.height + 2 * border;
    spec_checked_size(w, if h0 >= min_height { h0 } else { min_height as int })
}


impl<'a, COL: Copy> Button<'a, COL> {
    pub open spec fn label(&self) -> &'a str {
        self.label
    }

    pub open spec fn smartstate_spec(&self) -> Container<'a, Smartstate> {
        self.smartstate
    }

    pub open spec fn enabled(&self) -> bool {
        self.is_enabled
    }

    pub open spec fn modified(&self) -> bool {
        self.is_modified
    }

    pub open spec fn custom_style(&self) -> Option<WidgetStyle<COL>> {
        self.custom_style
    }

    pub open spec fn fixed_width(&self) -> Option<u16> {
        self.width
    }

    /// Creates a new, enabled button with the given text label and no smartstate.
    pub fn new(label: &'a str) -> (b: Button<'a, COL>)
        ensures
            b.label() == label,
            b.smartstate_spec().inner() is None,
            b.enabled(),
            !b.modified(),
            b.custom_style() is None,
            b.fixed_width() is None,
    {
        Button { label, smartstate: Container::empty(), is_enabled: true, is_modified: false, custom_style: None, width: None }
    }

    /// Adds smartstate support: the button then only redraws when its look changes.
    pub fn smartstate(self, smartstate: &'a mut Smartstate) -> (b: Self)
        ensures
            b.smartstate_spec().inner() == Some(*old(smartstate)),
            b.smartstate_spec().target() matches Some(r) && *final(r) == *final(smartstate),
            b.label() == self.label(),
            b.enabled() == self.enabled(),
            b.modified() == self.modified(),
            b.custom_style() == self.custom_style(),
            b.fixed_width() == self.fixed_width(),
    {
        let mut s = self;
        s.smartstate.set(smartstate);
        s
    }

    /// Enables or disables the button; a disabled button does not respond to interaction.
    /// The button is redrawn on its next draw.
    pub fn enable(self, enabled: &bool) -> (b: Self)
        ensures
            b.enabled() == *enabled,
            b.modified(),
            b.label() == self.label(),
            b.smartstate_spec() == self.smartstate_spec(),
            b.custom_style() == self.custom_style(),
            b.fixed_width() == self.fixed_width(),
    {
        let mut s = self;
        s.is_modified = true;
        s.is_enabled = *enabled;
        s
    }

    /// Styles the button with `style` in place of the UI's widget style.
    /// The button is redrawn on its next draw.
    pub fn with_widget_style(self, style: WidgetStyle<COL>) -> (b: Self)
        ensures
            b.custom_style() == Some(style),
            b.modified(),
            b.label() == self.label(),
            b.smartstate_spec() == self.smartstate_spec(),
            b.enabled() == self.enabled(),
            b.fixed_width() == self.fixed_width(),
    {
        let mut s = self;
        s.is_modified = true;
        s.custom_style = Some(style);
        s
    }

    /// Gives the button a fixed width in place of the width of its text.
    pub fn with_width(self, width: u16) -> (b: Self)
        ensures
            b.fixed_width() == Some(width),
            b.label() == self.label(),
            b.smartstate_spec() == self.smartstate_spec(),
            b.enabled() == self.enabled(),
            b.modified() == self.modified(),
            b.custom_style() == self.custom_style(),
    {
        let mut s = self;
        s.width = Some(width);
        s
    }
}

impl<'a, COL: Copy> Widget<COL> for Button<'a, COL> {
    fn draw(&mut self, ui: &mut Ui<'_, COL>) -> (r: GuiResult<Response>)
        ensures
            old(self).smartstate_spec().target() matches Some(r1) ==> (final(self).smartstate_spec().target() matches Some(r2)
                && *final(r2) == *final(r1)),
            ({
                let ws = match old(self).custom_style() {
                    Some(s) => s,
                    None => old(ui).style_spec().widget,
                };
                let font = old(ui).style_spec().default_font;
                let size = button_size(
                    text_size(old(self).label()@, font),
                    old(ui).style_spec().spacing.button_padding,
                    ws.normal.border_width,
                    old(ui).style_spec().default_widget_height,
                    old(self).fixed_width(),
                );
                &&& final(ui).placer() == if measurable(old(self).label(), font) && size is Ok {
                    placer_next(old(ui).placer(), size->Ok_0).0
                } else {
                    old(ui).placer()
                }
                &&& final(ui).same_but_layout(*old(ui))
                &&& !measurable(old(self).label(), font) ==> r == Err::<Response, GuiError>(GuiError::NoSpaceLeft)
                &&& measurable(old(self).label(), font) ==> match size {
                    Err(e) => r == Err::<Response, GuiError>(e),
                    Ok(sz) => match allocation(*old(ui), sz) {
                        Err(e) => r == Err::<Response, GuiError>(e),
                        Ok((area, inter)) => {
                            let now = after_set(
                                old(self).smartstate_spec().inner(),
                                if old(self).enabled() { Some(button_state_id_spec(inter)) } else { None },
                            );
                            let redraw = needs_redraw(old(self).smartstate_spec().inner(), now) || old(self).modified();
                            &&& r matches Ok(resp)
                            &&& resp.internal.area == area
                            &&& resp.internal.interaction == inter
                            &&& resp.click == (old(self).enabled() && inter is Release)
                            &&& resp.down == (old(self).enabled() && inter.is_down())
                            &&& !resp.changed
                            &&& resp.redraw == redraw
                            &&& resp.error is None
                            &&& final(self).smartstate_spec().inner() == now
                            &&& !final(self).modified()
                            &&& (!redraw ==> final(ui).commands() == old(ui).commands())
                            &&& (redraw ==> box_with_text_drawn(
                                *old(ui),
                                *final(ui),
                                area,
                                state_style(ws, old(self).enabled(), inter),
                                old(self).label()@,
                                Point {
                                    x: (area.top_left.x + old(ui).style_spec().spacing.button_padding.width + ws.normal.border_width) as i32,
                                    y: (area.top_left.y + old(ui).style_spec().spacing.button_padding.height + ws.normal.border_width) as i32,
                                },
                                font,
                                false,
                            ))
                        },
                    },
                }
            }),
    {
        let font = ui.style().default_font;
        let widget_style = match self.custom_style {
            Some(s) => s,
            None => ui.style().widget,
        };
        let padding = ui.style().spacing.button_padding;
        let border = widget_style.normal.border_width;
        let size = button_extent(self.label, &font, padding, border, ui.style().default_widget_height, self.width)?;
        let iresponse = ui.allocate_space(size)?;
        let area = iresponse.area;
        let inter = iresponse.interaction;
        let id = if self.is_enabled { Some(button_state_id(inter)) } else { None };
        let look = state_look(&widget_style, self.is_enabled, inter);
        let redraw = update_smartstate(&mut self.smartstate, id) || self.is_modified;
        if redraw {
            let text_pos = Point::new(area.top_left.x + (padding.width + border) as i32, area.top_left.y + (padding.height + border) as i32);
            draw_box_with_text(ui, area, &look, self.label, text_pos, font, false);
        }
        self.is_modified = false;
        let click = self.is_enabled && is_release(inter);
        let down = self.is_enabled && is_down(inter);
        Ok(Response::new(iresponse).set_clicked(click).set_down(down).set_redraw(redraw))
    }
}

/// The smartstate id of a button's look (see [`button_state_id`]).
pub(crate) fn button_state_id(i: Interaction) -> (id: u32)
    ensures
        id == button_state_id_spec(i),
{
    match i {
        Interaction::Idle => 1,
        Interaction::Hover(_) => 2,
        _ => 3,
    }
}

/// Whether the interaction is a release.
pub(crate) fn is_release(i: Interaction) -> (b: bool)
    ensures
        b == (i is Release),
{
    match i {
        Interaction::Release(_) => true,
        _ => false,
    }
}

/// Whether the interaction is a held press (click or drag).
pub(crate) fn is_down(i: Interaction) -> (b: bool)
    ensures
        b == i.is_down(),
{
    match i {
        Interaction::Click(_) | Interaction::Drag(_) => true,
        _ => false,
    }
}

/// The look of a widget in the state that `i` gives it (see [`state_style`]).
pub(crate) fn state_look<COL: Copy>(ws: &WidgetStyle<COL>, enabled: bool, i: Interaction) -> (s: WidgetStateStyle<COL>)
    ensures
        s == state_style(*ws, enabled, i),
{
    if !enabled {
        ws.disabled
    } else {
        match i {
            Interaction::Idle => ws.normal,
            Interaction::Hover(_) => ws.hover,
            _ => ws.active,
        }
    }
}

/// The size of a button labelled `label` (see [`button_size`]); a label too long to measure
/// cannot be placed.
pub(crate) fn button_extent(label: &str, font: &crate::text::MonoFont, padding: Size, border: u32, min_height: u32, fixed_width: Option<u16>) -> (r: GuiResult<Size>)
    ensures
        !measurable(label, *font) ==> r == Err::<Size, GuiError>(GuiError::NoSpaceLeft),
        measurable(label, *font) ==> r == button_size(text_size(label@, *font), padding, border, min_height, fixed_width),
{
    let text_size = match measure_text(label, font) {
        Some(s) => s,
        None => {
            return Err(GuiError::NoSpaceLeft);
        },
    };
    let w: u64 = match fixed_width {
        Some(fw) => fw as u64,
        None => text_size.width as u64 + 2 * padding.width as u64 + 2 * border as u64,
    };
    let h0: u64 = text_size.height as u64 + 2 * padding.height as u64 + 2 * border as u64;
    checked_size(w, if h0 >= min_height as u64 { h0 } else { min_height as u64 })
}

/// `after` is `before` with a filled, bordered box over `area` in the colors of `look` drawn, and
/// the text `label` at `text_pos` (top baseline) in the look's foreground color.
pub open spec fn box_with_text_drawn<'a, COL: Copy>(
    before: Ui<'a, COL>,
    after: Ui<'a, COL>,
    area: Rectangle,
    look: WidgetStateStyle<COL>,
    label: Seq<char>,
    text_pos: Point,
    font: crate::text::MonoFont,
    centered: bool,
) -> bool {
    exists|t: String|
        #![trigger t@]
        t@ == label && after.commands() == before.commands() + before.framed(
            area,
            seq![
                DrawCommand::Rect {
                    rect: area,
                    style: PrimitiveStyle {
                        fill_color: Some(look.background_color),
                        stroke_color: Some(look.border_color),
                        stroke_width: look.border_width,
                    },
                },
                DrawCommand::Text {
                    text: t,
                    position: text_pos,
                    font,
                    color: look.foreground_color,
                    baseline: TextBaseline::Top,
                    centered,
                },
            ],
        )
}

/// Draws a filled, bordered box over `area` in the colors of `look`, with `label` at `text_pos`
/// (top baseline) in the look's foreground color.
pub(crate) fn draw_box_with_text<COL: Copy>(
    ui: &mut Ui<'_, COL>,
    area: Rectangle,
    look: &WidgetStateStyle<COL>,
    label: &str,
    text_pos: Point,
    font: crate::text::MonoFont,
    centered: bool,
)
    requires
        !old(ui).framebuf_active(),
    ensures
        box_with_text_drawn(*old(ui), *final(ui), area, *look, label@, text_pos, font, centered),
        final(ui).commands().len() > old(ui).commands().len(),
        !final(ui).framebuf_active(),
        final(ui).placer() == old(ui).placer(),
        final(ui).unchanged_frame(*old(ui)),
        final(ui).interaction() == old(ui).interaction(),
        final(ui).is_cleared() == old(ui).is_cleared(),
        final(ui).popup_showing() == old(ui).popup_showing(),
        final(ui).has_popup_layer() == old(ui).has_popup_layer(),
        final(ui).popup_state() == old(ui).popup_state(),
        final(ui).popup_interaction() == old(ui).popup_interaction(),
        final(ui).popup_buffer_len() == old(ui).popup_buffer_len(),
{
    ui.start_drawing(&area);
    let _ = ui.draw(DrawCommand::Rect {
        rect: Rectangle::new(area.top_left, area.size),
        style: PrimitiveStyle::filled_with_border(look.background_color, look.border_color, look.border_width),
    });
    let t = label.to_owned();
    let ghost tv = t;
    let _ = ui.draw(DrawCommand::Text {
        text: t,
        position: text_pos,
        font,
        color: look.foreground_color,
        baseline: TextBaseline::Top,
        centered,
    });
    let _ = ui.finalize();
    assert(ui.commands() =~= old(ui).commands() + old(ui).framed(
        area,
        seq![
            DrawCommand::Rect {
                rect: area,
                style: PrimitiveStyle {
                    fill_color: Some(look.background_color),
                    stroke_color: Some(look.border_color),
                    stroke_width: look.border_width,
                },
            },
            DrawCommand::Text {
                text: tv,
                position: text_pos,
                font,
                color: look.foreground_color,
                baseline: TextBaseline::Top,
                centered,
            },
        ],
    ));
}

} // verus!
