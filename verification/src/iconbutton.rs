//! # Icon Button Widget
//!
//! A button that shows an icon, with an optional label below it.

use crate::button::{is_down, is_release, state_look, state_style};
use crate::draw::{DrawCommand, Icon, PrimitiveStyle, TextBaseline};
use crate::geometry::{coord, Point, Rectangle, Size};
use crate::smartstate::{after_set, needs_redraw, update_smartstate, Container, Smartstate};
use crate::style::{WidgetStateStyle, WidgetStyle};
use crate::text::{measurable, measure_text_centered, text_size_centered, MonoFont};
use crate::slider::{same_label, trunc_div};
use crate::ui::{allocation, checked_size, spec_checked_size, GuiError, GuiResult, Interaction, Response, Ui, Widget};
use vstd::prelude::*;

verus! {

broadcast use crate::smartstate::lemma_spec_state;

/// A button with an icon and an optional label. It is clicked when a release lands on it and
/// "down" while pressed; its look follows the widget style's state.
#[derive(Debug)]
pub struct IconButton<'a, COL> {
    pub icon: Icon,
    pub label: Option<&'a str>,
    pub smartstate: Container<'a, Smartstate>,
    pub is_enabled: bool,
    pub is_modified: bool,
    pub custom_style: Option<WidgetStyle<COL>>,
}

/// The size of an icon button: the icon plus padding and border on each side (a square),
/// widened for the label and heightened by the label and padding; at least the default widget
/// height and the row height tall.
pub open spec fn icon_button_size(icon_px: u32, pad: Size, border: u32, min_height: u32, row_height: u32, label: Option<Size>) -> Result<Size, GuiError> {
    let side = icon_px + 2 * pad.height + 2 * border;
    let (w, h) = match label {
        Some(ts) => (
            if side >= ts.width + 2 * pad.width + 2 * border { side } else { ts.width + 2 * pad.width + 2 * border },
            side + pad.height + ts.height,
        ),
        None => (side, side),
    };
    let h0 = if min_height >= row_height { min_height as int } else { row_height as int };
    spec_checked_size(w, if h0 >= h { h0 } else { h })
}

/// The smartstate id of an icon button's look: 1 when idle, 2 when hovered, 3 otherwise.
pub open spec fn icon_button_state_id(i: Interaction) -> u32 {
    match i {
        Interaction::Idle => 1,
        Interaction::Hover(_) => 2,
        _ => 3,
    }
}

impl<'a, COL: Copy> IconButton<'a, COL> {
    pub open spec fn icon(&self) -> Icon {
        self.icon
    }

    pub open spec fn label_spec(&self) -> Option<&'a str> {
        self.label
    }

    pub open spec fn smartstate_spec(&self) -> Container<'a, Smartstate> {
        self.smartstate
    }

    pub open spec fn enabled(&self) -> bool {
        self.is_enabled
    }

    pub open spec fn modified(&self) -> bool {
        self.is_modified
    }

    pub open spec fn custom_style(&self) -> Option<WidgetStyle<COL>> {
        self.custom_style
    }

    /// An enabled icon button for `icon`, without label or smartstate.
    pub fn new(icon: Icon) -> (b: Self)
        ensures
            b.icon() == icon,
            b.label_spec() is None,
            b.smartstate_spec().inner() is None,
            b.enabled(),
            !b.modified(),
            b.custom_style() is None,
    {
        IconButton { icon, label: None, smartstate: Container::empty(), is_enabled: true, is_modified: false, custom_style: None }
    }

    /// An icon button for the icon `icon` names (the same as [`IconButton::new`]).
    pub fn new_from_type(icon: Icon) -> (b: Self)
        ensures
            b.icon() == icon,
            b.label_spec() is None,
            b.smartstate_spec().inner() is None,
            b.enabled(),
            !b.modified(),
            b.custom_style() is None,
    {
        Self::new(icon)
    }

    /// Adds a label below the icon.
    pub fn label(self, label: &'a str) -> (b: Self)
        ensures
            b.label_spec() == Some(label),
            b.icon() == self.icon(),
            b.smartstate_spec() == self.smartstate_spec(),
            b.enabled() == self.enabled(),
            b.modified() == self.modified(),
            b.custom_style() == self.custom_style(),
    {
        let mut b = self;
        b.label = Some(label);
        b
    }

    /// Adds smartstate support: the button then only redraws when its look changes.
    pub fn smartstate(self, smartstate: &'a mut Smartstate) -> (b: Self)
        ensures
            b.smartstate_spec().inner() == Some(*old(smartstate)),
            b.smartstate_spec().target() matches Some(r) && *final(r) == *final(smartstate),
            b.icon() == self.icon(),
            b.label_spec() == self.label_spec(),
            b.enabled() == self.enabled(),
            b.modified() == self.modified(),
            b.custom_style() == self.custom_style(),
    {
        let mut b = self;
        b.smartstate.set(smartstate);
        b
    }

    /// Enables or disables the button; it is redrawn on its next draw.
    pub fn enable(self, enabled: &bool) -> (b: Self)
        ensures
            b.enabled() == *enabled,
            b.modified(),
            b.icon() == self.icon(),
            b.label_spec() == self.label_spec(),
            b.smartstate_spec() == self.smartstate_spec(),
            b.custom_style() == self.custom_style(),
    {
        let mut b = self;
        b.is_modified = true;
        b.is_enabled = *enabled;
        b
    }

    /// Styles the button with `style` in place of the UI's widget style; it is redrawn on its
    /// next draw.
    pub fn with_widget_style(self, style: WidgetStyle<COL>) -> (b: Self)
        ensures
            b.custom_style() == Some(style),
            b.modified(),
            b.icon() == self.icon(),
            b.label_spec() == self.label_spec(),
            b.smartstate_spec() == self.smartstate_spec(),
            b.enabled() == self.enabled(),
    {
        let mut b = self;
        b.is_modified = true;
        b.custom_style = Some(style);
        b
    }
}

/// The size of an icon button (see [`icon_button_size`]) and the height of its label (0
/// without one); a label too long to measure cannot be placed.
fn icon_button_extent(icon_px: u32, label: Option<&str>, font: &MonoFont, pad: Size, border: u32, min_height: u32, row_height: u32) -> (r: GuiResult<(Size, u64)>)
    ensures
        (match label {
            Some(l) => !measurable(l, *font),
            None => false,
        }) ==> r == Err::<(Size, u64), GuiError>(GuiError::NoSpaceLeft),
        (match label {
            Some(l) => measurable(l, *font),
            None => true,
        }) ==> {
            let ls = match label {
                Some(l) => Some(text_size_centered(l@, *font)),
                None => None,
            };
            match icon_button_size(icon_px, pad, border, min_height, row_height, ls) {
                Ok(sz) => r matches Ok((s, th)) && s == sz && th == match ls {
                    Some(t) => t.height as int,
                    None => 0,
                },
                Err(e) => r == Err::<(Size, u64), GuiError>(e),
            }
        },
{
    let side: u64 = icon_px as u64 + 2 * pad.height as u64 + 2 * border as u64;
    let mut w: u64 = side;
    let mut h: u64 = side;
    let mut text_h: u64 = 0;
    if let Some(label) = label {
        let ts = match measure_text_centered(label, font) {
            Some(ts) => ts,
            None => {
                return Err(GuiError::NoSpaceLeft);
            },
        };
        let tw: u64 = ts.width as u64 + 2 * pad.width as u64 + 2 * border as u64;
        if tw > w {
            w = tw;
        }
        h = side + pad.height as u64 + ts.height as u64;
        text_h = ts.height as u64;
    }
    let h0: u64 = if min_height >= row_height { min_height as u64 } else { row_height as u64 };
    let size = checked_size(w, if h0 >= h { h0 } else { h })?;
    Ok((size, text_h))
}

impl<'a, COL: Copy> Widget<COL> for IconButton<'a, COL> {
    fn draw(&mut self, ui: &mut Ui<'_, COL>) -> (r: GuiResult<Response>)
        ensures
            old(self).smartstate_spec().target() matches Some(r1) ==> (final(self).smartstate_spec().target() matches Some(r2)
                && *final(r2) == *final(r1)),
            ({
                let st = old(ui).style_spec();
                let ws = match old(self).custom_style() {
                    Some(s) => s,
                    None => st.widget,
                };
                let label_ok = match old(self).label_spec() {
                    Some(l) => measurable(l, st.default_font),
                    None => true,
                };
                let label_size = match old(self).label_spec() {
                    Some(l) => Some(text_size_centered(l@, st.default_font)),
                    None => None,
                };
                let size = icon_button_size(old(self).icon().size, st.spacing.button_padding, ws.normal.border_width, st.default_widget_height, old(ui).placer().row_height, label_size);
                &&& !label_ok ==> r == Err::<Response, GuiError>(GuiError::NoSpaceLeft)
                &&& label_ok ==> match size {
                    Err(e) => r == Err::<Response, GuiError>(e),
                    Ok(sz) => match allocation(*old(ui), sz) {
                        Err(e) => r == Err::<Response, GuiError>(e),
                        Ok((area, inter)) => {
                            let now = after_set(
                                old(self).smartstate_spec().inner(),
                                if old(self).enabled() { Some(icon_button_state_id(inter)) } else { None },
                            );
                            let redraw = needs_redraw(old(self).smartstate_spec().inner(), now) || old(self).modified();
                            &&& r matches Ok(resp)
                            &&& resp.internal.area == area
                            &&& resp.internal.interaction == inter
                            &&& resp.click == (old(self).enabled() && inter is Release)
                            &&& resp.down == (old(self).enabled() && inter.is_down())
                            &&& !resp.changed
                            &&& resp.redraw == redraw
                            &&& resp.error is None
                            &&& final(self).smartstate_spec().inner() == now
                            &&& !final(self).modified()
                            &&& (!redraw ==> final(ui).commands() == old(ui).commands())
                            &&& (redraw ==> exists|t: Option<String>|
                                #[trigger] same_label(t, old(self).label_spec()) && final(ui).commands() == old(ui).commands()
                                    + old(ui).framed(
                                    area,
                                    icon_button_items(
                                        area,
                                        state_style(ws, old(self).enabled(), inter),
                                        old(self).icon(),
                                        t,
                                        st.default_font,
                                        match label_size {
                                            Some(ls) => ls.height as int,
                                            None => 0,
                                        },
                                        st.spacing.button_padding,
                                        ws.normal.border_width,
                                    ),
                                ))
                        },
                    },
                }
            }),
            final(self).icon() == old(self).icon(),
            final(self).label_spec() == old(self).label_spec(),
            final(self).enabled() == old(self).enabled(),
            final(self).custom_style() == old(self).custom_style(),
    {
        let widget_style = match self.custom_style {
            Some(s) => s,
            None => ui.style().widget,
        };
        let font = ui.style().default_font;
        let padding = ui.style().spacing.button_padding;
        let border = widget_style.normal.border_width;
        let (size, text_h) = icon_button_extent(self.icon.size, self.label, &font, padding, border, ui.style().default_widget_height, ui.get_row_height())?;
        let iresponse = ui.allocate_space(size)?;
        let area = iresponse.area;
        let inter = iresponse.interaction;
        let id = if self.is_enabled {
            Some(match inter {
                Interaction::Idle => 1,
                Interaction::Hover(_) => 2,
                _ => 3,
            })
        } else {
            None
        };
        let look = state_look(&widget_style, self.is_enabled, inter);
        let redraw = update_smartstate(&mut self.smartstate, id) || self.is_modified;
        if redraw {
            draw_icon_button(ui, area, &look, self.icon, self.label, font, text_h, padding, border);
        }
        self.is_modified = false;
        let click = self.is_enabled && is_release(inter);
        let down = self.is_enabled && is_down(inter);
        Ok(Response::new(iresponse).set_clicked(click).set_down(down).set_redraw(redraw))
    }
}

/// The commands that draw an icon button in `area` with the look `look`: the box, the icon
/// centered in the space above the label, and the label `text` (of height `text_h`) centered at
/// the bottom, above the padding and border. Coordinates are truncated to `i32`.
pub open spec fn icon_button_items<COL>(
    area: Rectangle,
    look: WidgetStateStyle<COL>,
    icon: Icon,
    text: Option<String>,
    font: MonoFont,
    text_h: int,
    padding: Size,
    border: u32,
) -> Seq<DrawCommand<COL>> {
    let below = if text is Some { text_h + padding.height } else { 0 };
    seq![
        DrawCommand::Rect {
            rect: area,
            style: PrimitiveStyle {
                fill_color: Some(look.background_color),
                stroke_color: Some(look.border_color),
                stroke_width: look.border_width,
            },
        },
        DrawCommand::Icon {
            icon,
            top_left: Point {
                x: (area.top_left.x + trunc_div(area.size.width - icon.size, 2)) as i32,
                y: (area.top_left.y + trunc_div(area.size.height - icon.size - below, 2)) as i32,
            },
            color: look.foreground_color,
        },
    ] + match text {
        Some(t) => seq![
            DrawCommand::Text {
                text: t,
                position: Point {
                    x: (area.top_left.x + area.size.width / 2) as i32,
                    y: (area.top_left.y + area.size.height - text_h - padding.height - border) as i32,
                },
                font,
                color: look.foreground_color,
                baseline: TextBaseline::Top,
                centered: true,
            },
        ],
        None => Seq::empty(),
    }
}

/// Draws an icon button in `area`: the box in the colors of `look`, the icon centered in the
/// space above the label, and the label centered at the bottom.
fn draw_icon_button<COL: Copy>(
    ui: &mut Ui<'_, COL>,
    area: Rectangle,
    look: &WidgetStateStyle<COL>,
    icon: Icon,
    label: Option<&str>,
    font: MonoFont,
    text_h: u64,
    padding: Size,
    border: u32,
)
    requires
        !old(ui).framebuf_active(),
        text_h <= u32::MAX,
    ensures
        exists|t: Option<String>| #[trigger] same_label(t, label) && final(ui).commands() == old(ui).commands() + old(ui).framed(
            area,
            icon_button_items(area, *look, icon, t, font, text_h as int, padding, border),
        ),
        final(ui).commands().len() > old(ui).commands().len(),
        !final(ui).framebuf_active(),
        final(ui).placer() == old(ui).placer(),
        final(ui).unchanged_frame(*old(ui)),
        final(ui).interaction() == old(ui).interaction(),
        final(ui).is_cleared() == old(ui).is_cleared(),
        final(ui).popup_showing() == old(ui).popup_showing(),
        final(ui).has_popup_layer() == old(ui).has_popup_layer(),
{
    let left: i64 = area.top_left.x as i64;
    let top: i64 = area.top_left.y as i64;
    let w: i64 = area.size.width as i64;
    let h: i64 = area.size.height as i64;
    let px: i64 = icon.size as i64;
    let below: i64 = match label {
        Some(_) => text_h as i64 + padding.height as i64,
        None => 0,
    };
    ui.start_drawing(&area);
    let _ = ui.draw(DrawCommand::Rect {
        rect: Rectangle::new(area.top_left, area.size),
        style: PrimitiveStyle::filled_with_border(look.background_color, look.border_color, look.border_width),
    });
    let _ = ui.draw(DrawCommand::Icon {
        icon,
        top_left: Point::new(coord(left + (w - px) / 2), coord(top + (h - px - below) / 2)),
        color: look.foreground_color,
    });
    let ghost mut t: Option<String> = None;
    if let Some(label) = label {
        let owned = label.to_owned();
        proof {
            t = Some(owned);
        }
        let _ = ui.draw(DrawCommand::Text {
            text: owned,
            position: Point::new(coord(left + w / 2), coord(top + h - text_h as i64 - padding.height as i64 - border as i64)),
            font,
            color: look.foreground_color,
            baseline: TextBaseline::Top,
            centered: true,
        });
    }
    let _ = ui.finalize();
    assert(same_label(t, label));
    assert(ui.commands() =~= old(ui).commands() + old(ui).framed(
        area,
        icon_button_items(area, *look, icon, t, font, text_h as int, padding, border),
    ));
}

} // verus!
