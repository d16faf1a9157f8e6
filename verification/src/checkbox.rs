//! # Checkbox Widget
//!
//! A square checkbox that toggles a boolean when released on, showing a check mark icon while
//! the boolean is set.

use crate::button::{is_release, state_look, state_style};
use crate::draw::{DrawCommand, Icon, PrimitiveStyle};
use crate::geometry::{Point, Rectangle, Size};
use crate::smartstate::{after_set, needs_redraw, update_smartstate, Container, Smartstate};
use crate::style::WidgetStateStyle;
use crate::ui::{allocation, max_of, max_u32, GuiError, GuiResult, Interaction, Response, Ui, Widget};
use vstd::prelude::*;

verus! {

broadcast use crate::smartstate::lemma_spec_state;

/// A checkbox widget for toggling boolean values.
///
/// The checkbox state is stored in a mutable reference to a boolean value, allowing the
/// application to directly access the current state. The checkbox is a square of the default
/// widget height (or the row height, when larger); a release on it toggles the value.
pub struct Checkbox<'a> {
    pub checked: &'a mut bool,
    pub smartstate: Container<'a, Smartstate>,
    pub is_enabled: bool,
    pub is_modified: bool,
}

/// The smartstate id of a checkbox's look: 1 while pressed or released on, 2 when hovered,
/// 3 otherwise.
pub open spec fn checkbox_state_id(i: Interaction) -> u32 {
    match i {
        Interaction::Click(_) | Interaction::Drag(_) | Interaction::Release(_) => 1,
        Interaction::Hover(_) => 2,
        _ => 3,
    }
}

/// The size in pixels of the check mark icon for a checkbox of side `side` with padding `pad`.
pub open spec fn check_icon_size(side: u32, pad: u32) -> u32 {
    let d = side - pad;
    if d <= 18 {
        12
    } else if d <= 23 {
        18
    } else if d <= 32 {
        24
    } else {
        32
    }
}

/// The commands that draw a checkbox of side `side` (square padding `pad`) in `area` with the
/// look `look`: the background cleared first when the UI's was not and the box is small, the
/// box, and the check mark centered when `checked`.
pub open spec fn checkbox_items<'b, COL: Copy>(
    ui: Ui<'b, COL>,
    area: Rectangle,
    look: WidgetStateStyle<COL>,
    checked: bool,
    side: u32,
    pad: u32,
) -> Seq<DrawCommand<COL>> {
    let icon_size = if pad <= side { check_icon_size(side, pad) } else { 12 };
    (if side - pad < 12 { ui.clearing(area) } else { Seq::empty() }) + seq![
        DrawCommand::Rect {
            rect: area,
            style: PrimitiveStyle {
                fill_color: Some(look.background_color),
                stroke_color: Some(look.border_color),
                stroke_width: look.border_width,
            },
        },
    ] + if checked {
        seq![
            DrawCommand::Icon {
                icon: Icon { name: "actions::Check", size: icon_size },
                top_left: Point {
                    x: (area.top_left.x + area.size.width / 2 - icon_size / 2) as i32,
                    y: (area.top_left.y + area.size.height / 2 - icon_size / 2) as i32,
                },
                color: look.foreground_color,
            },
        ]
    } else {
        Seq::empty()
    }
}

impl<'a> Checkbox<'a> {
    /// Whether the box is checked.
    pub open spec fn checked(&self) -> bool {
        *self.checked
    }

    /// The reference the checkbox sets the value through.
    pub open spec fn checked_target(&self) -> &'a mut bool {
        self.checked
    }

    pub open spec fn smartstate_spec(&self) -> Container<'a, Smartstate> {
        self.smartstate
    }

    pub open spec fn enabled(&self) -> bool {
        self.is_enabled
    }

    pub open spec fn modified(&self) -> bool {
        self.is_modified
    }

    /// A checkbox for `checked`, enabled, without smartstate.
    pub fn new(checked: &'a mut bool) -> (c: Checkbox<'a>)
        ensures
            c.checked() == *old(checked),
            *final(c.checked_target()) == *final(checked),
            c.smartstate_spec().inner() is None,
            c.enabled(),
            !c.modified(),
    {
        Checkbox { checked, smartstate: Container::empty(), is_enabled: true, is_modified: false }
    }

    /// Attaches a [Smartstate] to the checkbox for incremental redrawing: the checkbox then only
    /// redraws when its state or appearance changes.
    pub fn smartstate(self, smartstate: &'a mut Smartstate) -> (c: Self)
        ensures
            c.smartstate_spec().inner() == Some(*old(smartstate)),
            c.smartstate_spec().target() matches Some(r) && *final(r) == *final(smartstate),
            c.checked() == self.checked(),
            c.checked_target() == self.checked_target(),
            c.enabled() == self.enabled(),
            c.modified() == self.modified(),
    {
        let mut c = self;
        c.smartstate.set(smartstate);
        c
    }
}

/// The size in pixels of the check mark icon (see [`check_icon_size`]).
fn check_icon(side: u32, pad: u32) -> (s: u32)
    requires
        pad <= side,
    ensures
        s == check_icon_size(side, pad),
{
    let d = side - pad;
    if d <= 18 {
        12
    } else if d <= 23 {
        18
    } else if d <= 32 {
        24
    } else {
        32
    }
}

impl<'a, COL: Copy> Widget<COL> for Checkbox<'a> {
    fn draw(&mut self, ui: &mut Ui<'_, COL>) -> (r: GuiResult<Response>)
        ensures
            old(self).smartstate_spec().target() matches Some(r1) ==> (final(self).smartstate_spec().target() matches Some(r2)
                && *final(r2) == *final(r1)),
            ({
                let st = old(ui).style_spec();
                let side = if st.default_widget_height >= old(ui).placer().row_height {
                    st.default_widget_height
                } else {
                    old(ui).placer().row_height
                };
                match allocation(*old(ui), Size { width: side, height: side }) {
                    Err(e) => r == Err::<Response, GuiError>(e) && final(self).checked() == old(self).checked()
                        && final(self).smartstate_spec() == old(self).smartstate_spec(),
                    Ok((area, inter)) => {
                        let toggled = inter is Release;
                        let now = after_set(
                            old(self).smartstate_spec().inner(),
                            if old(self).enabled() { Some(checkbox_state_id(inter)) } else { None },
                        );
                        let redraw = needs_redraw(old(self).smartstate_spec().inner(), now) || toggled || old(self).modified();
                        &&& r matches Ok(resp)
                        &&& resp.internal.area == area
                        &&& resp.internal.interaction == inter
                        &&& resp.changed == (old(self).enabled() && toggled)
                        &&& !resp.click
                        &&& !resp.down
                        &&& resp.redraw == redraw
                        &&& resp.error is None
                        &&& final(self).checked() == (old(self).checked() != toggled)
                        &&& final(self).smartstate_spec().inner() == now
                        &&& !final(self).modified()
                        &&& (!redraw ==> final(ui).commands() == old(ui).commands())
                        &&& (redraw ==> final(ui).commands() == old(ui).commands() + old(ui).framed(
                            area,
                            checkbox_items(
                                *old(ui),
                                area,
                                state_style(st.widget, old(self).enabled(), inter),
                                final(self).checked(),
                                side,
                                max_u32(st.spacing.default_padding.width, st.spacing.default_padding.height),
                            ),
                        ))
                    },
                }
            }),
            *final(final(self).checked_target()) == *final(old(self).checked_target()),
            final(self).enabled() == old(self).enabled(),
    {
        let side = max_of(ui.style().default_widget_height, ui.get_row_height());
        let pad = ui.style().spacing.default_padding;
        let square_pad = max_of(pad.width, pad.height);
        let iresponse = ui.allocate_space(Size::new(side, side))?;
        let area = iresponse.area;
        let inter = iresponse.interaction;
        let changed = is_release(inter);
        if changed {
            *self.checked = !*self.checked;
        }
        let widget_style = ui.style().widget;
        let look = state_look(&widget_style, self.is_enabled, inter);
        let id = if self.is_enabled {
            Some(match inter {
                Interaction::Click(_) | Interaction::Drag(_) | Interaction::Release(_) => 1,
                Interaction::Hover(_) => 2,
                _ => 3,
            })
        } else {
            None
        };
        let redraw = update_smartstate(&mut self.smartstate, id) || changed || self.is_modified;
        if redraw {
            draw_checkbox(ui, area, &look, *self.checked, side, square_pad);
        }
        self.is_modified = false;
        Ok(Response::new(iresponse).set_changed(self.is_enabled && changed).set_redraw(redraw))
    }
}

/// Draws a checkbox of side `side` in `area`: the box in the colors of `look`, the background
/// cleared first when the UI was not cleared and the box is small, and the check mark centered
/// when `checked`.
fn draw_checkbox<COL: Copy>(ui: &mut Ui<'_, COL>, area: Rectangle, look: &WidgetStateStyle<COL>, checked: bool, side: u32, pad: u32)
    requires
        !old(ui).framebuf_active(),
    ensures
        final(ui).commands() == old(ui).commands() + old(ui).framed(area, checkbox_items(*old(ui), area, *look, checked, side, pad)),
        final(ui).commands().len() > old(ui).commands().len(),
        !final(ui).framebuf_active(),
        final(ui).placer() == old(ui).placer(),
        final(ui).unchanged_frame(*old(ui)),
        final(ui).interaction() == old(ui).interaction(),
        final(ui).is_cleared() == old(ui).is_cleared(),
        final(ui).popup_showing() == old(ui).popup_showing(),
        final(ui).has_popup_layer() == old(ui).has_popup_layer(),
{
    ui.start_drawing(&area);
    let small = (side as i64 - pad as i64) < 12;
    if !ui.cleared() && small {
        let _ = ui.clear_area(area);
    }
    let rect = DrawCommand::Rect {
        rect: Rectangle::new(area.top_left, area.size),
        style: PrimitiveStyle::filled_with_border(look.background_color, look.border_color, look.border_width),
    };
    let _ = ui.draw(rect);
    let ghost after_box = ui.commands();
    if checked {
        let icon_size: u32 = if pad <= side { check_icon(side, pad) } else { 12 };
        let x: i64 = area.top_left.x as i64 + (area.size.width / 2) as i64 - (icon_size / 2) as i64;
        let y: i64 = area.top_left.y as i64 + (area.size.height / 2) as i64 - (icon_size / 2) as i64;
        let _ = ui.draw(DrawCommand::Icon {
            icon: Icon::new("actions::Check", icon_size),
            top_left: Point::new(#[verifier::truncate] (x as i32), #[verifier::truncate] (y as i32)),
            color: look.foreground_color,
        });
    }
    let _ = ui.finalize();
    assert(ui.commands() =~= old(ui).commands() + old(ui).framed(area, checkbox_items(*old(ui), area, *look, checked, side, pad)));
}

} // verus!
