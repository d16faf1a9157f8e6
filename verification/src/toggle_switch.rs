//! # Toggle Switch Widget
//!
//! A sliding on/off switch for a boolean: a rounded track with a round knob on the side of the
//! current state.

use crate::button::{is_down, is_release};
use crate::draw::{DrawCommand, PrimitiveStyle};
use crate::geometry::{coord, Point, Rectangle, Size};
use crate::smartstate::{after_set, needs_redraw, update_smartstate, Container, Smartstate};
use crate::style::Style;
use crate::ui::{allocation, checked_size, spec_checked_size, GuiError, GuiResult, Interaction, Response, Ui, Widget};
use vstd::prelude::*;

verus! {

broadcast use crate::smartstate::lemma_spec_state;

/// A toggle switch for a boolean; a release on it flips the value.
pub struct ToggleSwitch<'a> {
    pub active: &'a mut bool,
    pub smartstate: Container<'a, Smartstate>,
    pub width: u32,
    pub height: u32,
}

/// The smartstate id of a switch: by interaction (pressed, hovered, other) and state.
pub open spec fn switch_state_id(i: Interaction, active: bool) -> u32 {
    match i {
        Interaction::Click(_) | Interaction::Drag(_) => if active { 1 } else { 2 },
        Interaction::Hover(_) => if active { 3 } else { 4 },
        _ => if active { 5 } else { 6 },
    }
}

impl<'a> ToggleSwitch<'a> {
    /// Whether the switch is on.
    pub open spec fn active(&self) -> bool {
        *self.active
    }

    /// The reference the switch sets the value through.
    pub open spec fn active_target(&self) -> &'a mut bool {
        self.active
    }

    pub open spec fn smartstate_spec(&self) -> Container<'a, Smartstate> {
        self.smartstate
    }

    pub open spec fn width_spec(&self) -> u32 {
        self.width
    }

    pub open spec fn height_spec(&self) -> u32 {
        self.height
    }

    /// A switch for `active`, 50 by 25 pixels, without smartstate.
    pub fn new(active: &'a mut bool) -> (s: ToggleSwitch<'a>)
        ensures
            s.active() == *old(active),
            *final(s.active_target()) == *final(active),
            s.smartstate_spec().inner() is None,
            s.width_spec() == 50,
            s.height_spec() == 25,
    {
        ToggleSwitch { active, smartstate: Container::empty(), width: 50, height: 25 }
    }

    /// Adds smartstate support: the switch then only redraws when its look changes.
    pub fn smartstate(self, smartstate: &'a mut Smartstate) -> (s: Self)
        ensures
            s.smartstate_spec().inner() == Some(*old(smartstate)),
            s.smartstate_spec().target() matches Some(r) && *final(r) == *final(smartstate),
            s.active() == self.active(),
            s.active_target() == self.active_target(),
            s.width_spec() == self.width_spec(),
            s.height_spec() == self.height_spec(),
    {
        let mut s = self;
        s.smartstate.set(smartstate);
        s
    }

    /// Sets the width of the track, at least 30 pixels.
    pub fn width(self, width: u32) -> (s: Self)
        ensures
            s.width_spec() == if width >= 30 { width } else { 30 },
            s.active() == self.active(),
            s.active_target() == self.active_target(),
            s.smartstate_spec() == self.smartstate_spec(),
            s.height_spec() == self.height_spec(),
    {
        let mut s = self;
        s.width = if width >= 30 { width } else { 30 };
        s
    }

    /// Sets the height of the track, at least 15 pixels.
    pub fn height(self, height: u32) -> (s: Self)
        ensures
            s.height_spec() == if height >= 15 { height } else { 15 },
            s.active() == self.active(),
            s.active_target() == self.active_target(),
            s.smartstate_spec() == self.smartstate_spec(),
            s.width_spec() == self.width_spec(),
    {
        let mut s = self;
        s.height = if height >= 15 { height } else { 15 };
        s
    }
}

impl<'a, COL: Copy> Widget<COL> for ToggleSwitch<'a> {
    fn draw(&mut self, ui: &mut Ui<'_, COL>) -> (r: GuiResult<Response>)
        ensures
            old(self).smartstate_spec().target() matches Some(r1) ==> (final(self).smartstate_spec().target() matches Some(r2)
                && *final(r2) == *final(r1)),
            ({
                let pad = old(ui).style_spec().spacing.button_padding;
                match spec_checked_size(old(self).width_spec() + 2 * pad.width, old(self).height_spec() + 2 * pad.height) {
                    Err(e) => r == Err::<Response, GuiError>(e) && final(self).active() == old(self).active(),
                    Ok(sz) => match allocation(*old(ui), sz) {
                        Err(e) => r == Err::<Response, GuiError>(e) && final(self).active() == old(self).active(),
                        Ok((area, inter)) => {
                            let toggled = inter is Release;
                            let active = old(self).active() != toggled;
                            let now = after_set(old(self).smartstate_spec().inner(), Some(switch_state_id(inter, active)));
                            let redraw = needs_redraw(old(self).smartstate_spec().inner(), now) || toggled;
                            &&& r matches Ok(resp)
                            &&& resp.internal.area == area
                            &&& resp.internal.interaction == inter
                            &&& resp.click == toggled
                            &&& resp.down == inter.is_down()
                            &&& resp.changed == toggled
                            &&& resp.redraw == redraw
                            &&& resp.error is None
                            &&& final(self).active() == active
                            &&& final(self).smartstate_spec().inner() == now
                            &&& (!redraw ==> final(ui).commands() == old(ui).commands())
                            &&& (redraw ==> final(ui).commands() == old(ui).commands() + old(ui).framed(
                                area,
                                switch_items(old(ui).style_spec(), area, inter, active, old(self).width_spec(), old(self).height_spec()),
                            ))
                        },
                    },
                }
            }),
            *final(final(self).active_target()) == *final(old(self).active_target()),
            final(self).width_spec() == old(self).width_spec(),
            final(self).height_spec() == old(self).height_spec(),
    {
        let padding = ui.style().spacing.button_padding;
        let size = checked_size(
            self.width as u64 + 2 * padding.width as u64,
            self.height as u64 + 2 * padding.height as u64,
        )?;
        let iresponse = ui.allocate_space(size)?;
        let area = iresponse.area;
        let inter = iresponse.interaction;
        let changed = is_release(inter);
        if changed {
            *self.active = !*self.active;
        }
        let active = *self.active;
        let state: u32 = match inter {
            Interaction::Click(_) | Interaction::Drag(_) => if active { 1 } else { 2 },
            Interaction::Hover(_) => if active { 3 } else { 4 },
            _ => if active { 5 } else { 6 },
        };
        let redraw = update_smartstate(&mut self.smartstate, Some(state)) || changed;
        if redraw {
            draw_switch(ui, area, inter, active, self.width, self.height);
        }
        Ok(Response::new(iresponse).set_clicked(changed).set_down(is_down(inter)).set_changed(changed).set_redraw(redraw))
    }
}

/// The commands that draw a switch of `width` by `height` in `area`: the rounded track
/// (primary color when on, else the item background) outlined in the border color (the
/// highlight border when hovered), and the knob at the end of the current state, colored by the
/// interaction (primary when pressed, highlight item background when hovered). Coordinates are
/// truncated to `i32`; a knob too small to draw gets diameter 0.
pub open spec fn switch_items<COL>(style: Style<COL>, area: Rectangle, inter: Interaction, active: bool, width: u32, height: u32) -> Seq<DrawCommand<COL>> {
    let border_color = if inter is Hover { style.highlight_border_color } else { style.border_color };
    let knob_color = if inter is Click || inter is Drag {
        style.primary_color
    } else if inter is Hover {
        style.highlight_item_background_color
    } else {
        style.item_background_color
    };
    let left = area.top_left.x + style.spacing.button_padding.width;
    let top = area.top_left.y + style.spacing.button_padding.height;
    let knob_radius = height / 2 - style.border_width;
    let knob_x = if active { left + width - knob_radius - style.border_width } else { left + knob_radius + style.border_width };
    let diameter = knob_radius * 2 - 3;
    seq![
        DrawCommand::RoundedRect {
            rect: Rectangle { top_left: Point { x: left as i32, y: top as i32 }, size: Size { width, height } },
            radius: height / 2,
            style: PrimitiveStyle {
                fill_color: Some(if active { style.primary_color } else { style.item_background_color }),
                stroke_color: Some(border_color),
                stroke_width: style.border_width,
            },
        },
        DrawCommand::Circle {
            center: Point { x: knob_x as i32, y: (top + height / 2) as i32 },
            diameter: if 0 <= diameter <= u32::MAX { diameter as u32 } else { 0 },
            style: PrimitiveStyle { fill_color: Some(knob_color), stroke_color: Some(border_color), stroke_width: 2 },
        },
    ]
}

/// Draws a switch in `area`: the rounded track (primary color when on), outlined in the border
/// color (highlighted when hovered), and the knob at the end of the current state, colored by
/// the interaction.
fn draw_switch<COL: Copy>(ui: &mut Ui<'_, COL>, area: Rectangle, inter: Interaction, active: bool, width: u32, height: u32)
    requires
        !old(ui).framebuf_active(),
    ensures
        final(ui).commands() == old(ui).commands() + old(ui).framed(area, switch_items(old(ui).style_spec(), area, inter, active, width, height)),
        !final(ui).framebuf_active(),
        final(ui).placer() == old(ui).placer(),
        final(ui).unchanged_frame(*old(ui)),
        final(ui).interaction() == old(ui).interaction(),
        final(ui).is_cleared() == old(ui).is_cleared(),
        final(ui).popup_showing() == old(ui).popup_showing(),
        final(ui).has_popup_layer() == old(ui).has_popup_layer(),
{
    let style = ui.style();
    let padding = style.spacing.button_padding;
    let switch_color = if active { style.primary_color } else { style.item_background_color };
    let knob_color = match inter {
        Interaction::Click(_) | Interaction::Drag(_) => style.primary_color,
        Interaction::Hover(_) => style.highlight_item_background_color,
        _ => style.item_background_color,
    };
    let border_color = match inter {
        Interaction::Hover(_) => style.highlight_border_color,
        _ => style.border_color,
    };
    let border: i64 = style.border_width as i64;
    let switch_style = PrimitiveStyle::filled_with_border(switch_color, border_color, style.border_width);
    let knob_style = PrimitiveStyle::filled_with_border(knob_color, border_color, 2);
    let left: i64 = area.top_left.x as i64 + padding.width as i64;
    let top: i64 = area.top_left.y as i64 + padding.height as i64;
    let knob_radius: i64 = (height / 2) as i64 - border;
    let knob_x: i64 = if active { left + width as i64 - knob_radius - border } else { left + knob_radius + border };
    let diameter: i64 = knob_radius * 2 - 3;
    ui.start_drawing(&area);
    let _ = ui.draw(DrawCommand::RoundedRect {
        rect: Rectangle::new(Point::new(coord(left), coord(top)), Size::new(width, height)),
        radius: height / 2,
        style: switch_style,
    });
    let _ = ui.draw(DrawCommand::Circle {
        center: Point::new(coord(knob_x), coord(top + (height / 2) as i64)),
        diameter: if diameter >= 0 && diameter <= u32::MAX as i64 { diameter as u32 } else { 0 },
        style: knob_style,
    });
    let _ = ui.finalize();
    assert(ui.commands() =~= old(ui).commands() + old(ui).framed(area, switch_items(old(ui).style_spec(), area, inter, active, width, height)));
}

} // verus!
