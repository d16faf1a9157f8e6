//! # Toggle Button Widget
//!
//! A button with a text label that stays pressed: a release on it flips a boolean, and it is
//! filled with the primary color while the boolean is set.

use crate::button::{box_with_text_drawn, draw_box_with_text, is_down, is_release};
use crate::geometry::{Point, Size};
use crate::smartstate::{after_set, needs_redraw, update_smartstate, Container, Smartstate};
use crate::style::{Style, WidgetStateStyle};
use crate::text::{measurable, measure_text, text_size};
use crate::ui::{allocation, checked_size, spec_checked_size, GuiError, GuiResult, Interaction, Response, Ui, Widget};
use vstd::prelude::*;

verus! {

broadcast use crate::smartstate::lemma_spec_state;

/// A toggle button: a labelled button for a boolean.
pub struct ToggleButton<'a> {
    pub label: &'a str,
    pub active: &'a mut bool,
    pub smartstate: Container<'a, Smartstate>,
}

/// The smartstate id of a toggle button: by state and interaction (pressed or released on,
/// hovered, other).
pub open spec fn toggle_state_id(active: bool, i: Interaction) -> u32 {
    match i {
        Interaction::Click(_) | Interaction::Drag(_) | Interaction::Release(_) => if active { 1 } else { 4 },
        Interaction::Hover(_) => if active { 2 } else { 5 },
        _ => if active { 3 } else { 6 },
    }
}

/// The size of a toggle button around text of size `text`.
pub open spec fn toggle_button_size(text: Size, pad: Size, border: u32, min_height: u32) -> Result<Size, GuiError> {
    let h0 = text.height + 2 * pad.height + 2 * border;
    spec_checked_size(text.width + 2 * pad.width + 2 * border, if h0 >= min_height { h0 } else { min_height as int })
}

/// The look of a toggle button: filled with the primary color while on or pressed, with the
/// highlight item background when hovered, else with the item background; outlined with the
/// highlight border while pressed or hovered; labelled in the text color.
pub open spec fn toggle_look<COL>(style: Style<COL>, active: bool, i: Interaction) -> WidgetStateStyle<COL> {
    let pressed = i is Click || i is Drag || i is Release;
    let hovered = i is Hover;
    WidgetStateStyle {
        background_color: if active || pressed {
            style.primary_color
        } else if hovered {
            style.highlight_item_background_color
        } else {
            style.item_background_color
        },
        border_color: if pressed || hovered { style.highlight_border_color } else { style.border_color },
        foreground_color: style.text_color,
        border_width: if pressed || hovered { style.highlight_border_width } else { style.border_width },
    }
}

/// A toggle button shows its state: while on it is filled with the style's primary color,
/// whatever the interaction; while off and untouched it is filled with the item background, and
/// hovering it uses the highlight item background. A press (click, drag or release) fills it
/// with the primary color in either state.
pub proof fn law_toggle_shows_state<COL>(style: Style<COL>, active: bool, i: Interaction)
    ensures
        active ==> toggle_look(style, active, i).background_color == style.primary_color,
        !active && i is Idle ==> toggle_look(style, active, i).background_color == style.item_background_color,
        !active && i is Hover ==> toggle_look(style, active, i).background_color == style.highlight_item_background_color,
        (i is Click || i is Drag || i is Release) ==> toggle_look(style, active, i).background_color == style.primary_color,
        toggle_look(style, true, i).foreground_color == toggle_look(style, false, i).foreground_color,
        toggle_look(style, true, i).border_color == toggle_look(style, false, i).border_color,
{
}

impl<'a> ToggleButton<'a> {
    pub open spec fn label_spec(&self) -> &'a str {
        self.label
    }

    /// Whether the button is toggled on.
    pub open spec fn active(&self) -> bool {
        *self.active
    }

    /// The reference the button sets the value through.
    pub open spec fn active_target(&self) -> &'a mut bool {
        self.active
    }

    pub open spec fn smartstate_spec(&self) -> Container<'a, Smartstate> {
        self.smartstate
    }

    /// A toggle button labelled `label` for `active`, without smartstate.
    pub fn new(label: &'a str, active: &'a mut bool) -> (b: ToggleButton<'a>)
        ensures
            b.label_spec() == label,
            b.active() == *old(active),
            *final(b.active_target()) == *final(active),
            b.smartstate_spec().inner() is None,
    {
        ToggleButton { label, active, smartstate: Container::empty() }
    }

    /// Adds smartstate support: the button then only redraws when its look changes.
    pub fn smartstate(self, smartstate: &'a mut Smartstate) -> (b: Self)
        ensures
            b.smartstate_spec().inner() == Some(*old(smartstate)),
            b.smartstate_spec().target() matches Some(r) && *final(r) == *final(smartstate),
            b.label_spec() == self.label_spec(),
            b.active() == self.active(),
            b.active_target() == self.active_target(),
    {
        let mut b = self;
        b.smartstate.set(smartstate);
        b
    }
}

impl<'a, COL: Copy> Widget<COL> for ToggleButton<'a> {
    fn draw(&mut self, ui: &mut Ui<'_, COL>) -> (r: GuiResult<Response>)
        ensures
            old(self).smartstate_spec().target() matches Some(r1) ==> (final(self).smartstate_spec().target() matches Some(r2)
                && *final(r2) == *final(r1)),
            ({
                let st = old(ui).style_spec();
                let font = st.default_font;
                let size = toggle_button_size(text_size(old(self).label_spec()@, font), st.spacing.button_padding, st.border_width, st.default_widget_height);
                &&& !measurable(old(self).label_spec(), font) ==> r == Err::<Response, GuiError>(GuiError::NoSpaceLeft)
                    && final(self).active() == old(self).active()
                &&& measurable(old(self).label_spec(), font) ==> match size {
                    Err(e) => r == Err::<Response, GuiError>(e) && final(self).active() == old(self).active(),
                    Ok(sz) => match allocation(*old(ui), sz) {
                        Err(e) => r == Err::<Response, GuiError>(e) && final(self).active() == old(self).active(),
                        Ok((area, inter)) => {
                            let toggled = inter is Release;
                            let active = old(self).active() != toggled;
                            let now = after_set(old(self).smartstate_spec().inner(), Some(toggle_state_id(active, inter)));
                            let redraw = needs_redraw(old(self).smartstate_spec().inner(), now) || toggled;
                            &&& r matches Ok(resp)
                            &&& resp.internal.area == area
                            &&& resp.internal.interaction == inter
                            &&& resp.click == toggled
                            &&& resp.down == inter.is_down()
                            &&& resp.changed == toggled
                            &&& resp.redraw == redraw
                            &&& resp.error is None
                            &&& final(self).active() == active
                            &&& final(self).smartstate_spec().inner() == now
                            &&& (!redraw ==> final(ui).commands() == old(ui).commands())
                            &&& (redraw ==> box_with_text_drawn(
                                *old(ui),
                                *final(ui),
                                area,
                                toggle_look(st, active, inter),
                                old(self).label_spec()@,
                                Point {
                                    x: (area.top_left.x + st.spacing.button_padding.width + st.border_width) as i32,
                                    y: (area.top_left.y + st.spacing.button_padding.height + st.border_width) as i32,
                                },
                                font,
                                false,
                            ))
                        },
                    },
                }
            }),
            *final(final(self).active_target()) == *final(old(self).active_target()),
            final(self).label_spec() == old(self).label_spec(),
    {
        let font = ui.style().default_font;
        let padding = ui.style().spacing.button_padding;
        let border = ui.style().border_width;
        let min_height = ui.style().default_widget_height;
        let ts = match measure_text(self.label, &font) {
            Some(ts) => ts,
            None => {
                return Err(GuiError::NoSpaceLeft);
            },
        };
        let h0: u64 = ts.height as u64 + 2 * padding.height as u64 + 2 * border as u64;
        let size = checked_size(
            ts.width as u64 + 2 * padding.width as u64 + 2 * border as u64,
            if h0 >= min_height as u64 { h0 } else { min_height as u64 },
        )?;
        let iresponse = ui.allocate_space(size)?;
        let area = iresponse.area;
        let inter = iresponse.interaction;
        let changed = is_release(inter);
        if changed {
            *self.active = !*self.active;
        }
        let active = *self.active;
        let pressed = match inter {
            Interaction::Click(_) | Interaction::Drag(_) | Interaction::Release(_) => true,
            _ => false,
        };
        let hovered = match inter {
            Interaction::Hover(_) => true,
            _ => false,
        };
        let state: u32 = if pressed {
            if active { 1 } else { 4 }
        } else if hovered {
            if active { 2 } else { 5 }
        } else {
            if active { 3 } else { 6 }
        };
        let style = ui.style();
        let highlighted = pressed || hovered;
        let look = WidgetStateStyle {
            background_color: if active || pressed {
                style.primary_color
            } else if hovered {
                style.highlight_item_background_color
            } else {
                style.item_background_color
            },
            border_color: if highlighted { style.highlight_border_color } else { style.border_color },
            foreground_color: style.text_color,
            border_width: if highlighted { style.highlight_border_width } else { style.border_width },
        };
        let redraw = update_smartstate(&mut self.smartstate, Some(state)) || changed;
        if redraw {
            let text_pos = Point::new(area.top_left.x + (padding.width + border) as i32, area.top_left.y + (padding.height + border) as i32);
            draw_box_with_text(ui, area, &look, self.label, text_pos, font, false);
        }
        Ok(Response::new(iresponse).set_clicked(changed).set_down(is_down(inter)).set_changed(changed).set_redraw(redraw))
    }
}

} // verus!
