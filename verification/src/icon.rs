//! # Icon Widget
//!
//! Shows a single icon of the iconoir set in the UI's icon color.

use crate::draw::{DrawCommand, Icon};
use crate::geometry::{Point, Size};
use crate::smartstate::{after_set, needs_redraw, update_smartstate, Container, Smartstate};
use crate::ui::{allocation, GuiError, GuiResult, Response, Ui, Widget};
use vstd::prelude::*;

verus! {

broadcast use crate::smartstate::lemma_spec_state;

/// A widget that shows an icon; icons are square, as large as their pixel size.
pub struct IconWidget<'a> {
    pub icon: Icon,
    pub smartstate: Container<'a, Smartstate>,
}

impl<'a> IconWidget<'a> {
    pub open spec fn icon(&self) -> Icon {
        self.icon
    }

    pub open spec fn smartstate_spec(&self) -> Container<'a, Smartstate> {
        self.smartstate
    }

    /// An icon widget for `icon`, without smartstate.
    pub fn new(icon: Icon) -> (w: Self)
        ensures
            w.icon() == icon,
            w.smartstate_spec().inner() is None,
    {
        IconWidget { icon, smartstate: Container::empty() }
    }

    /// An icon widget for the icon `icon` names (the same as [`IconWidget::new`]).
    pub fn new_from_type(icon: Icon) -> (w: Self)
        ensures
            w.icon() == icon,
            w.smartstate_spec().inner() is None,
    {
        Self::new(icon)
    }

    /// Adds smartstate support: with a smartstate, the icon is drawn only once.
    pub fn smartstate(self, smartstate: &'a mut Smartstate) -> (w: Self)
        ensures
            w.smartstate_spec().inner() == Some(*old(smartstate)),
            w.smartstate_spec().target() matches Some(r) && *final(r) == *final(smartstate),
            w.icon() == self.icon(),
    {
        let mut w = self;
        w.smartstate.set(smartstate);
        w
    }
}

impl<'a, COL: Copy> Widget<COL> for IconWidget<'a> {
    fn draw(&mut self, ui: &mut Ui<'_, COL>) -> (r: GuiResult<Response>)
        ensures
            old(self).smartstate_spec().target() matches Some(r1) ==> (final(self).smartstate_spec().target() matches Some(r2)
                && *final(r2) == *final(r1)),
            match allocation(*old(ui), Size { width: old(self).icon().size, height: old(self).icon().size }) {
                Err(e) => r == Err::<Response, GuiError>(e),
                Ok((area, inter)) => {
                    let now = after_set(old(self).smartstate_spec().inner(), Some(1u32));
                    &&& r matches Ok(resp)
                    &&& resp.internal.area == area
                    &&& resp.internal.interaction == inter
                    &&& !resp.click && !resp.down && !resp.changed && resp.error is None
                    &&& resp.redraw == needs_redraw(old(self).smartstate_spec().inner(), now)
                    &&& final(self).smartstate_spec().inner() == now
                    &&& (!needs_redraw(old(self).smartstate_spec().inner(), now) ==> final(ui).commands() == old(ui).commands())
                    &&& (needs_redraw(old(self).smartstate_spec().inner(), now) ==> final(ui).commands() == old(ui).commands()
                        + old(ui).framed(
                        area,
                        old(ui).clearing(area) + seq![
                            DrawCommand::Icon {
                                icon: old(self).icon(),
                                top_left: Point {
                                    x: area.top_left.x,
                                    y: (area.top_left.y + (area.size.height - old(self).icon().size) / 2) as i32,
                                },
                                color: old(ui).style_spec().icon_color,
                            },
                        ],
                    ))
                },
            },
            final(self).icon() == old(self).icon(),
    {
        let px = self.icon.size;
        let iresponse = ui.allocate_space(Size::new(px, px))?;
        let area = iresponse.area;
        let redraw = update_smartstate(&mut self.smartstate, Some(1));
        if redraw {
            let color = ui.style().icon_color;
            ui.start_drawing(&area);
            if !ui.cleared() {
                let _ = ui.clear_area(area);
            }
            let y: i64 = area.top_left.y as i64 + ((area.size.height - px) / 2) as i64;
            let top_left = Point::new(area.top_left.x, #[verifier::truncate] (y as i32));
            let _ = ui.draw(DrawCommand::Icon { icon: self.icon, top_left, color });
            let _ = ui.finalize();
            assert(ui.commands() =~= old(ui).commands() + old(ui).framed(
                area,
                old(ui).clearing(area) + seq![DrawCommand::Icon { icon: self.icon, top_left, color }],
            ));
        }
        Ok(Response::new(iresponse).set_redraw(redraw))
    }
}

} // verus!
