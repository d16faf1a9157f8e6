//! # Spacer Widget
//!
//! An invisible widget that only takes up space in the layout.

use crate::geometry::Size;
use crate::ui::{allocation, placer_next, GuiError, GuiResult, Response, Ui, Widget};
use vstd::prelude::*;

verus! {

/// A widget that allocates `space` and draws nothing.
pub struct Spacer {
    pub space: Size,
}

impl Spacer {
    pub fn new(space: Size) -> (s: Spacer)
        ensures
            s.space == space,
    {
        Spacer { space }
    }
}

impl<COL: Copy> Widget<COL> for Spacer {
    fn draw(&mut self, ui: &mut Ui<'_, COL>) -> (r: GuiResult<Response>)
        ensures
            match allocation(*old(ui), old(self).space) {
                Err(e) => r == Err::<Response, GuiError>(e),
                Ok((area, inter)) => r matches Ok(resp) && resp.internal.area == area && resp.internal.interaction == inter
                    && !resp.click && !resp.down && !resp.changed && resp.redraw && resp.error is None,
            },
            final(ui).commands() == old(ui).commands(),
            final(ui).placer() == placer_next(old(ui).placer(), old(self).space).0,
            final(ui).same_but_layout(*old(ui)),
            *final(self) == *old(self),
    {
        let space = ui.allocate_space(self.space)?;
        Ok(Response::new(space))
    }
}

} // verus!
