//! # Label Widgets
//!
//! Text labels: [`Label`], drawn once per smartstate, and [`HashLabel`], which redraws when the
//! hash of its text changes, for labels whose text changes from frame to frame.

use crate::draw::{DrawCommand, TextBaseline};
use crate::geometry::{Point, Size};
use crate::smartstate::{after_set, needs_redraw, update_smartstate, Container, Smartstate};
use crate::text::{measurable, measure_text, text_size, MonoFont};
use crate::ui::{allocation, placed_with, placer_next, GuiError, GuiResult, Response, Ui, Widget};
use core::hash::BuildHasher;
use core::hash::Hash;
use foldhash::fast::RandomState;
use vstd::prelude::*;

verus! {

broadcast use crate::smartstate::lemma_spec_state;

/// foldhash's randomly seeded `BuildHasher`.
#[verifier::external_type_specification]
#[verifier::external_body]
pub struct ExRandomState(RandomState);

/// What drawing a label of `text` in `font` does to a UI and its smartstate: the label takes the
/// size of the text; a text too long to measure cannot be placed. The smartstate is set to `id`
/// and the label is redrawn when that changed it.
pub open spec fn label_drawn<'a, 'b, COL: Copy>(
    text: &str,
    font: MonoFont,
    prev: Option<Smartstate>,
    now: Option<Smartstate>,
    id: u32,
    old_ui: Ui<'b, COL>,
    new_ui: Ui<'b, COL>,
    r: GuiResult<Response>,
) -> bool {
    &&& !measurable(text, font) ==> r == Err::<Response, GuiError>(GuiError::NoSpaceLeft) && now == prev
    &&& measurable(text, font) ==> match allocation(old_ui, text_size(text@, font)) {
        Err(e) => r == Err::<Response, GuiError>(e) && now == prev,
        Ok((area, inter)) => {
            &&& r matches Ok(resp)
            &&& resp.internal.area == area
            &&& resp.internal.interaction == inter
            &&& !resp.click && !resp.down && !resp.changed && resp.error is None
            &&& now == after_set(prev, Some(id))
            &&& resp.redraw == needs_redraw(prev, now)
            &&& (!needs_redraw(prev, now) ==> new_ui.commands() == old_ui.commands())
            &&& (needs_redraw(prev, now) ==> exists|t: String|
                #![trigger t@]
                t@ == text@ && new_ui.commands() == old_ui.commands() + old_ui.framed(
                    area,
                    old_ui.clearing(area) + seq![
                        DrawCommand::Text {
                            text: t,
                            position: Point {
                                x: area.top_left.x,
                                y: (area.top_left.y + (area.size.height - text_size(text@, font).height) / 2) as i32,
                            },
                            font,
                            color: old_ui.style_spec().text_color,
                            baseline: TextBaseline::Top,
                            centered: false,
                        },
                    ],
                ))
        },
    }
}

/// The font a label is drawn in: its own, or else the UI's default font.
pub open spec fn label_font(font: Option<MonoFont>, default: MonoFont) -> MonoFont {
    match font {
        Some(f) => f,
        None => default,
    }
}

/// A text label in the UI's text color.
pub struct Label<'a> {
    pub text: &'a str,
    pub font: Option<MonoFont>,
    pub smartstate: Container<'a, Smartstate>,
}

impl<'a> Label<'a> {
    pub open spec fn text(&self) -> &'a str {
        self.text
    }

    pub open spec fn font(&self) -> Option<MonoFont> {
        self.font
    }

    pub open spec fn smartstate_spec(&self) -> Container<'a, Smartstate> {
        self.smartstate
    }

    /// A label of `text` in the UI's default font, without smartstate.
    pub fn new(text: &'a str) -> (l: Label<'a>)
        ensures
            l.text() == text,
            l.font() is None,
            l.smartstate_spec().inner() is None,
    {
        Label { text, font: None, smartstate: Container::empty() }
    }

    /// Draws the label in `font` in place of the UI's default font.
    pub fn with_font(self, font: MonoFont) -> (l: Self)
        ensures
            l.font() == Some(font),
            l.text() == self.text(),
            l.smartstate_spec() == self.smartstate_spec(),
    {
        let mut l = self;
        l.font = Some(font);
        l
    }

    /// Adds smartstate support: with a smartstate, the label is drawn only once.
    pub fn smartstate(self, smartstate: &'a mut Smartstate) -> (l: Self)
        ensures
            l.smartstate_spec().inner() == Some(*old(smartstate)),
            l.smartstate_spec().target() matches Some(r) && *final(r) == *final(smartstate),
            l.text() == self.text(),
            l.font() == self.font(),
    {
        let mut l = self;
        l.smartstate.set(smartstate);
        l
    }
}

impl<'a, COL: Copy> Widget<COL> for Label<'a> {
    fn draw(&mut self, ui: &mut Ui<'_, COL>) -> (r: GuiResult<Response>)
        ensures
            old(self).smartstate_spec().target() matches Some(r1) ==> (final(self).smartstate_spec().target() matches Some(r2)
                && *final(r2) == *final(r1)),
            label_drawn(
                old(self).text(),
                label_font(old(self).font(), old(ui).style_spec().default_font),
                old(self).smartstate_spec().inner(),
                final(self).smartstate_spec().inner(),
                0,
                *old(ui),
                *final(ui),
                r,
            ),
            final(self).text() == old(self).text(),
            final(self).font() == old(self).font(),
    {
        let font = match self.font {
            Some(f) => f,
            None => ui.style().default_font,
        };
        draw_label(ui, self.text, font, &mut self.smartstate, 0)
    }
}

/// Draws a label of `text` in `font`, setting the smartstate to `id` (see [`label_drawn`]).
fn draw_label<COL: Copy>(ui: &mut Ui<'_, COL>, text: &str, font: MonoFont, smartstate: &mut Container<'_, Smartstate>, id: u32) -> (r: GuiResult<Response>)
    requires
        old(ui).wf(),
        old(ui).placer().room(1),
        !old(ui).framebuf_active(),
    ensures
            r matches Ok(resp) ==> resp.error is None && exists|size: Size|
                #[trigger] placed_with(*old(ui), old(ui).placer(), size, resp.internal)
                    && final(ui).placer() == placer_next(old(ui).placer(), size).0,
            r is Err ==> final(ui).placer() == old(ui).placer() || exists|size: Size|
                final(ui).placer() == (#[trigger] placer_next(old(ui).placer(), size)).0,
        label_drawn(text, font, old(smartstate).inner(), final(smartstate).inner(), id, *old(ui), *final(ui), r),
        final(ui).wf(),
        final(ui).unchanged_frame(*old(ui)),
        final(ui).placer().within_steps(old(ui).placer(), 1),
        !final(ui).framebuf_active(),
        final(ui).interaction() == old(ui).interaction(),
        old(ui).commands().is_prefix_of(final(ui).commands()),
        old(smartstate).target() matches Some(r1) ==> (final(smartstate).target() matches Some(r2) && *final(r2) == *final(r1)),
{
    let size = match measure_text(text, &font) {
        Some(s) => s,
        None => {
            return Err(GuiError::NoSpaceLeft);
        },
    };
    let iresponse = ui.allocate_space(size)?;
    let area = iresponse.area;
    let redraw = update_smartstate(smartstate, Some(id));
    if redraw {
        let color = ui.style().text_color;
        ui.start_drawing(&area);
        if !ui.cleared() {
            let _ = ui.clear_area(area);
        }
        let y: i64 = area.top_left.y as i64 + ((area.size.height - size.height) / 2) as i64;
        let t = text.to_owned();
        let ghost tv = t;
        let position = Point::new(area.top_left.x, #[verifier::truncate] (y as i32));
        let _ = ui.draw(DrawCommand::Text { text: t, position, font, color, baseline: TextBaseline::Top, centered: false });
        let _ = ui.finalize();
        assert(ui.commands() =~= old(ui).commands() + old(ui).framed(
            area,
            old(ui).clearing(area) + seq![
                DrawCommand::Text { text: tv, position, font, color, baseline: TextBaseline::Top, centered: false },
            ],
        ));
    }
    Ok(Response::new(iresponse).set_redraw(redraw))
}

/// A hasher for the text of [`HashLabel`]s, randomly seeded when it is made.
pub struct Hasher {
    random_state: RandomState,
}

/// Calls foldhash's `RandomState::default`, which seeds the state randomly.
#[verifier::external_body]
fn random_state() -> RandomState {
    RandomState::default()
}

impl Hasher {
    /// A hasher with a fresh random seed.
    pub fn new() -> Self {
        Self { random_state: random_state() }
    }

    /// Hashes `to_hash` with `BuildHasher::hash_one` of the hasher's foldhash `RandomState`.
    ///
    /// No value is promised: it depends on the random seed.
    #[verifier::external_body]
    pub fn hash<T: Hash + ?Sized>(&self, to_hash: &T) -> u64 {
        self.random_state.hash_one(to_hash)
    }
}

impl Default for Hasher {
    fn default() -> Self {
        Self::new()
    }
}

/// A label that redraws whenever the hash of its text changes.
pub struct HashLabel<'a> {
    pub text: &'a str,
    pub font: Option<MonoFont>,
    pub smartstate: Container<'a, Smartstate>,
    pub hasher: &'a Hasher,
}

impl<'a> HashLabel<'a> {
    pub open spec fn text(&self) -> &'a str {
        self.text
    }

    pub open spec fn font(&self) -> Option<MonoFont> {
        self.font
    }

    pub open spec fn smartstate_spec(&self) -> Container<'a, Smartstate> {
        self.smartstate
    }

    /// A hash label of `text`, keeping the hash of its text in `smartstate`.
    pub fn new(text: &'a str, smartstate: &'a mut Smartstate, hasher: &'a Hasher) -> (l: Self)
        ensures
            l.text() == text,
            l.font() is None,
            l.smartstate_spec().inner() == Some(*old(smartstate)),
            l.smartstate_spec().target() matches Some(r) && *final(r) == *final(smartstate),
    {
        Self { text, font: None, smartstate: Container::new(smartstate), hasher }
    }

    /// Draws the label in `font` in place of the UI's default font.
    pub fn with_font(self, font: MonoFont) -> (l: Self)
        ensures
            l.font() == Some(font),
            l.text() == self.text(),
            l.smartstate_spec() == self.smartstate_spec(),
    {
        let mut l = self;
        l.font = Some(font);
        l
    }

    /// Draws the label as [`Widget::draw`] does, with `hash` as the hash of its text: the
    /// smartstate is set to the hash's low 32 bits.
    pub fn draw_hashed<COL: Copy>(&mut self, ui: &mut Ui<'_, COL>, hash: u64) -> (r: GuiResult<Response>)
        requires
            old(ui).wf(),
            old(ui).placer().room(1),
            !old(ui).framebuf_active(),
        ensures
            old(self).smartstate_spec().target() matches Some(r1) ==> (final(self).smartstate_spec().target() matches Some(r2)
                && *final(r2) == *final(r1)),
            r matches Ok(resp) ==> resp.error is None && exists|size: Size|
                #[trigger] placed_with(*old(ui), old(ui).placer(), size, resp.internal)
                    && final(ui).placer() == placer_next(old(ui).placer(), size).0,
            r is Err ==> final(ui).placer() == old(ui).placer() || exists|size: Size|
                final(ui).placer() == (#[trigger] placer_next(old(ui).placer(), size)).0,
            label_drawn(
                old(self).text(),
                label_font(old(self).font(), old(ui).style_spec().default_font),
                old(self).smartstate_spec().inner(),
                final(self).smartstate_spec().inner(),
                hash as u32,
                *old(ui),
                *final(ui),
                r,
            ),
            final(ui).wf(),
            final(ui).unchanged_frame(*old(ui)),
            final(ui).placer().within_steps(old(ui).placer(), 1),
            !final(ui).framebuf_active(),
            final(ui).interaction() == old(ui).interaction(),
            old(ui).commands().is_prefix_of(final(ui).commands()),
            final(self).text() == old(self).text(),
            final(self).font() == old(self).font(),
    {
        let font = match self.font {
            Some(f) => f,
            None => ui.style().default_font,
        };
        let id: u32 = #[verifier::truncate] (hash as u32);
        draw_label(ui, self.text, font, &mut self.smartstate, id)
    }
}

impl<'a, COL: Copy> Widget<COL> for HashLabel<'a> {
    fn draw(&mut self, ui: &mut Ui<'_, COL>) -> (r: GuiResult<Response>)
        ensures
            old(self).smartstate_spec().target() matches Some(r1) ==> (final(self).smartstate_spec().target() matches Some(r2)
                && *final(r2) == *final(r1)),
            exists|h: u32| #[trigger] label_drawn(
                old(self).text(),
                label_font(old(self).font(), old(ui).style_spec().default_font),
                old(self).smartstate_spec().inner(),
                final(self).smartstate_spec().inner(),
                h,
                *old(ui),
                *final(ui),
                r,
            ),
            final(self).text() == old(self).text(),
            final(self).font() == old(self).font(),
    {
        let hash = self.hasher.hash(self.text);
        self.draw_hashed(ui, hash)
    }
}

} // verus!
