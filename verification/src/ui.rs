//! The immediate-mode UI: layout of widgets in rows, interaction routing, and the list of
//! drawing commands that a frame produces.

use crate::draw::{DrawCommand, PrimitiveStyle};
use crate::geometry::{Point, Rectangle, Size, MAX_EXTENT, spec_contains};
use crate::style::Style;
use vstd::prelude::*;

verus! {

/// Errors of widget placement and drawing.
#[derive(Debug, Clone, Copy, PartialEq, Eq, PartialOrd, Ord, Hash)]
pub enum GuiError {
    /// The widget is too large to fit in the bounds with the current constraints
    NoSpaceLeft,
    /// The Drawable returned an error while drawing
    DrawError(Option<&'static str>),
    /// The requested operation would cause the bounds to be different from the expected size
    BoundsError,
}

impl GuiError {
    pub fn draw_error(msg: &'static str) -> (e: Self)
        ensures
            e == GuiError::DrawError(Some(msg)),
    {
        GuiError::DrawError(Some(msg))
    }
}

pub type GuiResult<T> = Result<T, GuiError>;

/// Interaction with the UI
#[derive(Debug, Clone, Copy, PartialEq, Eq, Structural, PartialOrd, Ord, Hash, Default)]
pub enum Interaction {
    /// A click event (mouse, touch, etc. down)
    Click(Point),
    /// A drag event (mouse, touch, etc. move while clicked)
    Drag(Point),
    /// A release event (mouse, touch, etc. up)
    Release(Point),
    /// A hover event (mouse, touch, etc. move while not clicked).
    /// Generally not applicable to touch screens.
    Hover(Point),
    /// No interaction
    #[default]
    Idle,
}

impl Interaction {
    /// The point of an interaction, if it has one.
    pub open spec fn point(self) -> Option<Point> {
        match self {
            Interaction::Click(p) => Some(p),
            Interaction::Drag(p) => Some(p),
            Interaction::Release(p) => Some(p),
            Interaction::Hover(p) => Some(p),
            Interaction::Idle => None,
        }
    }

    /// Gets the point associated with the current interaction, if any.
    pub fn get_point(&self) -> (r: Option<Point>)
        ensures
            r == self.point(),
    {
        match self {
            Interaction::Click(p) => Some(*p),
            Interaction::Drag(p) => Some(*p),
            Interaction::Release(p) => Some(*p),
            Interaction::Hover(p) => Some(*p),
            Interaction::Idle => None,
        }
    }

    /// Whether this is a press that is held (a click or a drag).
    pub open spec fn is_down(self) -> bool {
        self is Click || self is Drag
    }
}

pub struct InternalResponse {
    pub area: Rectangle,
    pub interaction: Interaction,
}

impl InternalResponse {
    pub fn new(area: Rectangle, interaction: Interaction) -> (r: Self)
        ensures
            r.area == area,
            r.interaction == interaction,
    {
        Self { area, interaction }
    }

    /// The response of nothing: an empty area at the origin, without interaction.
    pub open spec fn spec_empty() -> InternalResponse {
        InternalResponse {
            area: Rectangle { top_left: Point { x: 0, y: 0 }, size: Size { width: 0, height: 0 } },
            interaction: Interaction::Idle,
        }
    }

    pub fn empty() -> (r: Self)
        ensures
            r == Self::spec_empty(),
    {
        Self { area: Rectangle::new(Point::zero(), Size::zero()), interaction: Interaction::Idle }
    }
}

/// Response for UI interaction / space allocation and such
pub struct Response {
    pub internal: InternalResponse,
    /// Whether the widget was clicked (as in successfully interacted with)
    pub click: bool,
    /// Whether the widget is in a "down" state (e.g. a button is pressed, but not yet released)
    pub down: bool,
    /// Marker to tell the UI that this widget was redrawn this frame.
    ///
    /// **The default for this is `true`**.
    pub redraw: bool,
    /// Whether the underlying data changed (e.g. the slider was dragged).
    pub changed: bool,
    /// Whether the widget had an error while drawing
    pub error: Option<GuiError>,
}

impl Response {
    pub fn new(raw: InternalResponse) -> (r: Response)
        ensures
            r.internal == raw,
            !r.click,
            r.redraw,
            !r.changed,
            !r.down,
            r.error is None,
    {
        Response { internal: raw, click: false, redraw: true, changed: false, down: false, error: None }
    }

    pub fn from_error(error: GuiError) -> (r: Response)
        ensures
            r == error_response(error),
    {
        Response::new(InternalResponse::empty()).set_error(error)
    }

    pub fn set_clicked(self, clicked: bool) -> (r: Self)
        ensures
            r == (Response { click: clicked, ..self }),
    {
        let mut s = self;
        s.click = clicked;
        s
    }

    pub fn set_redraw(self, redraw: bool) -> (r: Self)
        ensures
            r == (Response { redraw: redraw, ..self }),
    {
        let mut s = self;
        s.redraw = redraw;
        s
    }

    pub fn set_changed(self, changed: bool) -> (r: Self)
        ensures
            r == (Response { changed: changed, ..self }),
    {
        let mut s = self;
        s.changed = changed;
        s
    }

    pub fn set_error(self, error: GuiError) -> (r: Self)
        ensures
            r == (Response { error: Some(error), ..self }),
    {
        let mut s = self;
        s.error = Some(error);
        s
    }

    pub fn set_down(self, down: bool) -> (r: Self)
        ensures
            r == (Response { down: down, ..self }),
    {
        let mut s = self;
        s.down = down;
        s
    }

    /// Check whether the widget was clicked (as in successfully interacted with)
    pub fn clicked(&self) -> (b: bool)
        ensures
            b == self.click,
    {
        self.click
    }

    /// Check whether the widget is in a "down" state
    pub fn down(&self) -> (b: bool)
        ensures
            b == self.down,
    {
        self.down
    }

    /// Check whether the widget was redrawn this frame
    pub fn redrawn(&self) -> (b: bool)
        ensures
            b == self.redraw,
    {
        self.redraw
    }

    /// Check whether the underlying data changed (e.g. slider was moved)
    pub fn changed(&self) -> (b: bool)
        ensures
            b == self.changed,
    {
        self.changed
    }

    /// Check whether the widget had an error while drawing
    pub fn error(&self) -> (e: Option<GuiError>)
        ensures
            e == self.error,
    {
        self.error
    }
}

#[derive(Clone, Copy, Debug, PartialEq, Eq, Structural)]
pub enum HorizontalAlign {
    Left,
    Center,
    Right,
}

#[derive(Clone, Copy, Debug, PartialEq, Eq, Structural)]
pub enum VerticalAlign {
    Top,
    Center,
    Bottom,
}

#[derive(Clone, Copy, Debug, PartialEq, Eq, Structural)]
pub struct Align(pub HorizontalAlign, pub VerticalAlign);

impl Default for Align {
    fn default() -> (a: Self)
        ensures
            a == Align(HorizontalAlign::Left, VerticalAlign::Top),
    {
        Align(HorizontalAlign::Left, VerticalAlign::Top)
    }
}

/// Largest coordinate (in either direction, relative to the layout origin) that the layout
/// works with.
pub const MAX_LAYOUT: i32 = 1073741824;

/// Places widgets in rows, from left to right, from top to bottom.
///
/// Placement is deterministic: widgets placed with the same settings in the same order are
/// always placed at the same position. A widget is never placed outside the bounds.
#[derive(Clone, Copy, Debug)]
pub struct Placer {
    /// Current row
    pub row: u32,
    /// Current column
    pub col: u32,
    /// Position of the top left corner of the next widget, relative to the placer
    pub pos: Point,
    /// Height of the current row
    pub row_height: u32,
    /// Bounds of the placer
    pub bounds: Size,
    /// Whether to wrap to the next row if the widget doesn't fit
    pub wrap: bool,
    pub align: Align,
}

/// Whether `s` fits in `bounds` (both dimensions at most those of the bounds).
pub open spec fn fits(s: Size, bounds: Size) -> bool {
    s.width <= bounds.width && s.height <= bounds.height
}

pub open spec fn max_u32(a: u32, b: u32) -> u32 {
    if a >= b { a } else { b }
}

/// The placer state after `Placer::next(size)` and its result.
///
/// Center alignment first moves the position to center the widget between it and the right
/// edge. A widget that does not fit to the right of the current one is moved to a new row when
/// wrapping is on and the current row still ends inside the bounds.
pub open spec fn placer_next(p: Placer, size: Size) -> (Placer, Result<Rectangle, GuiError>) {
    if !fits(size, p.bounds) {
        (p, Err(GuiError::NoSpaceLeft))
    } else if p.align.0 == HorizontalAlign::Center && p.pos.x + size.width > p.bounds.width {
        (p, Err(GuiError::NoSpaceLeft))
    } else {
        let p1 = if p.align.0 == HorizontalAlign::Center {
            Placer { pos: Point { x: ((p.bounds.width + p.pos.x - size.width) / 2) as i32, ..p.pos }, ..p }
        } else {
            p
        };
        let right = size.width + p1.pos.x;
        let bottom = max_u32(p1.row_height, size.height) + p1.pos.y;
        if !(right <= p1.bounds.width && bottom <= p1.bounds.height) {
            if !p1.wrap {
                (p1, Err(GuiError::NoSpaceLeft))
            } else if !(p1.pos.y + p1.row_height + size.height <= p1.bounds.height) {
                (p1, Err(GuiError::NoSpaceLeft))
            } else {
                let p2 = placer_new_row(p1, size.height);
                let item = p2.pos;
                (
                    Placer {
                        pos: Point { x: size.width as i32, y: p2.pos.y },
                        col: (p2.col + 1) as u32,
                        ..p2
                    },
                    Ok(Rectangle { top_left: item, size: Size { width: size.width, height: p2.row_height } }),
                )
            }
        } else {
            let rh = max_u32(p1.row_height, size.height);
            let item = p1.pos;
            (
                Placer {
                    pos: Point { x: right as i32, y: p1.pos.y },
                    col: (p1.col + 1) as u32,
                    row_height: rh,
                    ..p1
                },
                Ok(Rectangle { top_left: item, size: Size { width: size.width, height: rh } }),
            )
        }
    }
}

/// The placer after starting a new row of the given height.
pub open spec fn placer_new_row(p: Placer, height: u32) -> Placer {
    Placer {
        row: (p.row + 1) as u32,
        col: 0,
        pos: Point { x: 0, y: (p.pos.y + p.row_height) as i32 },
        row_height: height,
        ..p
    }
}

/// Being a prefix is transitive.
pub proof fn lemma_prefix_trans<T>(a: Seq<T>, b: Seq<T>, c: Seq<T>)
    requires
        a.is_prefix_of(b),
        b.is_prefix_of(c),
    ensures
        a.is_prefix_of(c),
{
    assert forall|i: int| 0 <= i < a.len() implies a[i] == c[i] by {
        assert(a[i] == b.subrange(0, a.len() as int)[i]);
        assert(b[i] == c.subrange(0, b.len() as int)[i]);
    }
    assert(a =~= c.subrange(0, a.len() as int));
}

/// Placement cannot happen outside of the bounds of the placer: a placed widget lies within
/// them, in the current row or, wrapped, in the next one.
pub proof fn law_placement_within_bounds(p: Placer, size: Size)
    requires
        p.wf(),
        p.row < u32::MAX,
    ensures
        placer_next(p, size).1 matches Ok(rect) ==> {
            &&& 0 <= rect.top_left.x
            &&& rect.top_left.x + rect.size.width <= p.bounds.width
            &&& 0 <= rect.top_left.y
            &&& rect.size.width == size.width
            &&& rect.top_left.y + rect.size.height <= p.bounds.height
        },
{
}

/// The display point `pt` lies before the placer `p` of a UI whose bounds start at `tl`, in
/// reading order: above its current row, or within its height and left of its position. Nothing
/// placed from then on contains it.
pub open spec fn placed_before(pt: Point, p: Placer, tl: Point) -> bool {
    pt.y < tl.y + p.pos.y || (pt.y < tl.y + p.pos.y + p.row_height && pt.x < tl.x + p.pos.x)
}

/// Widgets are placed in reading order: a point before the placer stays before it, and a point
/// inside the place that a widget gets was not before the placer and is before it afterwards.
pub proof fn lemma_place_in_order(p: Placer, size: Size, tl: Point, pt: Point)
    requires
        p.wf(),
        -MAX_ORIGIN <= tl.x <= MAX_ORIGIN,
        -MAX_ORIGIN <= tl.y <= MAX_ORIGIN,
    ensures
        placed_before(pt, p, tl) ==> placed_before(pt, placer_next(p, size).0, tl),
        placer_next(p, size).1 matches Ok(rect) ==> (spec_contains(translated(rect, tl), pt) ==> !placed_before(pt, p, tl)
            && placed_before(pt, placer_next(p, size).0, tl)),
{
}

/// Starting a new row keeps every point that was before the placer before it.
pub proof fn lemma_new_row_in_order(p: Placer, height: u32, tl: Point, pt: Point)
    requires
        0 <= p.pos.y,
        p.pos.y + p.row_height <= i32::MAX,
    ensures
        placed_before(pt, p, tl) ==> placed_before(pt, placer_new_row(p, height), tl),
{
}

/// Every point that was before the placer of `before` is before the placer of `after` (both
/// taken in the bounds of `before`).
pub open spec fn layout_moved_on<'a, COL: Copy>(before: Ui<'a, COL>, after: Ui<'a, COL>) -> bool {
    forall|pt: Point|
        #[trigger] placed_before(pt, before.placer(), before.bounds().top_left) ==> placed_before(
            pt,
            after.placer(),
            before.bounds().top_left,
        )
}

/// The interaction of `before` is a release at a point that was not before its placer and is
/// before the placer of `after`: the release landed on what was placed in between.
pub open spec fn released_between<'a, COL: Copy>(before: Ui<'a, COL>, after: Ui<'a, COL>) -> bool {
    released_on(before.interaction(), before.placer(), after.placer(), before.bounds().top_left)
}

/// `i` is a release at a point that was not before the placer `from` and is before `to`.
pub open spec fn released_on(i: Interaction, from: Placer, to: Placer, tl: Point) -> bool {
    i matches Interaction::Release(pt) && !placed_before(pt, from, tl) && placed_before(pt, to, tl)
}

/// Going from `before` to `after` keeps the reading order of the layout: the same bounds, every
/// point before the placer stays before it, the interaction stays or is taken away (becomes
/// idle), and when something was `clicked` in between, the release landed there.
pub open spec fn ordered_step<'a, COL: Copy>(before: Ui<'a, COL>, after: Ui<'a, COL>, clicked: bool) -> bool {
    &&& after.bounds() == before.bounds()
    &&& layout_moved_on(before, after)
    &&& (after.interaction() == before.interaction() || after.interaction() is Idle)
    &&& (clicked ==> released_between(before, after))
}

/// Two steps in reading order make one, and at most one of them can be clicked: a release lands
/// on only one of the places laid out one after the other.
pub proof fn lemma_ordered_compose<'a, COL: Copy>(u0: Ui<'a, COL>, u1: Ui<'a, COL>, u2: Ui<'a, COL>, c1: bool, c2: bool)
    requires
        ordered_step(u0, u1, c1),
        ordered_step(u1, u2, c2),
    ensures
        ordered_step(u0, u2, c1 || c2),
        !(c1 && c2),
{
    let tl = u0.bounds().top_left;
    assert forall|pt: Point| #[trigger] placed_before(pt, u0.placer(), tl) implies placed_before(pt, u2.placer(), tl) by {
        assert(placed_before(pt, u1.placer(), tl));
    }
    if c1 {
        let pt = u0.interaction()->Release_0;
        assert(placed_before(pt, u1.placer(), tl));
        assert(placed_before(pt, u2.placer(), tl));
    }
    if c2 {
        let pt = u1.interaction()->Release_0;
        if placed_before(pt, u0.placer(), tl) {
            assert(placed_before(pt, u1.placer(), tl));
        }
    }
}

/// A UI is one step in reading order from itself, with nothing clicked.
pub proof fn lemma_ordered_refl<'a, COL: Copy>(u: Ui<'a, COL>)
    ensures
        ordered_step(u, u, false),
{
}

/// What a widget drawn in `before` leaves the placer at (`mid`) keeps the reading order: points
/// before the placer stay before it, and a click on the widget is a release that lands on it.
pub(crate) proof fn lemma_widget_in_order<'a, COL: Copy>(before: Ui<'a, COL>, mid: Placer, raw: GuiResult<Response>)
    requires
        before.wf(),
        raw matches Ok(resp) ==> exists|size: Size|
            #[trigger] placed_with(before, before.placer(), size, resp.internal) && mid == placer_next(before.placer(), size).0,
        raw is Err ==> mid == before.placer() || exists|size: Size| mid == (#[trigger] placer_next(before.placer(), size)).0,
        raw matches Ok(resp) ==> (resp.click ==> resp.internal.interaction is Release),
    ensures
        forall|pt: Point|
            #[trigger] placed_before(pt, before.placer(), before.bounds().top_left) ==> placed_before(
                pt,
                mid,
                before.bounds().top_left,
            ),
        raw matches Ok(resp) ==> (resp.click ==> released_on(before.interaction(), before.placer(), mid, before.bounds().top_left)),
{
    let tl = before.bounds().top_left;
    let p = before.placer();
    match raw {
        Ok(resp) => {
            let size = choose|size: Size|
                #[trigger] placed_with(before, before.placer(), size, resp.internal) && mid == placer_next(before.placer(), size).0;
            assert forall|pt: Point| #[trigger] placed_before(pt, p, tl) implies placed_before(pt, mid, tl) by {
                lemma_place_in_order(p, size, tl, pt);
            }
            if resp.click {
                let pt = before.interaction()->Release_0;
                lemma_place_in_order(p, size, tl, pt);
            }
        },
        Err(_) => {
            if mid != p {
                let size = choose|size: Size| mid == (#[trigger] placer_next(before.placer(), size)).0;
                assert forall|pt: Point| #[trigger] placed_before(pt, p, tl) implies placed_before(pt, mid, tl) by {
                    lemma_place_in_order(p, size, tl, pt);
                }
            }
        },
    }
}

/// Placement is deterministic and repeatable: the same placer state and size give the same
/// place and the same next state.
pub proof fn law_placement_deterministic(p: Placer, q: Placer, size: Size)
    requires
        p == q,
    ensures
        placer_next(p, size) == placer_next(q, size),
{
}

/// Widgets placed in one row follow each other from left to right: after a widget is placed
/// in the current row, the next one starts at its right edge, in the next column.
pub proof fn law_row_continues(p: Placer, size: Size)
    requires
        p.wf(),
        p.row < u32::MAX,
        p.col < u32::MAX,
        p.align.0 != HorizontalAlign::Center,
        placer_next(p, size).1 is Ok,
        placer_next(p, size).0.row == p.row,
    ensures
        ({
            let (q, r) = placer_next(p, size);
            &&& r->Ok_0.top_left == p.pos
            &&& q.pos.x == p.pos.x + size.width
            &&& q.pos.y == p.pos.y
            &&& q.col == p.col + 1
        }),
{
}

/// Starting a new row moves to the left edge, below the current row, in the first column of
/// the next row.
pub proof fn law_new_row(p: Placer, height: u32)
    requires
        p.wf(),
        p.row < u32::MAX,
    ensures
        ({
            let q = placer_new_row(p, height);
            &&& q.pos.x == 0
            &&& q.pos.y == p.pos.y + p.row_height
            &&& q.row == p.row + 1
            &&& q.col == 0
            &&& q.row_height == height
            &&& q.bounds == p.bounds
        }),
{
}

impl Placer {
    /// The positions and sizes stay in the ranges that the layout arithmetic works in.
    pub open spec fn wf(&self) -> bool {
        &&& self.bounds.bounded()
        &&& 0 <= self.pos.x <= MAX_LAYOUT
        &&& 0 <= self.pos.y
        &&& self.row_height <= MAX_EXTENT
        &&& self.pos.y + self.row_height <= MAX_LAYOUT
    }

    /// There is room for `k` more steps of layout (allocations or new rows) before any
    /// coordinate or counter leaves the range that the layout arithmetic works in.
    pub open spec fn room(&self, k: int) -> bool {
        &&& self.pos.x + k * 2 * MAX_EXTENT <= MAX_LAYOUT
        &&& self.pos.y + self.row_height + k * MAX_EXTENT <= MAX_LAYOUT
        &&& self.row + k < u32::MAX
        &&& self.col + k < u32::MAX
    }

    /// `self` is reached from `prev` in at most `k` steps of layout.
    pub open spec fn within_steps(&self, prev: Placer, k: int) -> bool {
        &&& self.bounds == prev.bounds
        &&& self.pos.x <= prev.pos.x + k * 2 * MAX_EXTENT
        &&& self.pos.y + self.row_height <= prev.pos.y + prev.row_height + k * MAX_EXTENT
        &&& prev.row <= self.row <= prev.row + k
        &&& self.col <= prev.col + k
    }

    /// Vertical extent used so far: the bottom of the current row.
    pub open spec fn extent(&self) -> int {
        self.pos.y + self.row_height
    }

    /// Create a new placer with the given bounds, wrapping and alignment
    pub fn new(bounds: Size, wrap: bool, align: Align) -> (p: Self)
        ensures
            p == (Placer { row: 0, col: 0, pos: Point { x: 0, y: 0 }, row_height: 0, bounds, wrap, align }),
    {
        Placer { row: 0, col: 0, pos: Point::zero(), row_height: 0, bounds, wrap, align }
    }

    /// Set the wrap setting of the placer
    pub fn set_wrap(&mut self, wrap: bool)
        ensures
            *final(self) == (Placer { wrap, ..*old(self) }),
    {
        self.wrap = wrap;
    }

    /// Set the alignment of the placer
    pub fn set_align(&mut self, align: Align)
        ensures
            *final(self) == (Placer { align, ..*old(self) }),
    {
        self.align = align;
    }

    /// Allocate the next widget with the given `size`, explicitly disabling wrapping for this operation
    pub fn next_no_wrap(&mut self, size: Size) -> (r: GuiResult<Rectangle>)
        requires
            old(self).wf(),
            old(self).room(1),
        ensures
            *final(self) == (Placer { wrap: old(self).wrap, ..placer_next(Placer { wrap: false, ..*old(self) }, size).0 }),
            r == placer_next(Placer { wrap: false, ..*old(self) }, size).1,
            final(self).wf(),
            final(self).within_steps(*old(self), 1),
    {
        let wrap = self.wrap;
        self.wrap = false;
        let res = self.next(size);
        self.wrap = wrap;
        res
    }

    /// Allocate the next widget with the given `size`.
    ///
    /// Returns the allocated rectangle (relative to the placer), or an error if the widget
    /// doesn't fit.
    pub fn next(&mut self, size: Size) -> (r: GuiResult<Rectangle>)
        requires
            old(self).wf(),
            old(self).room(1),
        ensures
            *final(self) == placer_next(*old(self), size).0,
            r == placer_next(*old(self), size).1,
            final(self).wf(),
            final(self).within_steps(*old(self), 1),
    {
        if !self.check_bounds(size) {
            return Err(GuiError::NoSpaceLeft);
        }
        if self.align.0 == HorizontalAlign::Center {
            if self.pos.x as u32 + size.width > self.bounds.width {
                return Err(GuiError::NoSpaceLeft);
            }
            self.pos.x = ((self.bounds.width + self.pos.x as u32 - size.width) / 2) as i32;
        }
        let mut right: u32 = size.width + self.pos.x as u32;
        let bottom: u32 = max_of(self.row_height, size.height) + self.pos.y as u32;
        if !self.check_bounds(Size::new(right, bottom)) {
            if self.wrap {
                let new_bottom: u64 = self.pos.y as u64 + self.row_height as u64 + size.height as u64;
                if new_bottom > self.bounds.height as u64 {
                    return Err(GuiError::NoSpaceLeft);
                }
                self.new_row(size.height);
                right = size.width;
            } else {
                return Err(GuiError::NoSpaceLeft);
            }
        }
        self.row_height = max_of(self.row_height, size.height);
        let item_pos = self.pos;
        self.pos = Point::new(right as i32, self.pos.y);
        self.col = self.col + 1;
        Ok(Rectangle::new(item_pos, Size::new(size.width, self.row_height)))
    }

    /// Returns the full size of the current row: the full width of the bounds and the current row height.
    pub fn row_size(&self) -> (s: Size)
        ensures
            s == (Size { width: self.bounds.width, height: self.row_height }),
    {
        Size::new(self.bounds.width, self.row_height)
    }

    /// Returns the remaining space within the bounds: the rectangle from the current position to
    /// the bottom right corner of the bounds.
    pub fn space_available(&self) -> (s: Size)
        requires
            self.wf(),
            self.pos.x <= self.bounds.width,
            self.pos.y <= self.bounds.height,
        ensures
            s == (Size { width: (self.bounds.width - self.pos.x) as u32, height: (self.bounds.height - self.pos.y) as u32 }),
    {
        Size::new(self.bounds.width - self.pos.x as u32, self.bounds.height - self.pos.y as u32)
    }

    /// Advances to the next row, setting the initial row height to `height`.
    pub fn new_row(&mut self, height: u32)
        requires
            old(self).wf(),
            old(self).room(1),
            height <= MAX_EXTENT,
        ensures
            *final(self) == placer_new_row(*old(self), height),
            final(self).wf(),
            final(self).within_steps(*old(self), 1),
    {
        self.row = self.row + 1;
        self.col = 0;
        self.pos = Point::new(0, self.pos.y + self.row_height as i32);
        self.row_height = height;
    }

    /// Returns the current row height.
    pub fn row_height(&self) -> (h: u32)
        ensures
            h == self.row_height,
    {
        self.row_height
    }

    /// Expands the current row height to the maximum of the current height and `height`.
    pub fn expand_row_height(&mut self, height: u32)
        requires
            old(self).wf(),
            height <= MAX_EXTENT,
            old(self).pos.y + height <= MAX_LAYOUT,
        ensures
            *final(self) == (Placer { row_height: max_u32(old(self).row_height, height), ..*old(self) }),
            final(self).wf(),
    {
        self.row_height = max_of(self.row_height, height);
    }

    /// Check whether a size is in bounds of the widget (<= bounds)
    pub fn check_bounds(&self, pos: Size) -> (b: bool)
        ensures
            b == fits(pos, self.bounds),
    {
        pos.width <= self.bounds.width && pos.height <= self.bounds.height
    }
}

/// The larger of two `u32`s.
pub fn max_of(a: u32, b: u32) -> (m: u32)
    ensures
        m == max_u32(a, b),
{
    if a >= b { a } else { b }
}


/// The place that allocating `size` in `ui` gives: its area in display coordinates and the
/// interaction that reaches it, or the reason it cannot be placed.
pub open spec fn allocation<'a, COL: Copy>(ui: Ui<'a, COL>, size: Size) -> Result<(Rectangle, Interaction), GuiError> {
    match placer_next(ui.placer(), size).1 {
        Ok(rect) => {
            let area = translated(rect, ui.bounds().top_left);
            Ok((area, ui.interaction_in(area)))
        },
        Err(e) => Err(e),
    }
}

/// The rectangle, in the background color, that clears the current row of the placer `p` from
/// its position (moved right by the window border padding) to the right edge of its bounds.
pub open spec fn row_end_clear<COL>(p: Placer, style: Style<COL>) -> DrawCommand<COL> {
    DrawCommand::Rect {
        rect: Rectangle {
            top_left: Point { x: (p.pos.x + style.spacing.window_border_padding.width) as i32, y: p.pos.y },
            size: Size {
                width: (if p.bounds.width >= p.pos.x {
                    p.bounds.width - p.pos.x
                } else {
                    0
                }) as u32,
                height: p.row_height,
            },
        },
        style: PrimitiveStyle { fill_color: Some(style.background_color), stroke_color: None, stroke_width: 0 },
    }
}

/// The one pixel wide outline of `area` in the debug color `color`.
pub open spec fn debug_outline<COL>(area: Rectangle, color: Option<COL>) -> DrawCommand<COL> {
    DrawCommand::Rect { rect: area, style: PrimitiveStyle { fill_color: None, stroke_color: color, stroke_width: 1 } }
}

/// The bounds of the UI inside a popup that starts at `top_left`, is `width` wide and as tall as
/// a buffer of `buffer_len` pixels allows: moved in and shrunk by the window border padding of
/// `style`, as [`Ui::new`] does.
pub open spec fn popup_inner_bounds<COL>(top_left: Point, width: u16, buffer_len: nat, style: Style<COL>) -> Rectangle {
    let pad = style.spacing.window_border_padding;
    let height = buffer_len / (width as nat);
    Rectangle {
        top_left: Point { x: (top_left.x + pad.height) as i32, y: (top_left.y + pad.width) as i32 },
        size: Size {
            width: (if width >= 2 * pad.width { width - 2 * pad.width } else { 0 }) as u32,
            height: (if height >= 2 * pad.height { height - 2 * pad.height } else { 0 }) as u32,
        },
    }
}

/// The interaction that a shown popup moved down by `offset` receives: the same kind of
/// interaction, its point moved up by `offset` (kept within `i32`); none without a point.
pub open spec fn shifted_for_popup(i: Interaction, offset: i32) -> Interaction {
    match i.point() {
        Some(pt) => {
            let y = pt.y - offset;
            let moved = Point { x: pt.x, y: (if y < i32::MIN { i32::MIN as int } else if y > i32::MAX { i32::MAX as int } else { y }) as i32 };
            match i {
                Interaction::Click(_) => Interaction::Click(moved),
                Interaction::Drag(_) => Interaction::Drag(moved),
                Interaction::Release(_) => Interaction::Release(moved),
                Interaction::Hover(_) => Interaction::Hover(moved),
                Interaction::Idle => Interaction::Idle,
            }
        },
        None => Interaction::Idle,
    }
}

/// The placer `p` with its row alignment switched to the center.
pub open spec fn centered_placer(p: Placer) -> Placer {
    Placer { align: Align(HorizontalAlign::Center, p.align.1), ..p }
}

/// The rectangle, in the background color, that clears the bounds of the placer `p` from the
/// top of its current row down to the bottom.
pub open spec fn bottom_clear<COL>(p: Placer, style: Style<COL>) -> DrawCommand<COL> {
    DrawCommand::Rect {
        rect: Rectangle {
            top_left: Point { x: 0, y: p.pos.y },
            size: Size { width: p.bounds.width, height: (p.bounds.height - p.pos.y) as u32 },
        },
        style: PrimitiveStyle { fill_color: Some(style.background_color), stroke_color: None, stroke_width: 0 },
    }
}

/// The placer `p` after [`Ui::new_row`] with `style`: a row of the item spacing's height, then a
/// row of the default widget height.
pub open spec fn after_new_row<COL>(p: Placer, style: Style<COL>) -> Placer {
    placer_new_row(placer_new_row(p, style.spacing.item_spacing.height), style.default_widget_height)
}

/// The response that stands for a widget that could not be placed or drawn: the error, an empty
/// area, no interaction, and a redraw.
pub open spec fn error_response(error: GuiError) -> Response {
    Response {
        internal: InternalResponse {
            area: Rectangle { top_left: Point { x: 0, y: 0 }, size: Size { width: 0, height: 0 } },
            interaction: Interaction::Idle,
        },
        click: false,
        down: false,
        redraw: true,
        changed: false,
        error: Some(error),
    }
}

/// `r` is a result that drawing the widget `widget` (of type `W`) into the UI `ui` gives, as far
/// as the widget's own `draw` says.
pub open spec fn widget_result<'a, COL: Copy, W: Widget<COL>>(widget: W, ui: Ui<'a, COL>, r: GuiResult<Response>) -> bool {
    exists|w: &mut W, u: &mut Ui<'a, COL>| *w == widget && *u == ui && #[trigger] call_ensures(W::draw, (w, u), r)
}

/// The response that adding a widget answers with for the result `raw` of drawing it: the
/// widget's own response, or the response that stands for its error.
pub open spec fn add_response(raw: GuiResult<Response>) -> Response {
    match raw {
        Ok(resp) => resp,
        Err(e) => error_response(e),
    }
}

/// `ir` is the place that allocating `size` with the placer `p` gives in `ui`: the area (in
/// display coordinates) and the interaction that reaches it.
pub open spec fn placed_with<'a, COL: Copy>(ui: Ui<'a, COL>, p: Placer, size: Size, ir: InternalResponse) -> bool {
    match placer_next(p, size).1 {
        Ok(rect) => {
            &&& ir.area == translated(rect, ui.bounds().top_left)
            &&& ir.interaction == ui.interaction_in(ir.area)
        },
        Err(_) => false,
    }
}

/// `w` by `h` as a size, or [`GuiError::NoSpaceLeft`] when a dimension does not fit in `u32`
/// (such a widget could never be placed).
pub fn checked_size(w: u64, h: u64) -> (r: GuiResult<Size>)
    ensures
        w <= u32::MAX && h <= u32::MAX ==> r == Ok::<Size, GuiError>(Size { width: w as u32, height: h as u32 }),
        !(w <= u32::MAX && h <= u32::MAX) ==> r == Err::<Size, GuiError>(GuiError::NoSpaceLeft),
{
    if w <= u32::MAX as u64 && h <= u32::MAX as u64 {
        Ok(Size::new(w as u32, h as u32))
    } else {
        Err(GuiError::NoSpaceLeft)
    }
}

/// `w` by `h` as a size, or [`GuiError::NoSpaceLeft`] when a dimension does not fit in `u32`.
pub open spec fn spec_checked_size(w: int, h: int) -> Result<Size, GuiError> {
    if w <= u32::MAX && h <= u32::MAX {
        Ok(Size { width: w as u32, height: h as u32 })
    } else {
        Err(GuiError::NoSpaceLeft)
    }
}

/// Largest distance of the UI's top left corner from the display origin, in either direction.
pub const MAX_ORIGIN: i32 = 536870912;

/// A widget: something that places itself in a [`Ui`] and appends its drawing there.
///
/// Drawing a widget allocates at most one place in the UI's layout and leaves the UI's bounds
/// and style as they were.
pub trait Widget<COL: Copy> {
    fn draw(&mut self, ui: &mut Ui<'_, COL>) -> (r: GuiResult<Response>)
        requires
            old(ui).wf(),
            old(ui).placer().room(1),
            !old(ui).framebuf_active(),
        ensures
            final(ui).wf(),
            final(ui).unchanged_frame(*old(ui)),
            final(ui).placer().within_steps(old(ui).placer(), 1),
            !final(ui).framebuf_active(),
            final(ui).interaction() == old(ui).interaction() || old(ui).has_popup_layer(),
            old(ui).commands().is_prefix_of(final(ui).commands()),
            r matches Ok(resp) ==> resp.error is None && exists|size: Size|
                #[trigger] placed_with(*old(ui), old(ui).placer(), size, resp.internal)
                    && final(ui).placer() == placer_next(old(ui).placer(), size).0,
            r is Err ==> final(ui).placer() == old(ui).placer() || exists|size: Size|
                final(ui).placer() == (#[trigger] placer_next(old(ui).placer(), size)).0,
            r matches Ok(resp) ==> (resp.click ==> resp.internal.interaction is Release),
            final(ui).interaction() == old(ui).interaction() || final(ui).interaction() is Idle,
    ;
}

#[derive(Debug, Clone, Copy, PartialEq, Eq, Structural, Default)]
enum PopupStage {
    #[default]
    Hide,
    Drawing,
    Show,
    Handled,
}

/// Represents the state of a popup: its stage (hidden, being drawn, shown, handled), the row
/// and column of the widget that opened it, its bounds once drawn, and the vertical offset that
/// keeps it on the screen.
///
/// The state must be declared outside the UI loop so that it survives from frame to frame.
#[derive(Debug, Default)]
pub struct PopupState {
    stage: PopupStage,
    col: u32,
    row: u32,
    bounds: Option<Rectangle>,
    offset_y: i32,
}

impl PopupState {
    /// Whether the popup is shown.
    pub closed spec fn showing(&self) -> bool {
        self.stage == PopupStage::Show
    }

    /// Whether the popup is hidden (it was never opened, or it was closed and cleaned up).
    pub closed spec fn hidden(&self) -> bool {
        self.stage == PopupStage::Hide
    }

    /// Whether the popup was closed this frame (an item was chosen or a click landed outside).
    pub closed spec fn handled(&self) -> bool {
        self.stage == PopupStage::Handled
    }

    /// The column and row of the widget that opened the popup.
    pub closed spec fn opened_at(&self) -> (u32, u32) {
        (self.col, self.row)
    }

    /// The bounds of the popup once it was drawn.
    pub closed spec fn drawn_bounds(&self) -> Option<Rectangle> {
        self.bounds
    }

    /// How far the popup is moved down (up, when negative) to stay on the screen.
    pub closed spec fn offset(&self) -> i32 {
        self.offset_y
    }

    /// This state, closed: handled, with everything else kept.
    pub closed spec fn closed(&self) -> PopupState {
        PopupState { stage: PopupStage::Handled, ..*self }
    }

    /// Whether the popup is shown.
    pub fn is_showing(&self) -> (b: bool)
        ensures
            b == self.showing(),
    {
        self.stage == PopupStage::Show
    }
}

/// The popup layer of a [`Ui`] for this frame.
struct Popup<'a> {
    state: &'a mut PopupState,
    buffer_len: usize,
    interact: Interaction,
}

/// The main UI struct: layout of widgets, interaction state, style, and the drawing commands of
/// the frame.
///
/// Widgets are placed by a [`Placer`] inside the UI's bounds; the interaction (a click, drag,
/// release or hover at a point) reaches the widget whose area contains its point. All drawing
/// becomes [`DrawCommand`]s that the application replays onto its display.
pub struct Ui<'a, COL> {
    bounds: Rectangle,
    style: Style<COL>,
    placer: Placer,
    interact: Interaction,
    cleared: bool,
    debug_color: Option<COL>,
    buffer_len: Option<usize>,
    framebuf_active: bool,
    commands: Vec<DrawCommand<COL>>,
    popup: Option<Popup<'a>>,
}

/// `r` moved by the vector `by`.
pub open spec fn translated(r: Rectangle, by: Point) -> Rectangle {
    Rectangle { top_left: Point { x: (r.top_left.x + by.x) as i32, y: (r.top_left.y + by.y) as i32 }, size: r.size }
}

impl<'a, COL: Copy> Ui<'a, COL> {
    pub closed spec fn bounds(&self) -> Rectangle {
        self.bounds
    }

    pub closed spec fn style_spec(&self) -> Style<COL> {
        self.style
    }

    pub closed spec fn placer(&self) -> Placer {
        self.placer
    }

    pub closed spec fn interaction(&self) -> Interaction {
        self.interact
    }

    pub closed spec fn is_cleared(&self) -> bool {
        self.cleared
    }

    pub closed spec fn debug_color(&self) -> Option<COL> {
        self.debug_color
    }

    pub closed spec fn buffer_len(&self) -> Option<usize> {
        self.buffer_len
    }

    /// Whether drawing currently goes to the framebuffer.
    pub closed spec fn framebuf_active(&self) -> bool {
        self.framebuf_active
    }

    /// The drawing commands of the frame so far.
    pub closed spec fn commands(&self) -> Seq<DrawCommand<COL>> {
        self.commands@
    }

    /// Whether a popup layer is shown, which keeps interactions from reaching the widgets
    /// below it.
    pub closed spec fn popup_showing(&self) -> bool {
        self.popup matches Some(p) && p.state.stage == PopupStage::Show
    }

    /// The popup buffer, if any, has at most [`MAX_EXTENT`] pixels.
    /// Whether a popup layer was begun this frame.
    pub closed spec fn has_popup_layer(&self) -> bool {
        self.popup is Some
    }

    pub closed spec fn popup_buffer_ok(&self) -> bool {
        match self.popup {
            Some(p) => p.buffer_len <= MAX_EXTENT,
            None => true,
        }
    }

    /// The sizes and positions are in the ranges that the layout arithmetic works in.
    pub open spec fn wf(&self) -> bool {
        &&& self.placer().wf()
        &&& self.style_spec().wf()
        &&& self.bounds().size.bounded()
        &&& self.popup_buffer_ok()
        &&& -MAX_ORIGIN <= self.bounds().top_left.x <= MAX_ORIGIN
        &&& -MAX_ORIGIN <= self.bounds().top_left.y <= MAX_ORIGIN
    }

    /// Bounds, style and drawing setup are those of `prev`.
    pub open spec fn unchanged_frame(&self, prev: Ui<'a, COL>) -> bool {
        &&& self.bounds() == prev.bounds()
        &&& self.style_spec() == prev.style_spec()
        &&& self.debug_color() == prev.debug_color()
        &&& self.buffer_len() == prev.buffer_len()
        &&& self.popup_buffer_ok() == prev.popup_buffer_ok()
    }

    /// Everything but the layout position and the drawing commands is that of `prev`.
    pub open spec fn same_but_layout(&self, prev: Ui<'a, COL>) -> bool {
        &&& self.unchanged_frame(prev)
        &&& self.interaction() == prev.interaction()
        &&& self.is_cleared() == prev.is_cleared()
        &&& self.framebuf_active() == prev.framebuf_active()
        &&& self.popup_showing() == prev.popup_showing()
        &&& self.has_popup_layer() == prev.has_popup_layer()
        &&& self.popup_state() == prev.popup_state()
        &&& self.popup_interaction() == prev.popup_interaction()
        &&& self.popup_buffer_len() == prev.popup_buffer_len()
    }

    /// The interaction that reaches a widget occupying `area`: the UI's interaction when its
    /// point lies inside `area` and no popup is shown, otherwise none.
    pub open spec fn interaction_in(&self, area: Rectangle) -> Interaction {
        match self.interaction().point() {
            Some(pt) => if !self.popup_showing() && spec_contains(area, pt) {
                self.interaction()
            } else {
                Interaction::Idle
            },
            None => Interaction::Idle,
        }
    }

    /// Returns the width of the [Ui]'s placer (not the entire screen width).
    pub fn get_width(&self) -> (w: u32)
        ensures
            w == self.placer().bounds.width,
    {
        self.placer.bounds.width
    }

    /// Returns the width of the screen, including the UI's window border padding.
    pub fn get_screen_width(&self) -> (w: u32)
        requires
            self.wf(),
        ensures
            w == self.bounds().size.width + self.style_spec().spacing.window_border_padding.width * 2,
    {
        self.bounds.size.width + self.style.spacing.window_border_padding.width * 2
    }

    /// Returns the height of the screen, including the UI's window border padding.
    pub fn get_screen_height(&self) -> (h: u32)
        requires
            self.wf(),
        ensures
            h == self.bounds().size.height + self.style_spec().spacing.window_border_padding.height * 2,
    {
        self.bounds.size.height + self.style.spacing.window_border_padding.height * 2
    }

    /// Return the position of the placer (relative to the UI's bounds).
    pub fn get_placer_top_left(&self) -> (p: Point)
        ensures
            p == self.placer().pos,
    {
        self.placer.pos
    }

    /// Whether the layout position is still within the height of the bounds.
    pub(crate) fn within_height(&self) -> (b: bool)
        ensures
            b == (self.placer().pos.y <= self.placer().bounds.height),
    {
        self.placer.pos.y as i64 <= self.placer.bounds.height as i64
    }

    /// Whether the layout has room for `k` more steps (see [`Placer::room`]).
    pub fn has_room(&self, k: u32) -> (b: bool)
        requires
            self.wf(),
        ensures
            b == self.placer().room(k as int),
    {
        let p = self.placer;
        p.pos.x as i64 + k as i64 * 2 * MAX_EXTENT as i64 <= MAX_LAYOUT as i64
            && p.pos.y as i64 + p.row_height as i64 + k as i64 * MAX_EXTENT as i64 <= MAX_LAYOUT as i64
            && (p.row as u64) + (k as u64) < u32::MAX as u64 && (p.col as u64) + (k as u64) < u32::MAX as u64
    }

    /// Creates a new [Ui] with the given bounds and style.
    ///
    /// The bounds are shrunk by the style's window border padding: the top left corner moves by
    /// the padding's (height, width), and the size loses twice the padding.
    pub fn new(bounds: Rectangle, style: Style<COL>) -> (ui: Self)
        requires
            style.wf(),
            bounds.size.bounded(),
            -(MAX_ORIGIN - MAX_EXTENT) <= bounds.top_left.x <= MAX_ORIGIN - MAX_EXTENT,
            -(MAX_ORIGIN - MAX_EXTENT) <= bounds.top_left.y <= MAX_ORIGIN - MAX_EXTENT,
        ensures
            ui.wf(),
            ui.bounds().top_left == (Point {
                x: (bounds.top_left.x + style.spacing.window_border_padding.height) as i32,
                y: (bounds.top_left.y + style.spacing.window_border_padding.width) as i32,
            }),
            ui.bounds().size.width == (if bounds.size.width >= 2 * style.spacing.window_border_padding.width {
                bounds.size.width - 2 * style.spacing.window_border_padding.width
            } else {
                0
            }),
            ui.bounds().size.height == (if bounds.size.height >= 2 * style.spacing.window_border_padding.height {
                bounds.size.height - 2 * style.spacing.window_border_padding.height
            } else {
                0
            }),
            ui.placer() == Placer::spec_new(ui.bounds().size),
            ui.style_spec() == style,
            ui.interaction() == Interaction::Idle,
            !ui.is_cleared(),
            ui.debug_color() is None,
            ui.buffer_len() is None,
            !ui.framebuf_active(),
            !ui.popup_showing(),
            ui.commands() == Seq::<DrawCommand<COL>>::empty(),
    {
        let pad = style.spacing.window_border_padding;
        let top_left = Point::new(bounds.top_left.x + pad.height as i32, bounds.top_left.y + pad.width as i32);
        let size = bounds.size.saturating_sub(Size::new(pad.width * 2, pad.height * 2));
        let bounds = Rectangle::new(top_left, size);
        let placer = Placer::new(bounds.size, true, Align(HorizontalAlign::Left, VerticalAlign::Top));
        Ui {
            bounds,
            style,
            placer,
            interact: Interaction::Idle,
            cleared: false,
            debug_color: None,
            buffer_len: None,
            framebuf_active: false,
            commands: Vec::new(),
            popup: None,
        }
    }

    /// Sets the current interaction for the [Ui].
    pub fn interact(&mut self, interaction: Interaction)
        ensures
            final(self).interaction() == interaction,
            final(self).placer() == old(self).placer(),
            final(self).popup_buffer_ok() == old(self).popup_buffer_ok(),
            final(self).unchanged_frame(*old(self)),
            final(self).is_cleared() == old(self).is_cleared(),
            final(self).framebuf_active() == old(self).framebuf_active(),
            final(self).popup_showing() == old(self).popup_showing(),
            final(self).commands() == old(self).commands(),
    {
        self.interact = interaction;
    }

    /// Draws a widget without starting a new row. With a debug color set, the area of a widget
    /// that was placed is outlined in that color.
    pub fn add_raw<W: Widget<COL>>(&mut self, widget: &mut W) -> (r: GuiResult<Response>)
        requires
            !old(self).framebuf_active(),
            old(self).wf(),
            old(self).placer().room(1),
        ensures
            !final(self).framebuf_active(),
            final(self).wf(),
            final(self).unchanged_frame(*old(self)),
            final(self).placer().within_steps(old(self).placer(), 1),
            old(self).commands().is_prefix_of(final(self).commands()),
            widget_result(*old(widget), *old(self), r),
            r matches Ok(resp) ==> (resp.click ==> resp.internal.interaction is Release),
            final(self).interaction() == old(self).interaction() || final(self).interaction() is Idle,
            r is Err ==> final(self).placer() == old(self).placer() || exists|size: Size|
                final(self).placer() == (#[trigger] placer_next(old(self).placer(), size)).0,
            r matches Ok(resp) ==> resp.error is None && exists|size: Size|
                #[trigger] placed_with(*old(self), old(self).placer(), size, resp.internal)
                    && final(self).placer() == placer_next(old(self).placer(), size).0,
            r matches Ok(resp) ==> (old(self).debug_color() is Some ==> final(self).commands().last() == debug_outline(
                resp.internal.area,
                old(self).debug_color(),
            )),
    {
        let ghost before = *self;
        let ghost w0 = *widget;
        let res = widget.draw(self);
        assert(exists|w: &mut W, u: &mut Ui<'a, COL>| *w == w0 && *u == before && call_ensures(W::draw, (w, u), res));
        self.outline_placed(&res);
        res
    }

    /// With a debug color set, outlines the area of a placed widget (`res` is `Ok`) in that
    /// color, one pixel wide.
    pub(crate) fn outline_placed(&mut self, res: &GuiResult<Response>)
        requires
            old(self).wf(),
        ensures
            final(self).wf(),
            final(self).placer() == old(self).placer(),
            final(self).same_but_layout(*old(self)),
            final(self).commands() == if res is Ok && old(self).debug_color() is Some {
                old(self).commands().push(debug_outline(res->Ok_0.internal.area, old(self).debug_color()))
            } else {
                old(self).commands()
            },
    {
        if let (Ok(resp), Some(debug_color)) = (res, self.debug_color) {
            let area = resp.internal.area;
            self.commands.push(DrawCommand::Rect { rect: area, style: PrimitiveStyle::with_stroke(debug_color, 1) });
        }
    }

    /// Adds a widget and then starts a new row; a failure to place or draw the widget ends up
    /// in the response's `error`.
    pub fn add<W: Widget<COL>>(&mut self, mut widget: W) -> (r: Response)
        requires
            !old(self).framebuf_active(),
            old(self).wf(),
            old(self).placer().room(3),
        ensures
            !final(self).framebuf_active(),
            final(self).wf(),
            final(self).unchanged_frame(*old(self)),
            final(self).placer().within_steps(old(self).placer(), 3),
            old(self).commands().is_prefix_of(final(self).commands()),
            exists|raw: GuiResult<Response>| #[trigger] widget_result(widget, *old(self), raw) && r == add_response(raw),
            final(self).placer().row >= old(self).placer().row + 2,
            r.error is Some ==> final(self).placer() == after_new_row(old(self).placer(), old(self).style_spec())
                || exists|size: Size|
                final(self).placer() == after_new_row(
                    (#[trigger] placer_next(old(self).placer(), size)).0,
                    old(self).style_spec(),
                ),
            r.error is None ==> exists|size: Size|
                #[trigger] placed_with(*old(self), old(self).placer(), size, r.internal)
                    && final(self).placer() == after_new_row(placer_next(old(self).placer(), size).0, old(self).style_spec()),
            r.error matches Some(e) ==> r == error_response(e),
            ordered_step(*old(self), *final(self), r.click),
    {
        let ghost before = *self;
        let raw = self.add_raw(&mut widget);
        let ghost placed = raw;
        let ghost mid = self.placer();
        let resp = match raw {
            Ok(r) => r,
            Err(e) => Response::from_error(e),
        };
        self.new_row();
        proof {
            lemma_widget_in_order(before, mid, placed);
            let tl = before.bounds().top_left;
            let h1 = before.style_spec().spacing.item_spacing.height;
            let h2 = before.style_spec().default_widget_height;
            assert forall|pt: Point| #[trigger] placed_before(pt, before.placer(), tl) implies placed_before(pt, self.placer(), tl) by {
                lemma_new_row_in_order(mid, h1, tl, pt);
                lemma_new_row_in_order(placer_new_row(mid, h1), h2, tl, pt);
            }
            if resp.click {
                let pt = before.interaction()->Release_0;
                lemma_new_row_in_order(mid, h1, tl, pt);
                lemma_new_row_in_order(placer_new_row(mid, h1), h2, tl, pt);
            }
        }
        resp
    }

    /// Adds a widget and, if `clear` is set, clears the rest of its row; then starts a new row.
    pub fn add_and_clear_col_remainder<W: Widget<COL>>(&mut self, mut widget: W, clear: bool) -> (r: Response)
        requires
            !old(self).framebuf_active(),
            old(self).wf(),
            old(self).placer().room(3),
        ensures
            !final(self).framebuf_active(),
            final(self).wf(),
            final(self).unchanged_frame(*old(self)),
            final(self).placer().within_steps(old(self).placer(), 3),
            old(self).commands().is_prefix_of(final(self).commands()),
            exists|raw: GuiResult<Response>| #[trigger] widget_result(widget, *old(self), raw) && r == add_response(raw),
            r.error is Some ==> final(self).placer() == after_new_row(old(self).placer(), old(self).style_spec())
                || exists|size: Size|
                final(self).placer() == after_new_row(
                    (#[trigger] placer_next(old(self).placer(), size)).0,
                    old(self).style_spec(),
                ),
            r.error is None ==> exists|size: Size|
                #[trigger] placed_with(*old(self), old(self).placer(), size, r.internal)
                    && final(self).placer() == after_new_row(placer_next(old(self).placer(), size).0, old(self).style_spec())
                    && (clear ==> final(self).commands().last() == row_end_clear(
                        placer_next(old(self).placer(), size).0,
                        old(self).style_spec(),
                    )),
            r.error matches Some(e) ==> r == error_response(e),
    {
        let resp = match self.add_raw(&mut widget) {
            Ok(r) => r,
            Err(e) => Response::from_error(e),
        };
        if clear {
            let _ = self.clear_row_to_end();
        }
        self.new_row();
        resp
    }

    /// Adds a widget centered horizontally in the current row, then starts a new row.
    pub fn add_centered<W: Widget<COL>>(&mut self, mut widget: W) -> (r: Response)
        requires
            !old(self).framebuf_active(),
            old(self).wf(),
            old(self).placer().room(3),
        ensures
            !final(self).framebuf_active(),
            final(self).wf(),
            final(self).unchanged_frame(*old(self)),
            final(self).placer().within_steps(old(self).placer(), 3),
            old(self).commands().is_prefix_of(final(self).commands()),
            exists|raw: GuiResult<Response>|
                #[trigger] widget_result(widget, old(self).with_placer(centered_placer(old(self).placer())), raw) && r == add_response(raw),
            r.error is None ==> exists|size: Size|
                #[trigger] placed_with(
                    *old(self),
                    centered_placer(old(self).placer()),
                    size,
                    r.internal,
                ) && final(self).placer() == after_new_row(
                    Placer {
                        align: old(self).placer().align,
                        ..placer_next(
                            centered_placer(old(self).placer()),
                            size,
                        ).0
                    },
                    old(self).style_spec(),
                ),
            r.error matches Some(e) ==> r == error_response(e),
            final(self).placer().align == old(self).placer().align,
    {
        let align = self.placer.align;
        self.placer.align = Align(HorizontalAlign::Center, align.1);
        let ghost mid = *self;
        let raw = self.add_raw(&mut widget);
        let ghost placed = raw;
        let ghost after = *self;
        let resp = match raw {
            Ok(r) => r,
            Err(e) => Response::from_error(e),
        };
        self.placer.align = align;
        self.new_row();
        proof {
            if placed is Ok {
                let size = choose|size: Size|
                    #[trigger] placed_with(mid, mid.placer(), size, resp.internal)
                        && after.placer() == placer_next(mid.placer(), size).0;
                assert(mid.placer() == centered_placer(old(self).placer()));
                assert(placed_with(*old(self), centered_placer(old(self).placer()), size, resp.internal));
            }
        }
        resp
    }

    /// Adds a widget to the current row, followed by the style's item spacing (which is left
    /// out when it does not fit).
    pub fn add_horizontal<W: Widget<COL>>(&mut self, mut widget: W) -> (r: Response)
        requires
            !old(self).framebuf_active(),
            old(self).wf(),
            old(self).placer().room(2),
        ensures
            !final(self).framebuf_active(),
            final(self).wf(),
            final(self).unchanged_frame(*old(self)),
            final(self).placer().within_steps(old(self).placer(), 2),
            old(self).commands().is_prefix_of(final(self).commands()),
            exists|raw: GuiResult<Response>| #[trigger] widget_result(widget, *old(self), raw) && r == add_response(raw),
            r.error is None ==> exists|size: Size|
                #[trigger] placed_with(*old(self), old(self).placer(), size, r.internal) && {
                    let q = placer_next(old(self).placer(), size).0;
                    final(self).placer() == (Placer {
                        wrap: q.wrap,
                        ..placer_next(Placer { wrap: false, ..q }, old(self).style_spec().spacing.item_spacing).0
                    })
                },
            r.error matches Some(e) ==> r == error_response(e),
            ordered_step(*old(self), *final(self), r.click),
    {
        let ghost before = *self;
        let raw = self.add_raw(&mut widget);
        let ghost placed = raw;
        let ghost mid = self.placer();
        let resp = match raw {
            Ok(r) => r,
            Err(e) => Response::from_error(e),
        };
        let spacing = self.style.spacing.item_spacing;
        let _ = self.allocate_space_no_wrap(spacing);
        proof {
            lemma_widget_in_order(before, mid, placed);
            let tl = before.bounds().top_left;
            let nw = Placer { wrap: false, ..mid };
            assert forall|pt: Point| #[trigger] placed_before(pt, before.placer(), tl) implies placed_before(pt, self.placer(), tl) by {
                lemma_place_in_order(nw, spacing, tl, pt);
            }
            if resp.click {
                let pt = before.interaction()->Release_0;
                lemma_place_in_order(nw, spacing, tl, pt);
            }
        }
        resp
    }

    /// Returns the current style.
    pub fn style(&self) -> (s: &Style<COL>)
        ensures
            *s == self.style_spec(),
    {
        &self.style
    }

    /// Returns the current style for changes; the UI afterwards has the changed style.
    pub fn style_mut(&mut self) -> (s: &mut Style<COL>)
        ensures
            *s == old(self).style_spec(),
            final(self).style_spec() == *final(s),
            final(self).placer() == old(self).placer(),
            final(self).bounds() == old(self).bounds(),
            final(self).debug_color() == old(self).debug_color(),
            final(self).popup_buffer_ok() == old(self).popup_buffer_ok(),
            final(self).buffer_len() == old(self).buffer_len(),
            final(self).interaction() == old(self).interaction(),
            final(self).is_cleared() == old(self).is_cleared(),
            final(self).framebuf_active() == old(self).framebuf_active(),
            final(self).popup_showing() == old(self).popup_showing(),
            final(self).commands() == old(self).commands(),
    {
        &mut self.style
    }

    /// Advances the layout to a new row: first by a row of the item spacing's height, then to a
    /// row of the default widget height.
    pub fn new_row(&mut self)
        requires
            old(self).wf(),
            old(self).placer().room(2),
        ensures
            final(self).wf(),
            final(self).placer() == placer_new_row(
                placer_new_row(old(self).placer(), old(self).style_spec().spacing.item_spacing.height),
                old(self).style_spec().default_widget_height,
            ),
            final(self).placer().within_steps(old(self).placer(), 2),
            final(self).same_but_layout(*old(self)),
            final(self).commands() == old(self).commands(),
            ordered_step(*old(self), *final(self), false),
    {
        let h = self.style.spacing.item_spacing.height;
        self.placer.new_row(h);
        let d = self.style.default_widget_height;
        self.placer.new_row(d);
        proof {
            let tl = old(self).bounds().top_left;
            assert forall|pt: Point| #[trigger] placed_before(pt, old(self).placer(), tl) implies placed_before(pt, self.placer(), tl) by {
                lemma_new_row_in_order(old(self).placer(), h, tl, pt);
                lemma_new_row_in_order(placer_new_row(old(self).placer(), h), d, tl, pt);
            }
        }
    }

    /// Advances the layout to a new row with the specified height.
    pub fn new_row_raw(&mut self, height: u32)
        requires
            old(self).wf(),
            old(self).placer().room(1),
            height <= MAX_EXTENT,
        ensures
            final(self).wf(),
            final(self).placer() == placer_new_row(old(self).placer(), height),
            final(self).placer().within_steps(old(self).placer(), 1),
            final(self).same_but_layout(*old(self)),
            final(self).commands() == old(self).commands(),
    {
        self.placer.new_row(height);
    }

    /// Expands the current row height to at least `height`.
    pub fn expand_row_height(&mut self, height: u32)
        requires
            old(self).wf(),
            height <= MAX_EXTENT,
            old(self).placer().pos.y + height <= MAX_LAYOUT,
        ensures
            final(self).wf(),
            final(self).placer() == (Placer {
                row_height: max_u32(old(self).placer().row_height, height),
                ..old(self).placer()
            }),
            final(self).same_but_layout(*old(self)),
            final(self).commands() == old(self).commands(),
    {
        self.placer.expand_row_height(height);
    }

    /// Returns the remaining space for widget placement.
    pub fn space_available(&self) -> (s: Size)
        requires
            self.wf(),
            self.placer().pos.x <= self.placer().bounds.width,
            self.placer().pos.y <= self.placer().bounds.height,
        ensures
            s == (Size {
                width: (self.placer().bounds.width - self.placer().pos.x) as u32,
                height: (self.placer().bounds.height - self.placer().pos.y) as u32,
            }),
    {
        self.placer.space_available()
    }

    /// The interaction if its point lies within `area` (and no popup is shown), otherwise
    /// [`Interaction::Idle`].
    pub fn check_interact(&self, area: Rectangle) -> (i: Interaction)
        ensures
            i == self.interaction_in(area),
    {
        match self.interact.get_point() {
            Some(pt) => {
                let blocked = match &self.popup {
                    Some(p) => p.state.stage == PopupStage::Show,
                    None => false,
                };
                if !blocked && area.contains(pt) {
                    self.interact
                } else {
                    Interaction::Idle
                }
            },
            None => Interaction::Idle,
        }
    }

    /// Allocates exactly the desired size (the same as [`Ui::allocate_space`]).
    pub fn allocate_exact_size(&mut self, desired_size: Size) -> (r: GuiResult<InternalResponse>)
        requires
            old(self).wf(),
            old(self).placer().room(1),
        ensures
            final(self).wf(),
            final(self).placer() == placer_next(old(self).placer(), desired_size).0,
            final(self).placer().within_steps(old(self).placer(), 1),
            final(self).same_but_layout(*old(self)),
            final(self).commands() == old(self).commands(),
            r matches Ok(ir) ==> placed_with(*old(self), old(self).placer(), desired_size, ir),
            match placer_next(old(self).placer(), desired_size).1 {
                Ok(rect) => r matches Ok(ir) && ir.area == translated(rect, old(self).bounds().top_left)
                    && ir.interaction == old(self).interaction_in(ir.area),
                Err(e) => r == Err::<InternalResponse, GuiError>(e),
            },
    {
        self.allocate_space(desired_size)
    }

    /// Allocates space for a widget of the desired size, wrapping to a new row if needed.
    ///
    /// The allocated area is in display coordinates (moved by the UI's top left corner), and
    /// the interaction is the one that reaches that area.
    pub fn allocate_space(&mut self, desired_size: Size) -> (r: GuiResult<InternalResponse>)
        requires
            old(self).wf(),
            old(self).placer().room(1),
        ensures
            final(self).wf(),
            final(self).placer() == placer_next(old(self).placer(), desired_size).0,
            final(self).placer().within_steps(old(self).placer(), 1),
            final(self).same_but_layout(*old(self)),
            final(self).commands() == old(self).commands(),
            r matches Ok(ir) ==> placed_with(*old(self), old(self).placer(), desired_size, ir),
            match placer_next(old(self).placer(), desired_size).1 {
                Ok(rect) => r matches Ok(ir) && ir.area == translated(rect, old(self).bounds().top_left)
                    && ir.interaction == old(self).interaction_in(ir.area),
                Err(e) => r == Err::<InternalResponse, GuiError>(e),
            },
    {
        let rect = self.placer.next(desired_size)?;
        let area = Rectangle::new(
            Point::new(rect.top_left.x + self.bounds.top_left.x, rect.top_left.y + self.bounds.top_left.y),
            rect.size,
        );
        let inter = self.check_interact(area);
        Ok(InternalResponse { area, interaction: inter })
    }

    /// Allocates space for a widget of the desired size without wrapping.
    pub fn allocate_space_no_wrap(&mut self, desired_size: Size) -> (r: GuiResult<InternalResponse>)
        requires
            old(self).wf(),
            old(self).placer().room(1),
        ensures
            final(self).wf(),
            final(self).placer() == (Placer {
                wrap: old(self).placer().wrap,
                ..placer_next(Placer { wrap: false, ..old(self).placer() }, desired_size).0
            }),
            final(self).placer().within_steps(old(self).placer(), 1),
            final(self).same_but_layout(*old(self)),
            final(self).commands() == old(self).commands(),
            match placer_next(Placer { wrap: false, ..old(self).placer() }, desired_size).1 {
                Ok(rect) => r matches Ok(ir) && ir.area == translated(rect, old(self).bounds().top_left)
                    && ir.interaction == old(self).interaction_in(ir.area),
                Err(e) => r == Err::<InternalResponse, GuiError>(e),
            },
    {
        let rect = self.placer.next_no_wrap(desired_size)?;
        let area = Rectangle::new(
            Point::new(rect.top_left.x + self.bounds.top_left.x, rect.top_left.y + self.bounds.top_left.y),
            rect.size,
        );
        let inter = self.check_interact(area);
        Ok(InternalResponse { area, interaction: inter })
    }

    /// Returns the current row height.
    pub fn get_row_height(&self) -> (h: u32)
        ensures
            h == self.placer().row_height,
    {
        self.placer.row_height()
    }

    /// Returns whether the background was cleared this frame.
    pub fn cleared(&self) -> (b: bool)
        ensures
            b == self.is_cleared(),
    {
        self.cleared
    }

    /// Appends a drawing command (to the framebuffer while one is in use).
    pub fn draw(&mut self, item: DrawCommand<COL>) -> (r: GuiResult<()>)
        ensures
            r is Ok,
            final(self).commands() == old(self).commands().push(item),
            final(self).placer() == old(self).placer(),
            final(self).same_but_layout(*old(self)),
    {
        self.commands.push(item);
        Ok(())
    }

    /// Clears `area` with the background color.
    pub fn clear_area(&mut self, area: Rectangle) -> (r: GuiResult<()>)
        ensures
            r is Ok,
            final(self).commands() == old(self).commands().push(
                DrawCommand::Rect { rect: area, style: PrimitiveStyle { fill_color: Some(old(self).style_spec().background_color), stroke_color: None, stroke_width: 0 } },
            ),
            final(self).placer() == old(self).placer(),
            final(self).same_but_layout(*old(self)),
    {
        let bg = self.style.background_color;
        self.draw(DrawCommand::Rect { rect: area, style: PrimitiveStyle::with_fill(bg) })
    }

    /// Clears the current row (from the left edge, full width of the bounds).
    pub fn clear_row(&mut self) -> (r: GuiResult<()>)
        ensures
            r is Ok,
            final(self).commands() == old(self).commands().push(
                DrawCommand::Rect {
                    rect: Rectangle {
                        top_left: Point { x: 0, y: old(self).placer().pos.y },
                        size: Size { width: old(self).placer().bounds.width, height: old(self).placer().row_height },
                    },
                    style: PrimitiveStyle { fill_color: Some(old(self).style_spec().background_color), stroke_color: None, stroke_width: 0 },
                },
            ),
            final(self).placer() == old(self).placer(),
            final(self).same_but_layout(*old(self)),
    {
        let row_rect = Rectangle::new(
            Point::new(0, self.placer.pos.y),
            Size::new(self.placer.bounds.width, self.placer.row_height),
        );
        self.clear_area(row_rect)
    }

    /// Clears the current row from the current widget position to the end of the row.
    pub fn clear_row_to_end(&mut self) -> (r: GuiResult<()>)
        requires
            old(self).wf(),
        ensures
            r is Ok,
            final(self).commands() == old(self).commands().push(row_end_clear(old(self).placer(), old(self).style_spec())),
            final(self).placer() == old(self).placer(),
            final(self).same_but_layout(*old(self)),
    {
        let pos = self.placer.pos;
        let width: i32 = self.placer.bounds.width as i32 - pos.x;
        let col_rect = Rectangle::new(
            Point::new(pos.x + self.style.spacing.window_border_padding.width as i32, pos.y),
            Size::new(if width > 0 { width as u32 } else { 0 }, self.placer.row_height),
        );
        self.clear_area(col_rect)
    }

    /// Clears from the current row down to the bottom of the bounds.
    pub fn clear_to_bottom(&mut self) -> (r: GuiResult<()>)
        requires
            old(self).wf(),
            old(self).placer().pos.y <= old(self).placer().bounds.height,
        ensures
            r is Ok,
            final(self).commands() == old(self).commands().push(bottom_clear(old(self).placer(), old(self).style_spec())),
            final(self).placer() == old(self).placer(),
            final(self).same_but_layout(*old(self)),
    {
        let rect = Rectangle::new(
            Point::new(0, self.placer.pos.y),
            Size::new(self.placer.bounds.width, self.placer.bounds.height - self.placer.pos.y as u32),
        );
        self.clear_area(rect)
    }

    /// Clears the entire background (including the window border padding) and marks the UI as
    /// cleared for this frame.
    pub fn clear_background(&mut self) -> (r: GuiResult<()>)
        requires
            old(self).wf(),
        ensures
            r is Ok,
            final(self).is_cleared(),
            final(self).commands() == old(self).commands().push(
                DrawCommand::Rect {
                    rect: Rectangle {
                        top_left: Point {
                            x: (old(self).bounds().top_left.x - old(self).style_spec().spacing.window_border_padding.width) as i32,
                            y: (old(self).bounds().top_left.y - old(self).style_spec().spacing.window_border_padding.height) as i32,
                        },
                        size: Size {
                            width: (old(self).bounds().size.width + 2 * old(self).style_spec().spacing.window_border_padding.width) as u32,
                            height: (old(self).bounds().size.height + 2 * old(self).style_spec().spacing.window_border_padding.height) as u32,
                        },
                    },
                    style: PrimitiveStyle { fill_color: Some(old(self).style_spec().background_color), stroke_color: None, stroke_width: 0 },
                },
            ),
            final(self).placer() == old(self).placer(),
            final(self).unchanged_frame(*old(self)),
            final(self).interaction() == old(self).interaction(),
            final(self).framebuf_active() == old(self).framebuf_active(),
            final(self).popup_showing() == old(self).popup_showing(),
    {
        self.cleared = true;
        let pad = self.style.spacing.window_border_padding;
        let real_bg = Rectangle::new(
            Point::new(self.bounds.top_left.x - pad.width as i32, self.bounds.top_left.y - pad.height as i32),
            self.bounds.size.saturating_add(Size::new(pad.width * 2, pad.height * 2)),
        );
        let bg = self.style.background_color;
        self.commands.push(DrawCommand::Rect { rect: real_bg, style: PrimitiveStyle::with_fill(bg) });
        Ok(())
    }

    /// Sets the length (in pixels) of the drawing buffer that the application provides.
    ///
    /// A widget whose area has at most that many pixels is drawn through the buffer.
    pub fn set_buffer(&mut self, buffer_len: usize)
        ensures
            final(self).buffer_len() == Some(buffer_len),
            final(self).placer() == old(self).placer(),
            final(self).bounds() == old(self).bounds(),
            final(self).style_spec() == old(self).style_spec(),
            final(self).debug_color() == old(self).debug_color(),
            final(self).popup_buffer_ok() == old(self).popup_buffer_ok(),
            final(self).interaction() == old(self).interaction(),
            final(self).is_cleared() == old(self).is_cleared(),
            final(self).framebuf_active() == old(self).framebuf_active(),
            final(self).popup_showing() == old(self).popup_showing(),
            final(self).commands() == old(self).commands(),
    {
        self.buffer_len = Some(buffer_len);
    }

    /// Whether a buffer of `len` pixels holds an area of `size`.
    pub open spec fn buffer_fits(len: usize, size: Size) -> bool {
        size.width * size.height <= len
    }

    /// The command that clears `area` to the background color when the UI's background was not
    /// cleared this frame (none when it was).
    pub open spec fn clearing(&self, area: Rectangle) -> Seq<DrawCommand<COL>> {
        if self.is_cleared() {
            Seq::empty()
        } else {
            seq![
                DrawCommand::Rect {
                    rect: area,
                    style: PrimitiveStyle {
                        fill_color: Some(self.style_spec().background_color),
                        stroke_color: None,
                        stroke_width: 0,
                    },
                },
            ]
        }
    }

    /// Whether drawing a widget in `area` goes through the framebuffer.
    pub open spec fn buffers(&self, area: Rectangle) -> bool {
        self.buffer_len() matches Some(len) && Self::buffer_fits(len, area.size)
    }

    /// The commands that drawing `items` as a widget in `area` appends: the start of drawing
    /// (clearing the framebuffer to the background color when it is used), the items, and the
    /// flush of a used framebuffer.
    pub open spec fn framed(&self, area: Rectangle, items: Seq<DrawCommand<COL>>) -> Seq<DrawCommand<COL>> {
        if self.buffers(area) {
            seq![
                DrawCommand::StartDrawing { area, buffered: true },
                DrawCommand::ClearBuffer { color: self.style_spec().background_color },
            ] + items + seq![DrawCommand::Finalize]
        } else {
            seq![DrawCommand::StartDrawing { area, buffered: false }] + items
        }
    }

    /// Begins drawing a widget in `area`: the framebuffer is used when a buffer is set and large
    /// enough for the area, and is then cleared with the background color.
    ///
    /// Drawing must not already be going to the framebuffer.
    pub fn start_drawing(&mut self, area: &Rectangle)
        requires
            !old(self).framebuf_active(),
        ensures
            final(self).framebuf_active() == (old(self).buffer_len() matches Some(len) && Self::buffer_fits(len, area.size)),
            final(self).commands() == if final(self).framebuf_active() {
                old(self).commands().push(DrawCommand::StartDrawing { area: *area, buffered: true }).push(
                    DrawCommand::ClearBuffer { color: old(self).style_spec().background_color },
                )
            } else {
                old(self).commands().push(DrawCommand::StartDrawing { area: *area, buffered: false })
            },
            final(self).placer() == old(self).placer(),
            final(self).unchanged_frame(*old(self)),
            final(self).interaction() == old(self).interaction(),
            final(self).is_cleared() == old(self).is_cleared(),
            final(self).popup_showing() == old(self).popup_showing(),
            final(self).has_popup_layer() == old(self).has_popup_layer(),
            final(self).popup_state() == old(self).popup_state(),
            final(self).popup_interaction() == old(self).popup_interaction(),
            final(self).popup_buffer_len() == old(self).popup_buffer_len(),
    {
        let w: u64 = area.size.width as u64;
        let h: u64 = area.size.height as u64;
        assert(w * h <= 0xffff_ffffu64 * 0xffff_ffffu64) by (nonlinear_arith)
            requires
                w <= 0xffff_ffffu64,
                h <= 0xffff_ffffu64,
        ;
        let fits = match self.buffer_len {
            Some(len) => w * h <= len as u64,
            None => false,
        };
        self.commands.push(DrawCommand::StartDrawing { area: *area, buffered: fits });
        self.framebuf_active = fits;
        let bg = self.style.background_color;
        self.clear_buffer_raw(bg);
    }

    /// Clears the framebuffer with `color`, if it is in use.
    pub fn clear_buffer_raw(&mut self, color: COL) -> (b: bool)
        ensures
            b == old(self).framebuf_active(),
            final(self).commands() == if b {
                old(self).commands().push(DrawCommand::ClearBuffer { color })
            } else {
                old(self).commands()
            },
            final(self).placer() == old(self).placer(),
            final(self).same_but_layout(*old(self)),
    {
        if self.framebuf_active {
            self.commands.push(DrawCommand::ClearBuffer { color });
            true
        } else {
            false
        }
    }

    /// Finalizes drawing: the framebuffer, if in use, is flushed to the display.
    pub fn finalize(&mut self) -> (r: GuiResult<()>)
        ensures
            r is Ok,
            !final(self).framebuf_active(),
            final(self).commands() == if old(self).framebuf_active() {
                old(self).commands().push(DrawCommand::Finalize)
            } else {
                old(self).commands()
            },
            final(self).placer() == old(self).placer(),
            final(self).unchanged_frame(*old(self)),
            final(self).interaction() == old(self).interaction(),
            final(self).is_cleared() == old(self).is_cleared(),
            final(self).popup_showing() == old(self).popup_showing(),
            final(self).has_popup_layer() == old(self).has_popup_layer(),
            final(self).popup_state() == old(self).popup_state(),
            final(self).popup_interaction() == old(self).popup_interaction(),
            final(self).popup_buffer_len() == old(self).popup_buffer_len(),
    {
        if self.framebuf_active {
            self.commands.push(DrawCommand::Finalize);
            self.framebuf_active = false;
        }
        Ok(())
    }

    /// Outlines the [Ui]'s bounds in `color`.
    pub fn draw_bounds_debug(&mut self, color: COL) -> (r: GuiResult<()>)
        ensures
            r is Ok,
            final(self).commands() == old(self).commands().push(
                DrawCommand::Rect { rect: old(self).bounds(), style: PrimitiveStyle { fill_color: None, stroke_color: Some(color), stroke_width: 1 } },
            ),
            final(self).placer() == old(self).placer(),
            final(self).same_but_layout(*old(self)),
    {
        let b = self.bounds;
        self.draw(DrawCommand::Rect { rect: b, style: PrimitiveStyle::with_stroke(color, 1) })
    }

    /// Outlines every widget added from now on in `color`.
    pub fn draw_widget_bounds_debug(&mut self, color: COL)
        ensures
            final(self).debug_color() == Some(color),
            final(self).popup_buffer_ok() == old(self).popup_buffer_ok(),
            final(self).placer() == old(self).placer(),
            final(self).bounds() == old(self).bounds(),
            final(self).style_spec() == old(self).style_spec(),
            final(self).buffer_len() == old(self).buffer_len(),
            final(self).interaction() == old(self).interaction(),
            final(self).is_cleared() == old(self).is_cleared(),
            final(self).framebuf_active() == old(self).framebuf_active(),
            final(self).popup_showing() == old(self).popup_showing(),
            final(self).commands() == old(self).commands(),
    {
        self.debug_color = Some(color);
    }

    /// Hands out the drawing commands of the frame, leaving the list empty.
    pub fn take_commands(&mut self) -> (c: Vec<DrawCommand<COL>>)
        ensures
            c@ == old(self).commands(),
            final(self).commands() == Seq::<DrawCommand<COL>>::empty(),
            final(self).placer() == old(self).placer(),
            final(self).same_but_layout(*old(self)),
    {
        let mut out: Vec<DrawCommand<COL>> = Vec::new();
        core::mem::swap(&mut out, &mut self.commands);
        out
    }
}

impl Placer {
    pub open spec fn spec_new(bounds: Size) -> Placer {
        Placer {
            row: 0,
            col: 0,
            pos: Point { x: 0, y: 0 },
            row_height: 0,
            bounds,
            wrap: true,
            align: Align(HorizontalAlign::Left, VerticalAlign::Top),
        }
    }
}


impl<'a, COL: Copy> Ui<'a, COL> {
    /// `u` is a sub-UI of `parent` as [`Ui::sub_ui`] makes it: same layout position and setup,
    /// no popup layer, not cleared, drawing directly.
    pub open spec fn sub_ui_of(u: Ui<'a, COL>, parent: Ui<'a, COL>, bounds: Rectangle, placer: Placer) -> bool {
        &&& u.wf()
        &&& u.bounds() == bounds
        &&& u.placer() == placer
        &&& u.style_spec() == parent.style_spec()
        &&& u.debug_color() == parent.debug_color()
        &&& u.buffer_len() == parent.buffer_len()
        &&& u.interaction() == parent.interaction()
        &&& !u.is_cleared()
        &&& !u.framebuf_active()
        &&& !u.popup_showing()
    }

    /// Runs `f` on a sub-UI with its own bounds and placer, drawing into this UI's commands.
    fn run_sub_ui<F>(&mut self, bounds: Rectangle, placer: Placer, f: F) -> (r: (Placer, GuiResult<()>))
        where F: FnOnce(&mut Ui<'a, COL>) -> GuiResult<()>,
        requires
            old(self).wf(),
            !old(self).framebuf_active(),
            placer.wf(),
            bounds.size.bounded(),
            -MAX_ORIGIN <= bounds.top_left.x <= MAX_ORIGIN,
            -MAX_ORIGIN <= bounds.top_left.y <= MAX_ORIGIN,
            forall|u: &mut Ui<'a, COL>| Self::sub_ui_of(*u, *old(self), bounds, placer) ==> #[trigger] call_requires(f, (u,)),
            forall|u: &mut Ui<'a, COL>, r: GuiResult<()>| #[trigger] call_ensures(f, (u,), r) ==> final(u).wf(),
        ensures
            r.0.wf(),
            final(self).wf(),
            final(self).placer() == old(self).placer(),
            final(self).unchanged_frame(*old(self)),
            final(self).interaction() == old(self).interaction(),
            final(self).is_cleared() == old(self).is_cleared(),
            final(self).popup_showing() == old(self).popup_showing(),
            !final(self).framebuf_active(),
            exists|u: &mut Ui<'a, COL>, res: GuiResult<()>| {
                &&& Self::sub_ui_of(*u, *old(self), bounds, placer)
                &&& #[trigger] call_ensures(f, (u,), res)
                &&& r.0 == final(u).placer()
                &&& r.1 == res
            },
    {
        let mut commands: Vec<DrawCommand<COL>> = Vec::new();
        core::mem::swap(&mut commands, &mut self.commands);
        let mut sub_ui = Ui {
            bounds,
            style: self.style,
            placer,
            interact: self.interact,
            cleared: false,
            debug_color: self.debug_color,
            buffer_len: self.buffer_len,
            framebuf_active: false,
            commands,
            popup: None,
        };
        let res = (f)(&mut sub_ui);
        let sub_placer = sub_ui.placer;
        core::mem::swap(&mut sub_ui.commands, &mut self.commands);
        (sub_placer, res)
    }
}


impl<'a, COL: Copy> Ui<'a, COL> {
    /// Runs `f` on a sub-UI that shares this UI's bounds and layout position; the layout
    /// position that `f` leaves becomes this UI's.
    pub fn sub_ui<F>(&mut self, f: F) -> (r: GuiResult<()>)
        where F: FnOnce(&mut Ui<'a, COL>) -> GuiResult<()>,
        requires
            old(self).wf(),
            !old(self).framebuf_active(),
            forall|u: &mut Ui<'a, COL>| Self::sub_ui_of(*u, *old(self), old(self).bounds(), old(self).placer())
                ==> #[trigger] call_requires(f, (u,)),
            forall|u: &mut Ui<'a, COL>, r: GuiResult<()>| #[trigger] call_ensures(f, (u,), r) ==> final(u).wf(),
        ensures
            final(self).wf(),
            final(self).unchanged_frame(*old(self)),
            final(self).interaction() == old(self).interaction(),
            final(self).is_cleared() == old(self).is_cleared(),
            final(self).popup_showing() == old(self).popup_showing(),
            !final(self).framebuf_active(),
            exists|u: &mut Ui<'a, COL>, res: GuiResult<()>| {
                &&& Self::sub_ui_of(*u, *old(self), old(self).bounds(), old(self).placer())
                &&& #[trigger] call_ensures(f, (u,), res)
                &&& final(self).placer() == final(u).placer()
                &&& r == res
            },
    {
        let bounds = self.bounds;
        let placer = self.placer;
        let (p, res) = self.run_sub_ui(bounds, placer, f);
        self.placer = p;
        res
    }

    /// Runs `f` on a sub-UI with the given bounds (shrunk by the window border padding, as
    /// [`Ui::new`] does) and a fresh layout; this UI's layout is left as it was.
    pub fn unchecked_sub_ui<F>(&mut self, bounds: Rectangle, f: F) -> (r: GuiResult<()>)
        where F: FnOnce(&mut Ui<'a, COL>) -> GuiResult<()>,
        requires
            old(self).wf(),
            !old(self).framebuf_active(),
            bounds.size.bounded(),
            -(MAX_ORIGIN - MAX_EXTENT) <= bounds.top_left.x <= MAX_ORIGIN - MAX_EXTENT,
            -(MAX_ORIGIN - MAX_EXTENT) <= bounds.top_left.y <= MAX_ORIGIN - MAX_EXTENT,
            forall|u: &mut Ui<'a, COL>| Self::sub_ui_of(*u, *old(self), Self::padded(bounds, old(self).style_spec()),
                Placer::spec_new(Self::padded(bounds, old(self).style_spec()).size))
                ==> #[trigger] call_requires(f, (u,)),
            forall|u: &mut Ui<'a, COL>, r: GuiResult<()>| #[trigger] call_ensures(f, (u,), r) ==> final(u).wf(),
        ensures
            final(self).wf(),
            final(self).placer() == old(self).placer(),
            final(self).unchanged_frame(*old(self)),
            final(self).interaction() == old(self).interaction(),
            final(self).is_cleared() == old(self).is_cleared(),
            final(self).popup_showing() == old(self).popup_showing(),
            !final(self).framebuf_active(),
            exists|u: &mut Ui<'a, COL>, res: GuiResult<()>| {
                &&& Self::sub_ui_of(*u, *old(self), Self::padded(bounds, old(self).style_spec()),
                    Placer::spec_new(Self::padded(bounds, old(self).style_spec()).size))
                &&& #[trigger] call_ensures(f, (u,), res)
                &&& r == res
            },
    {
        let pad = self.style.spacing.window_border_padding;
        let top_left = Point::new(bounds.top_left.x + pad.height as i32, bounds.top_left.y + pad.width as i32);
        let size = bounds.size.saturating_sub(Size::new(pad.width * 2, pad.height * 2));
        let inner = Rectangle::new(top_left, size);
        let placer = Placer::new(size, true, Align(HorizontalAlign::Left, VerticalAlign::Top));
        let (_, res) = self.run_sub_ui(inner, placer, f);
        res
    }

    /// `bounds` shrunk by the window border padding of `style`, as [`Ui::new`] does.
    pub open spec fn padded(bounds: Rectangle, style: Style<COL>) -> Rectangle {
        let pad = style.spacing.window_border_padding;
        Rectangle {
            top_left: Point {
                x: (bounds.top_left.x + pad.height) as i32,
                y: (bounds.top_left.y + pad.width) as i32,
            },
            size: Size {
                width: (if bounds.size.width >= 2 * pad.width { bounds.size.width - 2 * pad.width } else { 0 }) as u32,
                height: (if bounds.size.height >= 2 * pad.height { bounds.size.height - 2 * pad.height } else { 0 }) as u32,
            },
        }
    }

    /// The area of a right side panel of (at most) `width` pixels, and the placer width that
    /// remains left of it.
    pub open spec fn right_panel(p: Placer, width: u32) -> (Rectangle, u32) {
        let max_width = p.bounds.width - p.pos.x;
        let w = if width <= max_width { width as int } else { max_width };
        (
            Rectangle {
                top_left: Point { x: (p.bounds.width - w) as i32, y: p.pos.y },
                size: Size { width: w as u32, height: (p.bounds.height - p.pos.y) as u32 },
            },
            (p.bounds.width - w) as u32,
        )
    }

    /// Creates a right side panel sub-[Ui] of the given width, from the current row down.
    ///
    /// When `width` is more than what is left of the row, the panel takes what is left if
    /// `allow_smaller` is set, and the call fails with [`GuiError::BoundsError`] otherwise. The
    /// panel's width is taken off this UI's placer.
    pub fn right_panel_ui<F>(&mut self, width: u32, allow_smaller: bool, f: F) -> (r: GuiResult<()>)
        where F: FnOnce(&mut Ui<'a, COL>) -> GuiResult<()>,
        requires
            old(self).wf(),
            !old(self).framebuf_active(),
            old(self).placer().pos.x <= old(self).placer().bounds.width,
            old(self).placer().pos.y <= old(self).placer().bounds.height,
            forall|u: &mut Ui<'a, COL>| #[trigger] call_requires(f, (u,)),
            forall|u: &mut Ui<'a, COL>, r: GuiResult<()>| #[trigger] call_ensures(f, (u,), r) ==> final(u).wf(),
        ensures
            final(self).wf(),
            final(self).unchanged_frame(*old(self)),
            final(self).interaction() == old(self).interaction(),
            width > old(self).placer().bounds.width - old(self).placer().pos.x && !allow_smaller ==> {
                &&& r == Err::<(), GuiError>(GuiError::BoundsError)
                &&& final(self).placer() == old(self).placer()
            },
            !(width > old(self).placer().bounds.width - old(self).placer().pos.x && !allow_smaller) ==> {
                &&& final(self).placer() == (Placer {
                    bounds: Size { width: Self::right_panel(old(self).placer(), width).1, ..old(self).placer().bounds },
                    ..old(self).placer()
                })
                &&& exists|u: &mut Ui<'a, COL>, res: GuiResult<()>| {
                    &&& Self::sub_ui_of(*u, *old(self), Self::padded(Self::right_panel(old(self).placer(), width).0, old(self).style_spec()),
                        Placer::spec_new(Self::padded(Self::right_panel(old(self).placer(), width).0, old(self).style_spec()).size))
                    &&& #[trigger] call_ensures(f, (u,), res)
                    &&& r == res
                }
            },
    {
        let bounds = self.placer.bounds;
        let y = self.placer.pos.y as u32;
        let max_width = bounds.width - self.placer.pos.x as u32;
        let max_height = bounds.height - y;
        if width > max_width && !allow_smaller {
            return Err(GuiError::BoundsError);
        }
        let w = if width <= max_width { width } else { max_width };
        self.placer.bounds.width = self.placer.bounds.width - w;
        let area = Rectangle::new(Point::new((bounds.width - w) as i32, y as i32), Size::new(bounds.width - (bounds.width - w), max_height));
        self.unchecked_sub_ui(area, f)
    }

    /// Creates a sub-[Ui] panel of the given size, centered in the placer's bounds; the panel's
    /// width and height are taken off this UI's placer. A panel larger than the bounds fails
    /// with [`GuiError::BoundsError`].
    pub fn central_centered_panel_ui<F>(&mut self, width: u32, height: u32, f: F) -> (r: GuiResult<()>)
        where F: FnOnce(&mut Ui<'a, COL>) -> GuiResult<()>,
        requires
            old(self).wf(),
            !old(self).framebuf_active(),
            forall|u: &mut Ui<'a, COL>| #[trigger] call_requires(f, (u,)),
            forall|u: &mut Ui<'a, COL>, r: GuiResult<()>| #[trigger] call_ensures(f, (u,), r) ==> final(u).wf(),
        ensures
            final(self).wf(),
            final(self).unchanged_frame(*old(self)),
            final(self).interaction() == old(self).interaction(),
            (width > old(self).placer().bounds.width || height > old(self).placer().bounds.height) ==> {
                &&& r == Err::<(), GuiError>(GuiError::BoundsError)
                &&& final(self).placer() == old(self).placer()
            },
            !(width > old(self).placer().bounds.width || height > old(self).placer().bounds.height) ==> {
                let b = old(self).placer().bounds;
                let area = Rectangle {
                    top_left: Point { x: ((b.width - width) / 2) as i32, y: ((b.height - height) / 2) as i32 },
                    size: Size { width, height },
                };
                &&& final(self).placer() == (Placer {
                    bounds: Size { width: (b.width - width) as u32, height: (b.height - height) as u32 },
                    ..old(self).placer()
                })
                &&& exists|u: &mut Ui<'a, COL>, res: GuiResult<()>| {
                    &&& Self::sub_ui_of(*u, *old(self), Self::padded(area, old(self).style_spec()),
                        Placer::spec_new(Self::padded(area, old(self).style_spec()).size))
                    &&& #[trigger] call_ensures(f, (u,), res)
                    &&& r == res
                }
            },
    {
        let bounds = self.placer.bounds;
        if width > bounds.width {
            return Err(GuiError::BoundsError);
        }
        if height > bounds.height {
            return Err(GuiError::BoundsError);
        }
        self.placer.bounds.width = self.placer.bounds.width - width;
        self.placer.bounds.height = self.placer.bounds.height - height;
        let area = Rectangle::new(
            Point::new(((bounds.width - width) / 2) as i32, ((bounds.height - height) / 2) as i32),
            Size::new(width, height),
        );
        self.unchecked_sub_ui(area, f)
    }
}


impl<'a, COL: Copy> Ui<'a, COL> {
    /// The state of the popup layer, if one was begun this frame.
    pub closed spec fn popup_state(&self) -> Option<PopupState> {
        match self.popup {
            Some(p) => Some(*p.state),
            None => None,
        }
    }

    /// The number of pixels of the popup buffer (none without a popup layer).
    pub closed spec fn popup_buffer_len(&self) -> nat {
        match self.popup {
            Some(p) => p.buffer_len as nat,
            None => 0,
        }
    }

    /// This UI with its placer replaced by `p`.
    pub closed spec fn with_placer(self, p: Placer) -> Self {
        Ui { placer: p, ..self }
    }

    /// A popup layer was begun exactly when the UI has a popup state.
    pub proof fn lemma_popup_layer(&self)
        ensures
            self.has_popup_layer() == self.popup_state() is Some,
    {
    }

    /// The interaction that the popup layer receives.
    pub closed spec fn popup_interaction(&self) -> Interaction {
        match self.popup {
            Some(p) => p.interact,
            None => Interaction::Idle,
        }
    }

    /// Begins the popup layer of this frame, with a popup buffer of `buffer_len` pixels.
    ///
    /// A popup that was handled (closed) in the previous frame is hidden again and the
    /// background is cleared, to wipe it off the screen.
    pub fn begin_popup(&mut self, state: &'a mut PopupState, buffer_len: usize)
        requires
            old(self).wf(),
            buffer_len <= MAX_EXTENT,
        ensures
            final(self).wf(),
            final(self).placer() == old(self).placer(),
            final(self).unchanged_frame(*old(self)),
            final(self).interaction() == old(self).interaction(),
            final(self).popup_state() matches Some(ps) && (if old(state).handled() {
                ps.hidden()
            } else {
                ps == *old(state)
            }),
            final(self).popup_interaction() == Interaction::Idle,
            old(state).handled() ==> final(self).is_cleared(),
            !old(state).handled() ==> final(self).is_cleared() == old(self).is_cleared()
                && final(self).commands() == old(self).commands(),
    {
        if state.stage == PopupStage::Handled {
            state.stage = PopupStage::Hide;
            let _ = self.clear_background();
        }
        self.popup = Some(Popup { state, buffer_len, interact: Interaction::Idle });
    }

    /// Ends the popup layer: a click outside a shown popup closes it; a popup that is shown
    /// is drawn onto the display (moved down by its offset); and `popup_handled` is called when
    /// the popup was closed.
    pub fn end_popup<F>(&mut self, popup_handled: F)
        where F: FnOnce(),
        requires
            old(self).wf(),
            call_requires(popup_handled, ()),
        ensures
            final(self).wf(),
            final(self).placer() == old(self).placer(),
            final(self).unchanged_frame(*old(self)),
            final(self).interaction() == old(self).interaction(),
            final(self).is_cleared() == old(self).is_cleared(),
            final(self).framebuf_active() == old(self).framebuf_active(),
            final(self).has_popup_layer() == old(self).has_popup_layer(),
            !(old(self).popup_state() matches Some(ps) && ps.drawn_bounds() is Some) ==> {
                &&& final(self).popup_state() == old(self).popup_state()
                &&& final(self).popup_interaction() == old(self).popup_interaction()
                &&& final(self).commands() == old(self).commands()
            },
            old(self).popup_state() matches Some(ps) ==> (ps.drawn_bounds() matches Some(b) ==> {
                let closes = old(self).popup_interaction() matches Interaction::Click(pt) && !spec_contains(b, pt);
                let y = b.top_left.y + ps.offset();
                &&& (closes || ps.handled()) ==> call_ensures(popup_handled, (), ())
                &&& final(self).popup_state() == Some(if closes { ps.closed() } else { ps })
                &&& final(self).popup_interaction() == Interaction::Idle
                &&& final(self).commands() == if !closes && ps.showing() && b.size.width * b.size.height
                    <= old(self).popup_buffer_len() && i32::MIN <= y <= i32::MAX {
                    old(self).commands().push(
                        DrawCommand::Popup { area: Rectangle { top_left: Point { x: b.top_left.x, y: y as i32 }, size: b.size } },
                    )
                } else {
                    old(self).commands()
                }
            }),
    {
        let buffer_len: usize;
        let bounds: Rectangle;
        let offset_y: i32;
        let stage: PopupStage;
        match self.popup.as_mut() {
            None => {
                return ;
            },
            Some(popup) => {
                match popup.state.bounds {
                    None => {
                        return ;
                    },
                    Some(b) => {
                        bounds = b;
                    },
                }
                if let Interaction::Click(pt) = popup.interact {
                    if !bounds.contains(pt) {
                        popup.state.stage = PopupStage::Handled;
                    }
                }
                popup.interact = Interaction::Idle;
                buffer_len = popup.buffer_len;
                offset_y = popup.state.offset_y;
                stage = popup.state.stage;
            },
        }
        if stage == PopupStage::Show {
            let w: u64 = bounds.size.width as u64;
            let h: u64 = bounds.size.height as u64;
            assert(w * h <= 0xffff_ffffu64 * 0xffff_ffffu64) by (nonlinear_arith)
                requires
                    w <= 0xffff_ffffu64,
                    h <= 0xffff_ffffu64,
            ;
            if w * h <= buffer_len as u64 {
                let y: i64 = bounds.top_left.y as i64 + offset_y as i64;
                if i32::MIN as i64 <= y && y <= i32::MAX as i64 {
                    let area = Rectangle::new(Point::new(bounds.top_left.x, y as i32), bounds.size);
                    self.commands.push(DrawCommand::Popup { area });
                }
            }
        }
        if stage == PopupStage::Handled {
            popup_handled();
        }
    }

    /// Checks whether the popup layer is shown for the widget about to be placed (the one at
    /// the placer's row and column). If so, the UI's interaction goes to the popup instead
    /// (with its point moved up by the popup's offset) and `true` is returned.
    pub fn popup_check(&mut self) -> (r: bool)
        requires
            old(self).wf(),
        ensures
            final(self).wf(),
            final(self).placer() == old(self).placer(),
            final(self).unchanged_frame(*old(self)),
            final(self).commands() == old(self).commands(),
            final(self).framebuf_active() == old(self).framebuf_active(),
            final(self).has_popup_layer() == old(self).has_popup_layer(),
            r ==> old(self).has_popup_layer(),
            r == (old(self).popup_state() matches Some(ps) && ps.showing()
                && ps.opened_at() == (old(self).placer().col, old(self).placer().row)),
            r && old(self).interaction().point() is Some ==> final(self).interaction() == Interaction::Idle,
            !r ==> final(self).interaction() == old(self).interaction(),
            old(self).interaction().point() is None ==> final(self).interaction() == old(self).interaction(),
            final(self).popup_state() == old(self).popup_state(),
            final(self).popup_buffer_len() == old(self).popup_buffer_len(),
            r ==> final(self).popup_interaction() == shifted_for_popup(
                old(self).interaction(),
                old(self).popup_state()->Some_0.offset(),
            ),
            !r ==> final(self).popup_interaction() == old(self).popup_interaction(),
    {
        let col = self.placer.col;
        let row = self.placer.row;
        let interact = self.interact;
        let mut taken = false;
        let res = match self.popup.as_mut() {
            None => false,
            Some(popup) => {
                if popup.state.stage == PopupStage::Show && popup.state.col == col && popup.state.row == row {
                    popup.interact = match interact.get_point() {
                        Some(pt) => {
                            taken = true;
                            let y: i64 = pt.y as i64 - popup.state.offset_y as i64;
                            let y: i32 = if y < i32::MIN as i64 { i32::MIN } else if y > i32::MAX as i64 { i32::MAX } else { y as i32 };
                            let moved = Point::new(pt.x, y);
                            match interact {
                                Interaction::Click(_) => Interaction::Click(moved),
                                Interaction::Drag(_) => Interaction::Drag(moved),
                                Interaction::Release(_) => Interaction::Release(moved),
                                Interaction::Hover(_) => Interaction::Hover(moved),
                                Interaction::Idle => Interaction::Idle,
                            }
                        },
                        None => Interaction::Idle,
                    };
                    true
                } else {
                    false
                }
            },
        };
        if taken {
            self.interact = Interaction::Idle;
        }
        res
    }

    /// Draws the popup layer's contents: `popup_contents` fills a UI of the popup's width (and
    /// of the height that the popup buffer allows), at `top_left`, and says whether the popup
    /// should close. The popup's height becomes what its contents used; when it would reach
    /// below the screen it is moved up by the difference.
    ///
    /// Returns `Ok(true)` when the popup closes. A zero `width`, or no popup layer begun, is an
    /// error.
    pub fn popup_draw<F>(&mut self, top_left: Point, width: u16, popup_contents: F) -> (r: GuiResult<bool>)
        where F: FnOnce(&mut Ui<'a, COL>) -> bool,
        requires
            old(self).wf(),
            !old(self).framebuf_active(),
            -(MAX_ORIGIN - MAX_EXTENT) <= top_left.x <= MAX_ORIGIN - MAX_EXTENT,
            -(MAX_ORIGIN - MAX_EXTENT) <= top_left.y <= MAX_ORIGIN - MAX_EXTENT,
            forall|u: &mut Ui<'a, COL>| u.wf() ==> #[trigger] call_requires(popup_contents, (u,)),
            forall|u: &mut Ui<'a, COL>, b: bool| #[trigger] call_ensures(popup_contents, (u,), b) ==> final(u).wf(),
        ensures
            final(self).wf(),
            final(self).placer() == old(self).placer(),
            final(self).unchanged_frame(*old(self)),
            final(self).interaction() == old(self).interaction(),
            final(self).has_popup_layer() == old(self).has_popup_layer(),
            !final(self).framebuf_active(),
            width == 0 ==> r == Err::<bool, GuiError>(GuiError::DrawError(None)),
            width != 0 && old(self).popup_state() is None ==> r == Err::<bool, GuiError>(GuiError::DrawError(Some("Popup layer not initialized"))),
            width != 0 && old(self).popup_state() is Some ==> r is Ok,
            r matches Ok(closed) ==> (final(self).popup_state() matches Some(ps) && if closed {
                ps.handled()
            } else {
                ps.showing() && ps.opened_at() == (old(self).placer().col, old(self).placer().row)
            }),
            r matches Ok(closed) ==> exists|u: &mut Ui<'a, COL>|
                #[trigger] call_ensures(popup_contents, (u,), closed) && u.style_spec() == old(self).style_spec()
                    && u.bounds() == popup_inner_bounds(top_left, width, old(self).popup_buffer_len(), old(self).style_spec())
                    && u.interaction() == old(self).popup_interaction() && u.placer() == Placer::spec_new(u.bounds().size),
            r matches Ok(closed) ==> (!closed ==> (final(self).popup_state() matches Some(ps) && ps.drawn_bounds() matches Some(
                b,
            ) && b.top_left == top_left && b.size.width == width)),
    {
        let (mut popup_ui, session) = self.open_popup(top_left, width)?;
        let selected = popup_contents(&mut popup_ui);
        self.close_popup(popup_ui, session, selected);
        Ok(selected)
    }

    /// Starts drawing the popup layer's contents (see [`Ui::popup_draw`]): returns the UI that
    /// the contents go into, which holds the frame's drawing commands until
    /// [`Ui::close_popup`].
    pub(crate) fn open_popup(&mut self, top_left: Point, width: u16) -> (r: GuiResult<(Ui<'a, COL>, PopupSession)>)
        requires
            old(self).wf(),
            !old(self).framebuf_active(),
            -(MAX_ORIGIN - MAX_EXTENT) <= top_left.x <= MAX_ORIGIN - MAX_EXTENT,
            -(MAX_ORIGIN - MAX_EXTENT) <= top_left.y <= MAX_ORIGIN - MAX_EXTENT,
        ensures
            final(self).wf(),
            final(self).placer() == old(self).placer(),
            final(self).unchanged_frame(*old(self)),
            final(self).interaction() == old(self).interaction(),
            final(self).has_popup_layer() == old(self).has_popup_layer(),
            !final(self).framebuf_active(),
            r is Err ==> final(self).commands() == old(self).commands(),
            r matches Ok((u, _)) ==> old(self).commands().is_prefix_of(u.commands()),
            r matches Ok((u, _)) ==> {
                &&& u.style_spec() == old(self).style_spec()
                &&& u.bounds() == popup_inner_bounds(top_left, width, old(self).popup_buffer_len(), old(self).style_spec())
                &&& u.interaction() == old(self).popup_interaction()
                &&& !u.popup_showing()
                &&& u.placer() == Placer::spec_new(u.bounds().size)
            },
            width == 0 ==> r == Err::<(Ui<'a, COL>, PopupSession), GuiError>(GuiError::DrawError(None)),
            width != 0 && old(self).popup_state() is None ==> r == Err::<(Ui<'a, COL>, PopupSession), GuiError>(
                GuiError::DrawError(Some("Popup layer not initialized")),
            ),
            width != 0 && old(self).popup_state() is Some ==> (r matches Ok((u, s)) && u.wf() && !u.framebuf_active()
                && u.placer().room(300) && final(self).popup_state() is Some && s.col == old(self).placer().col
                && s.row == old(self).placer().row && s.bounds.size.bounded() && 0 <= s.screen_height
                && s.bounds.top_left == top_left && s.bounds.size.width == width
                && -(MAX_ORIGIN - MAX_EXTENT) <= s.bounds.top_left.y <= MAX_ORIGIN - MAX_EXTENT),
    {
        if width == 0 {
            return Err(GuiError::DrawError(None));
        }
        let screen_height: i32 = self.get_screen_height() as i32;
        let style = self.style;
        let debug_color = self.debug_color;
        let col = self.placer.col;
        let row = self.placer.row;
        let (buffer_len, interact) = match self.popup.as_mut() {
            None => {
                return Err(GuiError::DrawError(Some("Popup layer not initialized")));
            },
            Some(popup) => {
                popup.state.stage = PopupStage::Drawing;
                (popup.buffer_len, popup.interact)
            },
        };
        let w: usize = width as usize;
        let q: usize = buffer_len / w;
        assert(q <= buffer_len) by (nonlinear_arith)
            requires
                w >= 1,
                q == buffer_len / w,
        ;
        let height: u32 = q as u32;
        let bounds = Rectangle::new(top_left, Size::new(width as u32, height));
        self.commands.push(DrawCommand::BeginPopupBuffer { area: bounds });
        let mut popup_ui: Ui<'a, COL> = Ui::new(bounds, style);
        if let Some(c) = debug_color {
            popup_ui.draw_widget_bounds_debug(c);
        }
        popup_ui.interact = interact;
        core::mem::swap(&mut popup_ui.commands, &mut self.commands);
        assert(popup_ui.wf());
        let _ = popup_ui.clear_background();
        Ok((popup_ui, PopupSession { col, row, bounds, screen_height }))
    }

    /// Ends drawing the popup layer's contents (see [`Ui::popup_draw`]): takes the drawing
    /// commands back from `popup_ui`, and records the popup as closed when `selected`, else as
    /// shown, opened where `session` was begun, as tall as its contents.
    pub(crate) fn close_popup(&mut self, popup_ui: Ui<'a, COL>, session: PopupSession, selected: bool)
        requires
            old(self).wf(),
            popup_ui.wf(),
            session.bounds.size.bounded(),
            -(MAX_ORIGIN - MAX_EXTENT) <= session.bounds.top_left.y <= MAX_ORIGIN - MAX_EXTENT,
            0 <= session.screen_height,
        ensures
            final(self).wf(),
            final(self).placer() == old(self).placer(),
            final(self).unchanged_frame(*old(self)),
            final(self).interaction() == old(self).interaction(),
            final(self).has_popup_layer() == old(self).has_popup_layer(),
            final(self).framebuf_active() == old(self).framebuf_active(),
            popup_ui.commands().is_prefix_of(final(self).commands()),
            old(self).popup_state() is Some ==> (final(self).popup_state() matches Some(ps) && if selected {
                ps.handled()
            } else {
                ps.showing() && ps.opened_at() == (session.col, session.row)
            }),
            old(self).popup_state() is Some && !selected ==> (final(self).popup_state() matches Some(ps)
                && ps.drawn_bounds() matches Some(b) && b.top_left == session.bounds.top_left
                && b.size.width == session.bounds.size.width),
    {
        let mut popup_ui = popup_ui;
        core::mem::swap(&mut popup_ui.commands, &mut self.commands);
        self.commands.push(DrawCommand::EndPopupBuffer);
        let mut bounds = session.bounds;
        let screen_height = session.screen_height;
        bounds.size.height = popup_ui.placer.pos.y as u32 + popup_ui.style.spacing.window_border_padding.height;
        let offset_y: i32 = if bounds.top_left.y + bounds.size.height as i32 > screen_height {
            screen_height - bounds.size.height as i32 - bounds.top_left.y
        } else {
            0
        };
        match self.popup.as_mut() {
            None => {},
            Some(popup) => {
                popup.state.offset_y = offset_y;
                if selected {
                    popup.state.stage = PopupStage::Handled;
                } else {
                    popup.state.stage = PopupStage::Show;
                    popup.state.col = session.col;
                    popup.state.row = session.row;
                    popup.state.bounds = Some(bounds);
                }
            },
        }
    }
}

/// Where a popup's contents are being drawn: the column and row of the widget that opened it,
/// its bounds, and the height of the screen.
pub(crate) struct PopupSession {
    pub(crate) col: u32,
    pub(crate) row: u32,
    pub(crate) bounds: Rectangle,
    pub(crate) screen_height: i32,
}

} // verus!
