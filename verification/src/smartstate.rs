//! Smartstates: small per-widget records that let a widget skip redrawing itself when
//! nothing about its look has changed since the previous frame.

use core::hash::BuildHasher;
use core::hash::Hash;
use core::ops::RangeInclusive;
use foldhash::fast::FixedState;
use vstd::prelude::*;
use vstd::std_specs::cmp::PartialEqSpec;

verus! {

/// A container for an optional mutable reference to a value.
///
/// This container is primarily used with [`Smartstate`] to manage widget state and redraw
/// behaviour. Its model is the value behind the reference ([`Container::inner`]) and, for
/// reasoning about what the borrowed place holds afterwards, the reference itself
/// ([`Container::target`]).
#[derive(Debug)]
pub struct Container<'a, T> {
    pub optional_something: Option<&'a mut T>,
}

impl<'a, T> Container<'a, T> {
    /// The value behind the contained reference, if there is one.
    pub open spec fn inner(&self) -> Option<T> {
        match self.target() {
            Some(r) => Some(*r),
            None => None,
        }
    }

    /// The contained reference itself.
    pub open spec fn target(&self) -> Option<&'a mut T> {
        self.optional_something
    }

    /// Creates an empty container with no inner value.
    pub fn empty() -> (c: Self)
        ensures
            c.inner() is None,
            c.target() is None,
    {
        Self { optional_something: None }
    }

    /// Creates a new container with the given mutable reference.
    pub fn new(inner: &'a mut T) -> (c: Self)
        ensures
            c.inner() == Some(*old(inner)),
            c.target() matches Some(r) && *final(r) == *final(inner),
    {
        Self { optional_something: Some(inner) }
    }

    /// Sets the container's inner value to the provided mutable reference.
    pub fn set(&mut self, val: &'a mut T)
        ensures
            final(self).inner() == Some(*old(val)),
            final(self).target() matches Some(r) && *final(r) == *final(val),
    {
        self.optional_something = Some(val);
    }

    /// Applies a modification function to the contained value if it exists.
    ///
    /// With no value inside, nothing happens and `modify` is not called. Otherwise `modify`
    /// runs once on the contained value, and the borrowed place ends up with what `modify`
    /// left there.
    pub fn modify(&mut self, modify: impl FnOnce(&mut T))
        requires
            forall|r: &mut T| #[trigger] call_requires(modify, (r,)),
        ensures
            (final(self).inner() is Some) == (old(self).inner() is Some),
            old(self).target() matches Some(r1) ==> (final(self).target() matches Some(r2)
                && *final(r2) == *final(r1)),
            old(self).inner() matches Some(v) ==> exists|r: &mut T|
                *r == v && #[trigger] call_ensures(modify, (r,), ()) && final(self).inner()
                    == Some(*final(r)),
    {
        if let Some(inner) = self.optional_something.as_mut() {
            (modify)(*inner);
        }
    }

    /// Stores `val` in the borrowed place, if there is one (a `modify` that assigns).
    pub(crate) fn put(&mut self, val: T)
        ensures
            old(self).inner() is None ==> final(self).inner() is None,
            old(self).inner() is Some ==> final(self).inner() == Some(val),
            old(self).target() matches Some(r1) ==> (final(self).target() matches Some(r2)
                && *final(r2) == *final(r1)),
    {
        if let Some(inner) = self.optional_something.as_mut() {
            **inner = val;
        }
    }
}

impl<T: Clone> Container<'_, T> {
    /// Returns a clone of the contained value if it exists.
    ///
    /// Commonly used to get the previous state before updating.
    pub fn clone_inner(&self) -> (r: Option<T>)
        ensures
            self.inner() is None ==> r is None,
            self.inner() matches Some(v) ==> (r matches Some(c) && cloned(v, c)),
    {
        match self.optional_something.as_ref() {
            Some(inner) => {
                let v: &T = &**inner;
                Some(v.clone())
            },
            None => None,
        }
    }
}

impl<T: PartialEq> Container<'_, T> {
    /// Compares the contained value with another value if it exists.
    ///
    /// An empty container compares unequal to everything.
    pub fn eq_inner(&self, other: &T) -> (r: bool)
        ensures
            self.inner() is None ==> !r,
            T::obeys_eq_spec() ==> r == (self.inner() matches Some(v) && v.eq_spec(other)),
    {
        if let Some(inner) = self.optional_something.as_ref() {
            let v: &T = &**inner;
            v.eq(other)
        } else {
            false
        }
    }

    /// Compare the inner value of this container with an option.
    /// Hereby, all comparisons with None have `false` as the result. Comparisons work like this:
    ///
    /// | self | other | result               |
    /// |------|-------|----------------------|
    /// | Some | Some  | compare inner values |
    /// | Some | None  | false                |
    /// | None | Some  | false                |
    /// | None | None  | false                |
    ///
    pub fn eq_option(&self, other: &Option<T>) -> (r: bool)
        ensures
            (self.inner() is None || other is None) ==> !r,
            T::obeys_eq_spec() ==> r == (self.inner() matches Some(v) && other matches Some(o)
                && v.eq_spec(&o)),
    {
        match (self.optional_something.as_ref(), other) {
            (Some(inner), Some(other)) => {
                let v: &T = &**inner;
                v.eq(other)
            },
            _ => false,
        }
    }
}

/// Whether a widget whose smartstate went from `prev` to `now` must be redrawn: unless both are
/// there and equal (`==` of smartstates, so both valid with the same id).
pub open spec fn needs_redraw(prev: Option<Smartstate>, now: Option<Smartstate>) -> bool {
    !(prev matches Some(p) && now matches Some(n) && n@.0 == p@.0 && n@.1 && p@.1)
}

/// The smartstate that a container holds after a widget sets its state to `id` (if any).
pub open spec fn after_set(prev: Option<Smartstate>, id: Option<u32>) -> Option<Smartstate> {
    match (prev, id) {
        (Some(_), Some(i)) => Some(Smartstate::spec_state(i)),
        _ => prev,
    }
}

/// Sets the widget's smartstate to `id` (when given) and says whether the widget must be
/// redrawn: when the state changed (or is not valid).
pub(crate) fn update_smartstate(c: &mut Container<'_, Smartstate>, id: Option<u32>) -> (redraw: bool)
    ensures
        final(c).inner() == after_set(old(c).inner(), id),
        redraw == needs_redraw(old(c).inner(), final(c).inner()),
        old(c).target() matches Some(r1) ==> (final(c).target() matches Some(r2) && *final(r2) == *final(r1)),
{
    let prev = c.clone_inner();
    if let Some(i) = id {
        c.put(Smartstate::state(i));
    }
    !c.eq_option(&prev)
}

/// Incremental redrawing: a widget with a smartstate that is set to the same state id on two
/// frames in a row is redrawn on the second frame only if something else asks for it; setting a
/// different id redraws it.
pub proof fn law_redraw_only_on_change(prev: Smartstate, first: u32, second: u32)
    ensures
        ({
            let now = after_set(Some(prev), Some(first));
            &&& !needs_redraw(now, after_set(now, Some(first)))
            &&& first != second ==> needs_redraw(now, after_set(now, Some(second)))
        }),
{
}

/// A widget without a smartstate is redrawn on every frame.
pub proof fn law_no_smartstate_always_redraws(id: Option<u32>)
    ensures
        needs_redraw(None, after_set(None, id)),
{
}

/// A smartstate that was invalidated (by [`Smartstate::force_redraw`] or a provider's
/// `force_redraw_*`) makes its widget redraw, whatever state id the widget sets.
pub proof fn law_invalidated_redraws(s: Smartstate, id: u32)
    ensures
        needs_redraw(Some(s.invalidated()), after_set(Some(s.invalidated()), Some(id))),
{
}

/// Smartstates are equal exactly when both are valid and have the same id: two states made
/// by [`Smartstate::state`] are equal exactly when their ids are, and an invalid state equals
/// nothing, not even itself.
pub proof fn law_smartstate_equality(a: Smartstate, b: Smartstate, x: u32, y: u32)
    ensures
        Smartstate::spec_state(x).eq_spec(&Smartstate::spec_state(y)) == (x == y),
        !a@.1 ==> !a.eq_spec(&b) && !b.eq_spec(&a),
        a.eq_spec(&b) == b.eq_spec(&a),
{
}

/// Forcing a redraw from position `k` (as [`SmartstateProvider::force_redraw_from`] does)
/// invalidates exactly the smartstates from `k` to the end, keeping their ids, and keeps those
/// before `k`; from position 0 every smartstate is invalidated, as by
/// [`SmartstateProvider::force_redraw_all`].
pub proof fn law_force_redraw_from<const N: usize>(p: SmartstateProvider<N>, k: int)
    requires
        p.wf(),
        0 <= k,
    ensures
        invalidated_range(p.states(), k, N as int).len() == N,
        forall|i: int| 0 <= i < k && i < N ==> #[trigger] invalidated_range(p.states(), k, N as int)[i] == p.states()[i],
        forall|i: int| k <= i < N ==> (#[trigger] invalidated_range(p.states(), k, N as int)[i])@ == (p.states()[i]@.0, false),
        k == 0 ==> forall|i: int| 0 <= i < N ==> !(#[trigger] invalidated_range(p.states(), k, N as int)[i])@.1,
{
    assert forall|i: int| k <= i < N implies (#[trigger] invalidated_range(p.states(), k, N as int)[i])@ == (p.states()[i]@.0, false) by {
        p.states()[i].lemma_invalidated();
    }
}

/// Per-hasher seed of the hasher that [`Smartstate::set_state_hashed`] uses.
const HASH_SEED: u64 = 0x3094572067945102;

/// Hashes `to_hash` with foldhash's fast `FoldHasher`, built by `FixedState::with_seed(HASH_SEED)`
/// through `BuildHasher::hash_one`.
///
/// No value is promised: foldhash reads its input in native byte order and chooses its
/// multiplication by target, so the hash of one value is the same from call to call on one
/// machine, but not across machines.
#[verifier::external_body]
fn fixed_seed_hash<T: Hash + ?Sized>(to_hash: &T) -> u64 {
    FixedState::with_seed(HASH_SEED).hash_one(to_hash)
}

/// Smartstates are used to dynamically redraw widgets. By doing so, there's no need to redraw
/// widgets that haven't changed.
///
/// A smartstate is a state id together with a validity flag. Two smartstates are equal
/// (`==`) exactly when both are valid and carry the same id; an invalid ("empty") smartstate is
/// equal to nothing, not even to itself, which is what forces a redraw.
///
/// Smartstate only works if the **background is not cleared** after each iteration.
/// If you want to clear the background anyways, you can use [`Smartstate::force_redraw`] to
/// guarantee that all smartstate widgets are redrawn.
#[derive(Clone, Copy, Debug)]
pub struct Smartstate(u32, bool);

impl View for Smartstate {
    /// The state id and whether the state is valid.
    type V = (u32, bool);

    closed spec fn view(&self) -> (u32, bool) {
        (self.0, self.1)
    }
}

/// The model of the valid smartstate with a given id.
pub broadcast proof fn lemma_spec_state(id: u32)
    ensures
        (#[trigger] Smartstate::spec_state(id))@ == (id, true),
{
}

impl Smartstate {
    /// Creates an empty state that will trigger a redraw.
    pub fn empty() -> (s: Self)
        ensures
            s@ == (0u32, false),
    {
        Self(0, false)
    }

    /// The valid smartstate with the given id.
    pub closed spec fn spec_state(id: u32) -> Smartstate {
        Smartstate(id, true)
    }

    /// Creates a new state with the given state ID.
    pub fn state(state: u32) -> (s: Self)
        ensures
            s@ == (state, true),
            s == Smartstate::spec_state(state),
    {
        Self(state, true)
    }

    /// Sets the current state ID and marks it as valid.
    pub fn set_state(&mut self, state: u32)
        ensures
            final(self)@ == (state, true),
            *final(self) == Smartstate::spec_state(state),
    {
        self.0 = state;
        self.1 = true;
    }

    /// Sets the current state ID based on a hash of the provided value.
    ///
    /// The state becomes valid; its id is the low 32 bits of the fixed-seed foldhash of
    /// `to_hash`.
    pub fn set_state_hashed<T: Hash + ?Sized>(&mut self, to_hash: &T)
        ensures
            final(self)@.1,
    {
        let h: u64 = fixed_seed_hash(to_hash);
        self.0 = h as u32;
        self.1 = true;
    }

    /// Returns true if this is an empty/invalid state.
    pub fn is_empty(&self) -> (r: bool)
        ensures
            r == !self@.1,
    {
        !self.1
    }

    /// Returns true if this matches the given state ID and is valid.
    pub fn is_state(&self, state: u32) -> (r: bool)
        ensures
            r == (self@.1 && self@.0 == state),
    {
        self.1 && self.0 == state
    }

    /// Returns true if this matches the given state ID and is valid, using a hash: whether
    /// [`Smartstate::is_state`] holds of the low 32 bits of the fixed-seed foldhash of
    /// `to_hash`.
    ///
    /// An invalid state matches nothing; the hash that a valid one is compared with is not
    /// stated, as foldhash's value differs from machine to machine.
    pub fn is_state_hashed<T: Hash + ?Sized>(&self, to_hash: &T) -> (r: bool)
        ensures
            !self@.1 ==> !r,
    {
        if !self.1 {
            return false;
        }
        let h: u64 = fixed_seed_hash(to_hash);
        self.is_state(h as u32)
    }

    /// Forces a redraw by invalidating the current state.
    ///
    /// The state id is kept; only the validity flag is cleared.
    pub fn force_redraw(&mut self)
        ensures
            final(self)@ == (old(self)@.0, false),
    {
        self.1 = false;
    }
}

impl PartialEq for Smartstate {
    fn eq(&self, other: &Self) -> (r: bool) {
        self.0 == other.0 && self.1 && other.1
    }
}

impl vstd::std_specs::cmp::PartialEqSpecImpl for Smartstate {
    open spec fn obeys_eq_spec() -> bool {
        true
    }

    open spec fn eq_spec(&self, other: &Smartstate) -> bool {
        self@.0 == other@.0 && self@.1 && other@.1
    }
}

/// Manages a collection of smartstates for multiple widgets.
///
/// The provider holds `N` smartstates and a position counter. Widgets request smartstates
/// sequentially using methods like [`nxt()`](SmartstateProvider::nxt); the counter is reset at the
/// start of each frame with [`restart_counter()`](SmartstateProvider::restart_counter).
///
/// Its model is the sequence of its `N` smartstates ([`SmartstateProvider::states`]) and the
/// position ([`SmartstateProvider::pos`]). The position may run past `N` (through `skip`); the
/// methods that read at it then require it to be in range.
pub struct SmartstateProvider<const N: usize> {
    states: Vec<Smartstate>,
    pos: usize,
}

/// The smartstates of `s` with every one at an index in `[from, to)` invalidated.
pub open spec fn invalidated_range(s: Seq<Smartstate>, from: int, to: int) -> Seq<Smartstate> {
    Seq::new(
        s.len(),
        |i: int|
            if from <= i < to {
                s[i].invalidated()
            } else {
                s[i]
            },
    )
}

impl Smartstate {
    /// This smartstate with its validity flag cleared.
    pub closed spec fn invalidated(self) -> Smartstate {
        Smartstate(self.0, false)
    }

    /// The model of an invalidated smartstate.
    pub proof fn lemma_invalidated(self)
        ensures
            self.invalidated()@ == (self@.0, false),
    {
    }
}

/// Calls `RangeInclusive::start`.
#[verifier::external_body]
pub(crate) fn inclusive_start<T>(r: &RangeInclusive<T>) -> (s: &T)
    ensures
        *s == r@.start,
{
    r.start()
}

/// Calls `RangeInclusive::end`.
#[verifier::external_body]
pub(crate) fn inclusive_end<T>(r: &RangeInclusive<T>) -> (e: &T)
    ensures
        *e == r@.end,
{
    r.end()
}

/// Calls `RangeInclusive::is_empty` on a range of `usize` or `i32`: a range is empty when it
/// has been run through or when its start lies above its end.
#[verifier::external_body]
fn inclusive_is_empty<T: PartialOrd + Integer>(r: &RangeInclusive<T>) -> (b: bool)
    ensures
        b == (r@.exhausted || r@.start as int > r@.end as int),
{
    r.is_empty()
}

impl<const N: usize> SmartstateProvider<N> {
    /// The smartstates, in order.
    pub closed spec fn states(&self) -> Seq<Smartstate> {
        self.states@
    }

    /// The position counter.
    pub closed spec fn pos(&self) -> usize {
        self.pos
    }

    /// The provider holds exactly `N` smartstates.
    pub open spec fn wf(&self) -> bool {
        self.states().len() == N
    }

    /// Creates a new provider with N empty smartstates.
    pub fn new() -> (p: Self)
        ensures
            p.wf(),
            p.pos() == 0,
            p.states().len() == N,
            forall|i: int| 0 <= i < N ==> (#[trigger] p.states()[i])@ == (0u32, false),
    {
        let mut states: Vec<Smartstate> = Vec::new();
        let mut i: usize = 0;
        while i < N
            invariant
                i <= N,
                states@ == Seq::new(i as nat, |j: int| Smartstate(0, false)),
            decreases N - i,
        {
            states.push(Smartstate::empty());
            i = i + 1;
        }
        Self { states, pos: 0 }
    }

    /// Resets the position counter to 0.
    /// Should be called at the start of each frame.
    pub fn restart_counter(&mut self)
        ensures
            final(self).pos() == 0,
            final(self).states() == old(self).states(),
            final(self).wf() == old(self).wf(),
    {
        self.pos = 0;
    }

    /// Returns the total number of smartstates (N).
    pub fn size(&self) -> (n: usize)
        ensures
            n == N,
    {
        N
    }

    /// Returns the current position in the smartstate array.
    pub fn get_pos(&self) -> (p: usize)
        ensures
            p == self.pos(),
    {
        self.pos
    }

    /// Hands out the smartstate at `index`; what the caller writes through it lands there.
    fn state_at(&mut self, index: usize) -> (s: &mut Smartstate)
        requires
            old(self).wf(),
            index < N,
        ensures
            final(self).wf(),
            final(self).pos() == old(self).pos(),
            *s == old(self).states()[index as int],
            final(self).states() == old(self).states().update(index as int, *final(s)),
    {
        &mut self.states[index]
    }

    /// Get a smartstate based on a relative position to the current position, without
    /// changing the counter.
    ///
    /// (e.g. get_relative(0) is equivalent to peek(), or get_relative(-2) is equivalent to prev())
    pub fn get_relative(&mut self, pos: i32) -> (s: &mut Smartstate)
        requires
            old(self).wf(),
            old(self).pos() <= i32::MAX,
            0 <= old(self).pos() + pos < N,
            old(self).pos() + pos <= i32::MAX,
        ensures
            final(self).wf(),
            final(self).pos() == old(self).pos(),
            *s == old(self).states()[old(self).pos() + pos],
            final(self).states() == old(self).states().update(old(self).pos() + pos, *final(s)),
    {
        let index: i32 = self.pos as i32 + pos;
        self.state_at(index as usize)
    }

    /// Gets the next smartstate and advances the position counter.
    ///
    /// The current position must be below `N`.
    pub fn nxt(&mut self) -> (s: &mut Smartstate)
        requires
            old(self).wf(),
            old(self).pos() < N,
        ensures
            final(self).wf(),
            final(self).pos() == old(self).pos() + 1,
            *s == old(self).states()[old(self).pos() as int],
            final(self).states() == old(self).states().update(old(self).pos() as int, *final(s)),
    {
        let p = self.pos;
        self.pos = p + 1;
        self.state_at(p)
    }

    /// Gets the current smartstate (at pos-1).
    ///
    /// Requires at least one [`nxt()`](SmartstateProvider::nxt) before.
    pub fn current(&mut self) -> (s: &mut Smartstate)
        requires
            old(self).wf(),
            1 <= old(self).pos() <= N,
        ensures
            final(self).wf(),
            final(self).pos() == old(self).pos(),
            *s == old(self).states()[old(self).pos() - 1],
            final(self).states() == old(self).states().update(old(self).pos() - 1, *final(s)),
    {
        let p = self.pos - 1;
        self.state_at(p)
    }

    /// Gets the previous smartstate (at pos-2).
    ///
    /// Requires at least two [`nxt()`](SmartstateProvider::nxt) calls before.
    pub fn prev(&mut self) -> (s: &mut Smartstate)
        requires
            old(self).wf(),
            2 <= old(self).pos() <= N + 1,
        ensures
            final(self).wf(),
            final(self).pos() == old(self).pos(),
            *s == old(self).states()[old(self).pos() - 2],
            final(self).states() == old(self).states().update(old(self).pos() - 2, *final(s)),
    {
        let p = self.pos - 2;
        self.state_at(p)
    }

    /// Peeks at the next smartstate without advancing the counter.
    pub fn peek(&mut self) -> (s: &mut Smartstate)
        requires
            old(self).wf(),
            old(self).pos() < N,
        ensures
            final(self).wf(),
            final(self).pos() == old(self).pos(),
            *s == old(self).states()[old(self).pos() as int],
            final(self).states() == old(self).states().update(old(self).pos() as int, *final(s)),
    {
        let p = self.pos;
        self.state_at(p)
    }

    /// Advances the position counter by 1.
    pub fn skip_one(&mut self)
        requires
            old(self).pos() < usize::MAX,
        ensures
            final(self).pos() == old(self).pos() + 1,
            final(self).states() == old(self).states(),
            final(self).wf() == old(self).wf(),
    {
        self.skip(1);
    }

    /// Advances the position counter by n.
    pub fn skip(&mut self, n: usize)
        requires
            old(self).pos() + n <= usize::MAX,
        ensures
            final(self).pos() == old(self).pos() + n,
            final(self).states() == old(self).states(),
            final(self).wf() == old(self).wf(),
    {
        self.pos = self.pos + n;
    }

    /// Gets a smartstate at the specified absolute position.
    pub fn get(&mut self, pos: usize) -> (s: &mut Smartstate)
        requires
            old(self).wf(),
            pos < N,
        ensures
            final(self).wf(),
            final(self).pos() == old(self).pos(),
            *s == old(self).states()[pos as int],
            final(self).states() == old(self).states().update(pos as int, *final(s)),
    {
        self.state_at(pos)
    }

    /// Invalidates every smartstate at an index in `[from, N)`; nothing happens when
    /// `from >= N`.
    fn invalidate_from(&mut self, from: usize)
        requires
            old(self).wf(),
        ensures
            final(self).wf(),
            final(self).pos() == old(self).pos(),
            final(self).states() == invalidated_range(old(self).states(), from as int, N as int),
    {
        let mut i: usize = from;
        while i < N
            invariant
                self.wf(),
                self.pos == old(self).pos,
                from <= N ==> from <= i <= N,
                from > N ==> i == from,
                from <= N ==> self.states() == invalidated_range(old(self).states(), from as int, i as int),
                from > N ==> self.states() == old(self).states(),
            decreases N - i,
        {
            self.states[i].force_redraw();
            i = i + 1;
        }
        assert(self.states() =~= invalidated_range(old(self).states(), from as int, N as int));
    }

    /// Forces a redraw of all smartstates.
    pub fn force_redraw_all(&mut self)
        requires
            old(self).wf(),
        ensures
            final(self).wf(),
            final(self).pos() == old(self).pos(),
            final(self).states() == invalidated_range(old(self).states(), 0, N as int),
    {
        self.invalidate_from(0);
    }

    /// Force redraw in all smartstates after (and including) the current position.
    ///
    /// This is useful if you want to force a redraw of all widgets after a certain
    /// point in the UI.
    pub fn force_redraw_remaining(&mut self)
        requires
            old(self).wf(),
            old(self).pos() <= i32::MAX,
        ensures
            final(self).wf(),
            final(self).pos() == old(self).pos(),
            final(self).states() == invalidated_range(
                old(self).states(),
                old(self).pos() as int,
                N as int,
            ),
    {
        self.force_redraw_from_offset(0);
    }

    /// Force redraw in all smartstates after (and including) the current position plus an offset.
    ///
    /// For example, `force_redraw_from_offset(0)` is equivalent to `force_redraw_remaining()`.
    /// A start below zero invalidates nothing.
    pub fn force_redraw_from_offset(&mut self, offset: i32)
        requires
            old(self).wf(),
            old(self).pos() <= i32::MAX,
            i32::MIN <= old(self).pos() + offset <= i32::MAX,
        ensures
            final(self).wf(),
            final(self).pos() == old(self).pos(),
            old(self).pos() + offset < 0 ==> final(self).states() == old(self).states(),
            old(self).pos() + offset >= 0 ==> final(self).states() == invalidated_range(
                old(self).states(),
                old(self).pos() + offset,
                N as int,
            ),
    {
        let start: i32 = self.pos as i32 + offset;
        if start >= 0 {
            self.invalidate_from(start as usize);
        } else {
            assert(self.states() =~= old(self).states());
        }
    }

    /// Force redraw in all smartstates after (and including) the given **absolute** position.
    ///
    /// For example, `force_redraw_from(0)` is equivalent to `force_redraw_all()`.
    pub fn force_redraw_from(&mut self, pos: usize)
        requires
            old(self).wf(),
        ensures
            final(self).wf(),
            final(self).pos() == old(self).pos(),
            final(self).states() == invalidated_range(old(self).states(), pos as int, N as int),
    {
        self.invalidate_from(pos);
    }

    /// Force redraw for all states in the given range **relative to the current position**.
    ///
    /// Every index that the range reaches, shifted by the position, must lie inside the provider.
    pub fn force_redraw_range_relative(&mut self, range: RangeInclusive<i32>)
        requires
            old(self).wf(),
            old(self).pos() <= i32::MAX,
            !range@.exhausted && range@.start <= range@.end ==> {
                &&& old(self).pos() + range@.start >= 0
                &&& old(self).pos() + range@.end < N
                &&& old(self).pos() + range@.end <= i32::MAX
            },
        ensures
            final(self).wf(),
            final(self).pos() == old(self).pos(),
            (range@.exhausted || range@.start > range@.end) ==> final(self).states()
                == old(self).states(),
            !(range@.exhausted || range@.start > range@.end) ==> final(self).states()
                == invalidated_range(
                old(self).states(),
                old(self).pos() + range@.start,
                old(self).pos() + range@.end + 1,
            ),
    {
        if inclusive_is_empty(&range) {
            assert(self.states() =~= old(self).states());
            return ;
        }
        let start: i32 = *inclusive_start(&range);
        let end: i32 = *inclusive_end(&range);
        let first: usize = (self.pos as i32 + start) as usize;
        let last: usize = (self.pos as i32 + end) as usize;
        self.invalidate_span(first, last);
    }

    /// Invalidates the smartstates at indices `first..=last`.
    fn invalidate_span(&mut self, first: usize, last: usize)
        requires
            old(self).wf(),
            first <= last < N,
        ensures
            final(self).wf(),
            final(self).pos() == old(self).pos(),
            final(self).states() == invalidated_range(
                old(self).states(),
                first as int,
                last + 1,
            ),
    {
        let mut i: usize = first;
        while i <= last
            invariant
                self.wf(),
                self.pos == old(self).pos,
                first <= i <= last + 1,
                last < N,
                self.states() == invalidated_range(old(self).states(), first as int, i as int),
            decreases last + 1 - i,
        {
            self.states[i].force_redraw();
            i = i + 1;
        }
    }

    /// Force redraw for all states in the given range (absolute indices).
    ///
    /// Every index that the range reaches must lie inside the provider.
    pub fn force_redraw_range(&mut self, range: RangeInclusive<usize>)
        requires
            old(self).wf(),
            !range@.exhausted && range@.start <= range@.end ==> range@.end < N,
        ensures
            final(self).wf(),
            final(self).pos() == old(self).pos(),
            (range@.exhausted || range@.start > range@.end) ==> final(self).states()
                == old(self).states(),
            !(range@.exhausted || range@.start > range@.end) ==> final(self).states()
                == invalidated_range(old(self).states(), range@.start as int, range@.end + 1),
    {
        if inclusive_is_empty(&range) {
            assert(self.states() =~= old(self).states());
            return ;
        }
        let first: usize = *inclusive_start(&range);
        let last: usize = *inclusive_end(&range);
        self.invalidate_span(first, last);
    }
}

impl<const N: usize> Default for SmartstateProvider<N> {
    fn default() -> (p: Self)
        ensures
            p.wf(),
            p.pos() == 0,
            forall|i: int| 0 <= i < N ==> (#[trigger] p.states()[i])@ == (0u32, false),
    {
        Self::new()
    }
}

} // verus!
