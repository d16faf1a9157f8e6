use vstd::prelude::*;

pub mod button;
pub mod checkbox;
pub mod combo_box;
pub mod draw;
pub mod framebuf;
pub mod geometry;
pub mod helpers;
pub mod icon;
pub mod iconbutton;
pub mod label;
pub mod slider;
pub mod smartstate;
pub mod spacer;
pub mod style;
pub mod text;
pub mod toggle_button;
pub mod toggle_switch;
pub mod ui;

verus! {

/// An optional mutable reference: either a reference to a value, or nothing.
pub enum RefOption<'a, T> {
    /// A reference to a value.
    Ref(&'a mut T),
    /// No value.
    Empty,
}

impl<T: Copy> RefOption<'_, T> {
    /// A copy of the referenced value, if there is one.
    pub fn copy(&self) -> (r: Option<T>)
        ensures
            r == match *self {
                RefOption::Ref(t) => Some(*t),
                RefOption::Empty => None,
            },
    {
        match self {
            RefOption::Ref(t) => Some(**t),
            RefOption::Empty => None,
        }
    }
}

impl<'a, T> RefOption<'a, T> {
    /// A reference option holding `t`.
    pub fn new(t: &'a mut T) -> (r: Self)
        ensures
            r matches RefOption::Ref(x) && *x == *old(t) && *final(x) == *final(t),
    {
        RefOption::Ref(t)
    }
}

} // verus!
