//! Helper for drawing an entire on-screen keyboard to the GUI.
//!
//! This module contains keyboard layouts for different languages and regions (QWERTY, QWERTZ,
//! AZERTY), along with functionality to draw an interactive on-screen keyboard.

use crate::button::{button_size, Button};
use crate::draw::Icon;
use crate::geometry::{spec_contains, Point, Size};
use crate::iconbutton::IconButton;
use crate::smartstate::{invalidated_range, Smartstate, SmartstateProvider};
use crate::style::Style;
use crate::spacer::Spacer;
use crate::text::{push_char, text_size, MonoFont};
use crate::ui::{MAX_ORIGIN, allocation, bottom_clear, debug_outline, lemma_ordered_compose, lemma_widget_in_order, translated, Interaction, Placer, lemma_ordered_refl, lemma_place_in_order, ordered_step, placed_before, placer_next, InternalResponse, Response, Ui, Widget};
use vstd::prelude::*;
use vstd::std_specs::convert::FromSpecImpl;
use vstd::utf8::{encode_scalar, encode_utf8};

verus! {

/// A key of the keyboard: the character it types, and the one it types with shift.
#[derive(Copy, Clone, Debug, PartialEq, Eq, Structural)]
pub enum Key {
    Char(char, char),
}

impl From<(char, char)> for Key {
    fn from(value: (char, char)) -> (k: Self) {
        Key::Char(value.0, value.1)
    }
}

impl FromSpecImpl<(char, char)> for Key {
    open spec fn obeys_from_spec() -> bool {
        true
    }

    open spec fn from_spec(v: (char, char)) -> Key {
        Key::Char(v.0, v.1)
    }
}

/// A row of keys.
pub type KeyList<'a> = &'a [Key];

/// The rows of a keyboard: an optional number row and three rows of keys.
pub struct Layout<'a> {
    num_row: KeyList<'a>,
    row_1: KeyList<'a>,
    row_2: KeyList<'a>,
    row_3: KeyList<'a>,
}

impl<'a> Layout<'a> {
    pub closed spec fn num_row_keys(&self) -> Seq<Key> {
        self.num_row@
    }

    pub closed spec fn row_1_keys(&self) -> Seq<Key> {
        self.row_1@
    }

    pub closed spec fn row_2_keys(&self) -> Seq<Key> {
        self.row_2@
    }

    pub closed spec fn row_3_keys(&self) -> Seq<Key> {
        self.row_3@
    }

    /// A layout of three rows, without a number row.
    pub fn new(row_1: KeyList<'a>, row_2: KeyList<'a>, row_3: KeyList<'a>) -> (l: Self)
        ensures
            l.num_row_keys() == Seq::<Key>::empty(),
            l.row_1_keys() == row_1@,
            l.row_2_keys() == row_2@,
            l.row_3_keys() == row_3@,
    {
        Self { num_row: &[], row_1, row_2, row_3 }
    }

    /// A layout of a number row and three rows.
    pub fn new_with_num_row(num_row: KeyList<'a>, row_1: KeyList<'a>, row_2: KeyList<'a>, row_3: KeyList<'a>) -> (l: Self)
        ensures
            l.num_row_keys() == num_row@,
            l.row_1_keys() == row_1@,
            l.row_2_keys() == row_2@,
            l.row_3_keys() == row_3@,
    {
        Self { num_row, row_1, row_2, row_3 }
    }
}

impl<'a> Layout<'a> {
    /// The number of character keys that drawing the layout shows (at most `usize::MAX`).
    pub fn key_count(&self, draw_num_row: bool) -> (n: usize)
        ensures
            n == if keyboard_keys(*self, draw_num_row) <= usize::MAX {
                keyboard_keys(*self, draw_num_row)
            } else {
                usize::MAX as int
            },
    {
        let nums: u128 = if draw_num_row { self.num_row.len() as u128 } else { 0 };
        let total: u128 = nums + self.row_1.len() as u128 + self.row_2.len() as u128 + self.row_3.len() as u128;
        if total <= usize::MAX as u128 { total as usize } else { usize::MAX }
    }
}

impl Layout<'static> {
    /// The US QWERTY layout with a number row and the bracket, semicolon, quote and hash keys.
    pub fn qwerty_with_special() -> (l: Layout<'static>)
        ensures
            l.num_row_keys() == seq![
                Key::Char('1', '!'),
                Key::Char('2', '@'),
                Key::Char('3', '#'),
                Key::Char('4', '$'),
                Key::Char('5', '%'),
                Key::Char('6', '^'),
                Key::Char('7', '&'),
                Key::Char('8', '*'),
                Key::Char('9', '('),
                Key::Char('0', ')'),
            ],
            l.row_1_keys() == seq![
                Key::Char('q', 'Q'),
                Key::Char('w', 'W'),
                Key::Char('e', 'E'),
                Key::Char('r', 'R'),
                Key::Char('t', 'T'),
                Key::Char('y', 'Y'),
                Key::Char('u', 'U'),
                Key::Char('i', 'I'),
                Key::Char('o', 'O'),
                Key::Char('p', 'P'),
                Key::Char('[', '{'),
                Key::Char(']', '}'),
            ],
            l.row_2_keys() == seq![
                Key::Char('a', 'A'),
                Key::Char('s', 'S'),
                Key::Char('d', 'D'),
                Key::Char('f', 'F'),
                Key::Char('g', 'G'),
                Key::Char('h', 'H'),
                Key::Char('j', 'J'),
                Key::Char('k', 'K'),
                Key::Char('l', 'L'),
                Key::Char(';', ':'),
                Key::Char('\'', '@'),
                Key::Char('#', '~'),
            ],
            l.row_3_keys() == seq![
                Key::Char('z', 'Z'),
                Key::Char('x', 'X'),
                Key::Char('c', 'C'),
                Key::Char('v', 'V'),
                Key::Char('b', 'B'),
                Key::Char('n', 'N'),
                Key::Char('m', 'M'),
                Key::Char(',', '<'),
                Key::Char('.', '>'),
                Key::Char('/', '?'),
            ],
    {
        Layout {
            num_row: &[
                Key::Char('1', '!'),
                Key::Char('2', '@'),
                Key::Char('3', '#'),
                Key::Char('4', '$'),
                Key::Char('5', '%'),
                Key::Char('6', '^'),
                Key::Char('7', '&'),
                Key::Char('8', '*'),
                Key::Char('9', '('),
                Key::Char('0', ')'),
            ],
            row_1: &[
                Key::Char('q', 'Q'),
                Key::Char('w', 'W'),
                Key::Char('e', 'E'),
                Key::Char('r', 'R'),
                Key::Char('t', 'T'),
                Key::Char('y', 'Y'),
                Key::Char('u', 'U'),
                Key::Char('i', 'I'),
                Key::Char('o', 'O'),
                Key::Char('p', 'P'),
                Key::Char('[', '{'),
                Key::Char(']', '}'),
            ],
            row_2: &[
                Key::Char('a', 'A'),
                Key::Char('s', 'S'),
                Key::Char('d', 'D'),
                Key::Char('f', 'F'),
                Key::Char('g', 'G'),
                Key::Char('h', 'H'),
                Key::Char('j', 'J'),
                Key::Char('k', 'K'),
                Key::Char('l', 'L'),
                Key::Char(';', ':'),
                Key::Char('\'', '@'),
                Key::Char('#', '~'),
            ],
            row_3: &[
                Key::Char('z', 'Z'),
                Key::Char('x', 'X'),
                Key::Char('c', 'C'),
                Key::Char('v', 'V'),
                Key::Char('b', 'B'),
                Key::Char('n', 'N'),
                Key::Char('m', 'M'),
                Key::Char(',', '<'),
                Key::Char('.', '>'),
                Key::Char('/', '?'),
            ],
        }
    }

    /// The UK QWERTY layout with a number row and the bracket, semicolon, quote and hash keys.
    pub fn qwerty_uk_with_special() -> (l: Layout<'static>)
        ensures
            l.num_row_keys() == seq![
                Key::Char('1', '!'),
                Key::Char('2', '"'),
                Key::Char('3', '£'),
                Key::Char('4', '$'),
                Key::Char('5', '%'),
                Key::Char('6', '^'),
                Key::Char('7', '&'),
                Key::Char('8', '*'),
                Key::Char('9', '('),
                Key::Char('0', ')'),
            ],
            l.row_1_keys() == seq![
                Key::Char('q', 'Q'),
                Key::Char('w', 'W'),
                Key::Char('e', 'E'),
                Key::Char('r', 'R'),
                Key::Char('t', 'T'),
                Key::Char('y', 'Y'),
                Key::Char('u', 'U'),
                Key::Char('i', 'I'),
                Key::Char('o', 'O'),
                Key::Char('p', 'P'),
                Key::Char('[', '{'),
                Key::Char(']', '}'),
            ],
            l.row_2_keys() == seq![
                Key::Char('a', 'A'),
                Key::Char('s', 'S'),
                Key::Char('d', 'D'),
                Key::Char('f', 'F'),
                Key::Char('g', 'G'),
                Key::Char('h', 'H'),
                Key::Char('j', 'J'),
                Key::Char('k', 'K'),
                Key::Char('l', 'L'),
                Key::Char(';', ':'),
                Key::Char('\'', '@'),
                Key::Char('#', '~'),
            ],
            l.row_3_keys() == seq![
                Key::Char('z', 'Z'),
                Key::Char('x', 'X'),
                Key::Char('c', 'C'),
                Key::Char('v', 'V'),
                Key::Char('b', 'B'),
                Key::Char('n', 'N'),
                Key::Char('m', 'M'),
                Key::Char(',', '<'),
                Key::Char('.', '>'),
                Key::Char('/', '?'),
            ],
    {
        Layout {
            num_row: &[
                Key::Char('1', '!'),
                Key::Char('2', '"'),
                Key::Char('3', '£'),
                Key::Char('4', '$'),
                Key::Char('5', '%'),
                Key::Char('6', '^'),
                Key::Char('7', '&'),
                Key::Char('8', '*'),
                Key::Char('9', '('),
                Key::Char('0', ')'),
            ],
            row_1: &[
                Key::Char('q', 'Q'),
                Key::Char('w', 'W'),
                Key::Char('e', 'E'),
                Key::Char('r', 'R'),
                Key::Char('t', 'T'),
                Key::Char('y', 'Y'),
                Key::Char('u', 'U'),
                Key::Char('i', 'I'),
                Key::Char('o', 'O'),
                Key::Char('p', 'P'),
                Key::Char('[', '{'),
                Key::Char(']', '}'),
            ],
            row_2: &[
                Key::Char('a', 'A'),
                Key::Char('s', 'S'),
                Key::Char('d', 'D'),
                Key::Char('f', 'F'),
                Key::Char('g', 'G'),
                Key::Char('h', 'H'),
                Key::Char('j', 'J'),
                Key::Char('k', 'K'),
                Key::Char('l', 'L'),
                Key::Char(';', ':'),
                Key::Char('\'', '@'),
                Key::Char('#', '~'),
            ],
            row_3: &[
                Key::Char('z', 'Z'),
                Key::Char('x', 'X'),
                Key::Char('c', 'C'),
                Key::Char('v', 'V'),
                Key::Char('b', 'B'),
                Key::Char('n', 'N'),
                Key::Char('m', 'M'),
                Key::Char(',', '<'),
                Key::Char('.', '>'),
                Key::Char('/', '?'),
            ],
        }
    }

    /// The German QWERTZ layout with a number row and the umlaut, plus, hash and minus keys.
    pub fn qwertz_with_special() -> (l: Layout<'static>)
        ensures
            l.num_row_keys() == seq![
                Key::Char('1', '!'),
                Key::Char('2', '"'),
                Key::Char('3', '§'),
                Key::Char('4', '$'),
                Key::Char('5', '%'),
                Key::Char('6', '&'),
                Key::Char('7', '/'),
                Key::Char('8', '('),
                Key::Char('9', ')'),
                Key::Char('0', '='),
            ],
            l.row_1_keys() == seq![
                Key::Char('q', 'Q'),
                Key::Char('w', 'W'),
                Key::Char('e', 'E'),
                Key::Char('r', 'R'),
                Key::Char('t', 'T'),
                Key::Char('z', 'Z'),
                Key::Char('u', 'U'),
                Key::Char('i', 'I'),
                Key::Char('o', 'O'),
                Key::Char('p', 'P'),
                Key::Char('ü', 'Ü'),
                Key::Char('+', '*'),
            ],
            l.row_2_keys() == seq![
                Key::Char('a', 'A'),
                Key::Char('s', 'S'),
                Key::Char('d', 'D'),
                Key::Char('f', 'F'),
                Key::Char('g', 'G'),
                Key::Char('h', 'H'),
                Key::Char('j', 'J'),
                Key::Char('k', 'K'),
                Key::Char('l', 'L'),
                Key::Char('ö', 'Ö'),
                Key::Char('ä', 'Ä'),
                Key::Char('#', '\''),
            ],
            l.row_3_keys() == seq![
                Key::Char('y', 'Y'),
                Key::Char('x', 'X'),
                Key::Char('c', 'C'),
                Key::Char('v', 'V'),
                Key::Char('b', 'B'),
                Key::Char('n', 'N'),
                Key::Char('m', 'M'),
                Key::Char(',', ';'),
                Key::Char('.', ':'),
                Key::Char('-', '_'),
            ],
    {
        Layout {
            num_row: &[
                Key::Char('1', '!'),
                Key::Char('2', '"'),
                Key::Char('3', '§'),
                Key::Char('4', '$'),
                Key::Char('5', '%'),
                Key::Char('6', '&'),
                Key::Char('7', '/'),
                Key::Char('8', '('),
                Key::Char('9', ')'),
                Key::Char('0', '='),
            ],
            row_1: &[
                Key::Char('q', 'Q'),
                Key::Char('w', 'W'),
                Key::Char('e', 'E'),
                Key::Char('r', 'R'),
                Key::Char('t', 'T'),
                Key::Char('z', 'Z'),
                Key::Char('u', 'U'),
                Key::Char('i', 'I'),
                Key::Char('o', 'O'),
                Key::Char('p', 'P'),
                Key::Char('ü', 'Ü'),
                Key::Char('+', '*'),
            ],
            row_2: &[
                Key::Char('a', 'A'),
                Key::Char('s', 'S'),
                Key::Char('d', 'D'),
                Key::Char('f', 'F'),
                Key::Char('g', 'G'),
                Key::Char('h', 'H'),
                Key::Char('j', 'J'),
                Key::Char('k', 'K'),
                Key::Char('l', 'L'),
                Key::Char('ö', 'Ö'),
                Key::Char('ä', 'Ä'),
                Key::Char('#', '\''),
            ],
            row_3: &[
                Key::Char('y', 'Y'),
                Key::Char('x', 'X'),
                Key::Char('c', 'C'),
                Key::Char('v', 'V'),
                Key::Char('b', 'B'),
                Key::Char('n', 'N'),
                Key::Char('m', 'M'),
                Key::Char(',', ';'),
                Key::Char('.', ':'),
                Key::Char('-', '_'),
            ],
        }
    }

    /// The French AZERTY layout with a number row and punctuation keys (ASCII only on the number row).
    pub fn azerty_with_special() -> (l: Layout<'static>)
        ensures
            l.num_row_keys() == seq![
                Key::Char('1', '&'),
                Key::Char('2', '2'),
                Key::Char('3', '"'),
                Key::Char('4', '\''),
                Key::Char('5', '('),
                Key::Char('6', '-'),
                Key::Char('7', '7'),
                Key::Char('8', '_'),
                Key::Char('9', '9'),
                Key::Char('0', '0'),
            ],
            l.row_1_keys() == seq![
                Key::Char('a', 'A'),
                Key::Char('z', 'Z'),
                Key::Char('e', 'E'),
                Key::Char('r', 'R'),
                Key::Char('t', 'T'),
                Key::Char('y', 'Y'),
                Key::Char('u', 'U'),
                Key::Char('i', 'I'),
                Key::Char('o', 'O'),
                Key::Char('p', 'P'),
            ],
            l.row_2_keys() == seq![
                Key::Char('q', 'Q'),
                Key::Char('s', 'S'),
                Key::Char('d', 'D'),
                Key::Char('f', 'F'),
                Key::Char('g', 'G'),
                Key::Char('h', 'H'),
                Key::Char('j', 'J'),
                Key::Char('k', 'K'),
                Key::Char('l', 'L'),
                Key::Char('m', 'M'),
            ],
            l.row_3_keys() == seq![
                Key::Char('w', 'W'),
                Key::Char('x', 'X'),
                Key::Char('c', 'C'),
                Key::Char('v', 'V'),
                Key::Char('b', 'B'),
                Key::Char('n', 'N'),
                Key::Char(',', '?'),
                Key::Char(';', '.'),
                Key::Char(':', '/'),
                Key::Char('!', '§'),
            ],
    {
        Layout {
            num_row: &[
                Key::Char('1', '&'),
                Key::Char('2', '2'),
                Key::Char('3', '"'),
                Key::Char('4', '\''),
                Key::Char('5', '('),
                Key::Char('6', '-'),
                Key::Char('7', '7'),
                Key::Char('8', '_'),
                Key::Char('9', '9'),
                Key::Char('0', '0'),
            ],
            row_1: &[
                Key::Char('a', 'A'),
                Key::Char('z', 'Z'),
                Key::Char('e', 'E'),
                Key::Char('r', 'R'),
                Key::Char('t', 'T'),
                Key::Char('y', 'Y'),
                Key::Char('u', 'U'),
                Key::Char('i', 'I'),
                Key::Char('o', 'O'),
                Key::Char('p', 'P'),
            ],
            row_2: &[
                Key::Char('q', 'Q'),
                Key::Char('s', 'S'),
                Key::Char('d', 'D'),
                Key::Char('f', 'F'),
                Key::Char('g', 'G'),
                Key::Char('h', 'H'),
                Key::Char('j', 'J'),
                Key::Char('k', 'K'),
                Key::Char('l', 'L'),
                Key::Char('m', 'M'),
            ],
            row_3: &[
                Key::Char('w', 'W'),
                Key::Char('x', 'X'),
                Key::Char('c', 'C'),
                Key::Char('v', 'V'),
                Key::Char('b', 'B'),
                Key::Char('n', 'N'),
                Key::Char(',', '?'),
                Key::Char(';', '.'),
                Key::Char(':', '/'),
                Key::Char('!', '§'),
            ],
        }
    }

    /// The US QWERTY layout: a number row and the letter rows.
    pub fn qwerty() -> (l: Layout<'static>)
        ensures
            l.num_row_keys() == seq![
                Key::Char('1', '!'),
                Key::Char('2', '@'),
                Key::Char('3', '#'),
                Key::Char('4', '$'),
                Key::Char('5', '%'),
                Key::Char('6', '^'),
                Key::Char('7', '&'),
                Key::Char('8', '*'),
                Key::Char('9', '('),
                Key::Char('0', ')'),
            ],
            l.row_1_keys() == seq![
                Key::Char('q', 'Q'),
                Key::Char('w', 'W'),
                Key::Char('e', 'E'),
                Key::Char('r', 'R'),
                Key::Char('t', 'T'),
                Key::Char('y', 'Y'),
                Key::Char('u', 'U'),
                Key::Char('i', 'I'),
                Key::Char('o', 'O'),
                Key::Char('p', 'P'),
            ],
            l.row_2_keys() == seq![
                Key::Char('a', 'A'),
                Key::Char('s', 'S'),
                Key::Char('d', 'D'),
                Key::Char('f', 'F'),
                Key::Char('g', 'G'),
                Key::Char('h', 'H'),
                Key::Char('j', 'J'),
                Key::Char('k', 'K'),
                Key::Char('l', 'L'),
            ],
            l.row_3_keys() == seq![
                Key::Char('z', 'Z'),
                Key::Char('x', 'X'),
                Key::Char('c', 'C'),
                Key::Char('v', 'V'),
                Key::Char('b', 'B'),
                Key::Char('n', 'N'),
                Key::Char('m', 'M'),
            ],
    {
        Layout {
            num_row: &[
                Key::Char('1', '!'),
                Key::Char('2', '@'),
                Key::Char('3', '#'),
                Key::Char('4', '$'),
                Key::Char('5', '%'),
                Key::Char('6', '^'),
                Key::Char('7', '&'),
                Key::Char('8', '*'),
                Key::Char('9', '('),
                Key::Char('0', ')'),
            ],
            row_1: &[
                Key::Char('q', 'Q'),
                Key::Char('w', 'W'),
                Key::Char('e', 'E'),
                Key::Char('r', 'R'),
                Key::Char('t', 'T'),
                Key::Char('y', 'Y'),
                Key::Char('u', 'U'),
                Key::Char('i', 'I'),
                Key::Char('o', 'O'),
                Key::Char('p', 'P'),
            ],
            row_2: &[
                Key::Char('a', 'A'),
                Key::Char('s', 'S'),
                Key::Char('d', 'D'),
                Key::Char('f', 'F'),
                Key::Char('g', 'G'),
                Key::Char('h', 'H'),
                Key::Char('j', 'J'),
                Key::Char('k', 'K'),
                Key::Char('l', 'L'),
            ],
            row_3: &[
                Key::Char('z', 'Z'),
                Key::Char('x', 'X'),
                Key::Char('c', 'C'),
                Key::Char('v', 'V'),
                Key::Char('b', 'B'),
                Key::Char('n', 'N'),
                Key::Char('m', 'M'),
            ],
        }
    }

    /// The UK QWERTY layout: a number row and the letter rows.
    pub fn qwerty_uk() -> (l: Layout<'static>)
        ensures
            l.num_row_keys() == seq![
                Key::Char('1', '!'),
                Key::Char('2', '"'),
                Key::Char('3', '£'),
                Key::Char('4', '$'),
                Key::Char('5', '%'),
                Key::Char('6', '^'),
                Key::Char('7', '&'),
                Key::Char('8', '*'),
                Key::Char('9', '('),
                Key::Char('0', ')'),
            ],
            l.row_1_keys() == seq![
                Key::Char('q', 'Q'),
                Key::Char('w', 'W'),
                Key::Char('e', 'E'),
                Key::Char('r', 'R'),
                Key::Char('t', 'T'),
                Key::Char('y', 'Y'),
                Key::Char('u', 'U'),
                Key::Char('i', 'I'),
                Key::Char('o', 'O'),
                Key::Char('p', 'P'),
            ],
            l.row_2_keys() == seq![
                Key::Char('a', 'A'),
                Key::Char('s', 'S'),
                Key::Char('d', 'D'),
                Key::Char('f', 'F'),
                Key::Char('g', 'G'),
                Key::Char('h', 'H'),
                Key::Char('j', 'J'),
                Key::Char('k', 'K'),
                Key::Char('l', 'L'),
            ],
            l.row_3_keys() == seq![
                Key::Char('z', 'Z'),
                Key::Char('x', 'X'),
                Key::Char('c', 'C'),
                Key::Char('v', 'V'),
                Key::Char('b', 'B'),
                Key::Char('n', 'N'),
                Key::Char('m', 'M'),
            ],
    {
        Layout {
            num_row: &[
                Key::Char('1', '!'),
                Key::Char('2', '"'),
                Key::Char('3', '£'),
                Key::Char('4', '$'),
                Key::Char('5', '%'),
                Key::Char('6', '^'),
                Key::Char('7', '&'),
                Key::Char('8', '*'),
                Key::Char('9', '('),
                Key::Char('0', ')'),
            ],
            row_1: &[
                Key::Char('q', 'Q'),
                Key::Char('w', 'W'),
                Key::Char('e', 'E'),
                Key::Char('r', 'R'),
                Key::Char('t', 'T'),
                Key::Char('y', 'Y'),
                Key::Char('u', 'U'),
                Key::Char('i', 'I'),
                Key::Char('o', 'O'),
                Key::Char('p', 'P'),
            ],
            row_2: &[
                Key::Char('a', 'A'),
                Key::Char('s', 'S'),
                Key::Char('d', 'D'),
                Key::Char('f', 'F'),
                Key::Char('g', 'G'),
                Key::Char('h', 'H'),
                Key::Char('j', 'J'),
                Key::Char('k', 'K'),
                Key::Char('l', 'L'),
            ],
            row_3: &[
                Key::Char('z', 'Z'),
                Key::Char('x', 'X'),
                Key::Char('c', 'C'),
                Key::Char('v', 'V'),
                Key::Char('b', 'B'),
                Key::Char('n', 'N'),
                Key::Char('m', 'M'),
            ],
        }
    }

    /// The German QWERTZ layout: a number row and the letter rows.
    pub fn qwertz() -> (l: Layout<'static>)
        ensures
            l.num_row_keys() == seq![
                Key::Char('1', '!'),
                Key::Char('2', '"'),
                Key::Char('3', '§'),
                Key::Char('4', '$'),
                Key::Char('5', '%'),
                Key::Char('6', '&'),
                Key::Char('7', '/'),
                Key::Char('8', '('),
                Key::Char('9', ')'),
                Key::Char('0', '='),
            ],
            l.row_1_keys() == seq![
                Key::Char('q', 'Q'),
                Key::Char('w', 'W'),
                Key::Char('e', 'E'),
                Key::Char('r', 'R'),
                Key::Char('t', 'T'),
                Key::Char('z', 'Z'),
                Key::Char('u', 'U'),
                Key::Char('i', 'I'),
                Key::Char('o', 'O'),
                Key::Char('p', 'P'),
            ],
            l.row_2_keys() == seq![
                Key::Char('a', 'A'),
                Key::Char('s', 'S'),
                Key::Char('d', 'D'),
                Key::Char('f', 'F'),
                Key::Char('g', 'G'),
                Key::Char('h', 'H'),
                Key::Char('j', 'J'),
                Key::Char('k', 'K'),
                Key::Char('l', 'L'),
            ],
            l.row_3_keys() == seq![
                Key::Char('y', 'Y'),
                Key::Char('x', 'X'),
                Key::Char('c', 'C'),
                Key::Char('v', 'V'),
                Key::Char('b', 'B'),
                Key::Char('n', 'N'),
                Key::Char('m', 'M'),
            ],
    {
        Layout {
            num_row: &[
                Key::Char('1', '!'),
                Key::Char('2', '"'),
                Key::Char('3', '§'),
                Key::Char('4', '$'),
                Key::Char('5', '%'),
                Key::Char('6', '&'),
                Key::Char('7', '/'),
                Key::Char('8', '('),
                Key::Char('9', ')'),
                Key::Char('0', '='),
            ],
            row_1: &[
                Key::Char('q', 'Q'),
                Key::Char('w', 'W'),
                Key::Char('e', 'E'),
                Key::Char('r', 'R'),
                Key::Char('t', 'T'),
                Key::Char('z', 'Z'),
                Key::Char('u', 'U'),
                Key::Char('i', 'I'),
                Key::Char('o', 'O'),
                Key::Char('p', 'P'),
            ],
            row_2: &[
                Key::Char('a', 'A'),
                Key::Char('s', 'S'),
                Key::Char('d', 'D'),
                Key::Char('f', 'F'),
                Key::Char('g', 'G'),
                Key::Char('h', 'H'),
                Key::Char('j', 'J'),
                Key::Char('k', 'K'),
                Key::Char('l', 'L'),
            ],
            row_3: &[
                Key::Char('y', 'Y'),
                Key::Char('x', 'X'),
                Key::Char('c', 'C'),
                Key::Char('v', 'V'),
                Key::Char('b', 'B'),
                Key::Char('n', 'N'),
                Key::Char('m', 'M'),
            ],
        }
    }

    /// The French AZERTY layout: a number row and the letter rows.
    pub fn azerty() -> (l: Layout<'static>)
        ensures
            l.num_row_keys() == seq![
                Key::Char('1', '&'),
                Key::Char('2', '2'),
                Key::Char('3', '"'),
                Key::Char('4', '\''),
                Key::Char('5', '('),
                Key::Char('6', '-'),
                Key::Char('7', '7'),
                Key::Char('8', '_'),
                Key::Char('9', '9'),
                Key::Char('0', '0'),
            ],
            l.row_1_keys() == seq![
                Key::Char('a', 'A'),
                Key::Char('z', 'Z'),
                Key::Char('e', 'E'),
                Key::Char('r', 'R'),
                Key::Char('t', 'T'),
                Key::Char('y', 'Y'),
                Key::Char('u', 'U'),
                Key::Char('i', 'I'),
                Key::Char('o', 'O'),
                Key::Char('p', 'P'),
            ],
            l.row_2_keys() == seq![
                Key::Char('q', 'Q'),
                Key::Char('s', 'S'),
                Key::Char('d', 'D'),
                Key::Char('f', 'F'),
                Key::Char('g', 'G'),
                Key::Char('h', 'H'),
                Key::Char('j', 'J'),
                Key::Char('k', 'K'),
                Key::Char('l', 'L'),
                Key::Char('m', 'M'),
            ],
            l.row_3_keys() == seq![
                Key::Char('w', 'W'),
                Key::Char('x', 'X'),
                Key::Char('c', 'C'),
                Key::Char('v', 'V'),
                Key::Char('b', 'B'),
                Key::Char('n', 'N'),
            ],
    {
        Layout {
            num_row: &[
                Key::Char('1', '&'),
                Key::Char('2', '2'),
                Key::Char('3', '"'),
                Key::Char('4', '\''),
                Key::Char('5', '('),
                Key::Char('6', '-'),
                Key::Char('7', '7'),
                Key::Char('8', '_'),
                Key::Char('9', '9'),
                Key::Char('0', '0'),
            ],
            row_1: &[
                Key::Char('a', 'A'),
                Key::Char('z', 'Z'),
                Key::Char('e', 'E'),
                Key::Char('r', 'R'),
                Key::Char('t', 'T'),
                Key::Char('y', 'Y'),
                Key::Char('u', 'U'),
                Key::Char('i', 'I'),
                Key::Char('o', 'O'),
                Key::Char('p', 'P'),
            ],
            row_2: &[
                Key::Char('q', 'Q'),
                Key::Char('s', 'S'),
                Key::Char('d', 'D'),
                Key::Char('f', 'F'),
                Key::Char('g', 'G'),
                Key::Char('h', 'H'),
                Key::Char('j', 'J'),
                Key::Char('k', 'K'),
                Key::Char('l', 'L'),
                Key::Char('m', 'M'),
            ],
            row_3: &[
                Key::Char('w', 'W'),
                Key::Char('x', 'X'),
                Key::Char('c', 'C'),
                Key::Char('v', 'V'),
                Key::Char('b', 'B'),
                Key::Char('n', 'N'),
            ],
        }
    }
}


/// The number of bytes of the UTF-8 encoding of `s`.
pub open spec fn byte_len(s: Seq<char>) -> int {
    encode_utf8(s).len() as int
}

/// Appending a character adds the length of its encoding.
proof fn lemma_byte_len_push(s: Seq<char>, c: char)
    ensures
        byte_len(s.push(c)) == byte_len(s) + encode_scalar(c as u32).len(),
    decreases s.len(),
{
    let t = s.push(c);
    assert(t.len() > 0);
    assert(encode_utf8(t) == encode_scalar(t[0] as u32) + encode_utf8(t.drop_first()));
    if s.len() == 0 {
        assert(t.drop_first() =~= Seq::<char>::empty());
        assert(encode_utf8(Seq::<char>::empty()) =~= Seq::<u8>::empty());
        assert(t[0] == c);
    } else {
        lemma_byte_len_push(s.drop_first(), c);
        assert(t.drop_first() =~= s.drop_first().push(c));
        assert(t[0] == s[0]);
        assert(encode_utf8(s) == encode_scalar(s[0] as u32) + encode_utf8(s.drop_first()));
    }
}

/// The length of the UTF-8 encoding of `c`.
fn utf8_width(c: char) -> (w: usize)
    ensures
        w == encode_scalar(c as u32).len(),
{
    let v = c as u32;
    if v <= 0x7F {
        1
    } else if v <= 0x7FF {
        2
    } else if v <= 0xFFFF {
        3
    } else {
        4
    }
}

/// Appends `c` to `text` when the encoding of the result still fits in `cap` bytes (as a
/// `heapless::String` of capacity `cap` does); says whether it did.
pub fn push_limited(text: &mut String, c: char, cap: usize) -> (ok: bool)
    requires
        byte_len(old(text)@) <= cap,
    ensures
        ok == (byte_len(old(text)@) + encode_scalar(c as u32).len() <= cap),
        ok ==> final(text)@ == old(text)@.push(c),
        !ok ==> final(text)@ == old(text)@,
        ok ==> byte_len(final(text)@) == byte_len(old(text)@) + encode_scalar(c as u32).len(),
{
    let len: usize = text.as_str().len();
    let w = utf8_width(c);
    proof {
        lemma_byte_len_push(text@, c);
    }
    if len as u128 + w as u128 <= cap as u128 {
        push_char(text, c);
        true
    } else {
        false
    }
}

/// Calls `String::pop`: removes the last character and returns it; `None` for an empty string,
/// which stays as it is.
#[verifier::external_body]
fn pop_char(s: &mut String) -> (r: Option<char>)
    ensures
        old(s)@.len() == 0 ==> r is None && final(s)@ == old(s)@,
        old(s)@.len() > 0 ==> r == Some(old(s)@.last()) && final(s)@ == old(s)@.drop_last(),
{
    s.pop()
}

/// Removes the last character of `text`, if any; says whether there was one.
pub fn pop_last(text: &mut String) -> (ok: bool)
    ensures
        ok == (old(text)@.len() > 0),
        ok ==> final(text)@ == old(text)@.drop_last(),
        !ok ==> final(text)@ == old(text)@,
        byte_len(final(text)@) <= byte_len(old(text)@),
{
    if !text.as_str().is_empty() {
        proof {
            lemma_byte_len_push(text@.drop_last(), text@.last());
            assert(text@.drop_last().push(text@.last()) =~= text@);
        }
    }
    pop_char(text).is_some()
}

/// Typing a character and then pressing backspace gives back the text, and keeps it within
/// the capacity it was in.
pub proof fn law_backspace_undoes_key(text: Seq<char>, c: char, cap: int)
    requires
        byte_len(text) + encode_scalar(c as u32).len() <= cap,
    ensures
        text.push(c).len() > 0,
        text.push(c).drop_last() == text,
        byte_len(text.push(c)) <= cap,
{
    lemma_byte_len_push(text, c);
    assert(text.push(c).drop_last() =~= text);
}

/// The provider, if there is one, is well formed and has `n` more smartstates from its position.
pub open spec fn provider_has<const M: usize>(sp: Option<&mut SmartstateProvider<M>>, n: int) -> bool {
    match sp {
        Some(p) => p.wf() && p.pos() + n <= M && p.pos() + n <= i32::MAX,
        None => true,
    }
}

/// `after` is `before` moved on by `n` smartstates (or both are absent).
pub open spec fn provider_moved<const M: usize>(before: Option<&mut SmartstateProvider<M>>, after: Option<&mut SmartstateProvider<M>>, n: int) -> bool {
    match (before, after) {
        (Some(p), Some(q)) => q.wf() && q.pos() == p.pos() + n,
        (None, None) => true,
        _ => false,
    }
}

/// `after` holds the smartstates of `before` below index `lo` (or both are absent).
pub open spec fn kept_below<const M: usize>(
    before: Option<&mut SmartstateProvider<M>>,
    after: Option<&mut SmartstateProvider<M>>,
    lo: int,
) -> bool {
    match (before, after) {
        (Some(p), Some(q)) => forall|i: int| 0 <= i < lo && i < p.states().len() ==> #[trigger] q.states()[i] == p.states()[i],
        _ => true,
    }
}

/// The position of the provider (0 without one).
pub open spec fn provider_at<const M: usize>(sp: Option<&mut SmartstateProvider<M>>) -> int {
    match sp {
        Some(p) => p.pos() as int,
        None => 0,
    }
}

/// The character a key types: the shifted one with `shift`.
pub open spec fn key_char(k: Key, shift: bool) -> char {
    match k {
        Key::Char(l, u) => if shift { u } else { l },
    }
}

/// `new` is `old` edited by backspaces and by typing characters of `allowed`: some prefix of
/// `old`, followed by characters of `allowed`.
pub open spec fn typed(old: Seq<char>, new: Seq<char>, allowed: Set<char>) -> bool {
    exists|j: int, added: Seq<char>|
        #![trigger old.take(j), added.len()]
        0 <= j <= old.len() && new == old.take(j) + added && forall|i: int|
            0 <= i < added.len() ==> allowed.contains(#[trigger] added[i])
}

/// The characters that the keys of a layout type (in the case that `shift` gives), and the
/// space bar's.
pub open spec fn keyboard_chars(layout: Layout, draw_num_row: bool, shift: bool) -> Set<char> {
    Set::new(
        |c: char|
            c == ' ' || exists|k: Key|
                #![trigger key_char(k, shift)]
                ((draw_num_row && layout.num_row_keys().contains(k)) || layout.row_1_keys().contains(k)
                    || layout.row_2_keys().contains(k) || layout.row_3_keys().contains(k)) && key_char(k, shift) == c,
    )
}

/// A text is typed from itself.
proof fn lemma_typed_refl(old: Seq<char>, allowed: Set<char>)
    ensures
        typed(old, old, allowed),
{
    let added = Seq::<char>::empty();
    assert(old == old.take(old.len() as int) + added);
}

/// Typing an allowed character keeps a text typed.
proof fn lemma_typed_push(old: Seq<char>, new: Seq<char>, c: char, allowed: Set<char>)
    requires
        typed(old, new, allowed),
        allowed.contains(c),
    ensures
        typed(old, new.push(c), allowed),
{
    let (j, added) = choose|j: int, added: Seq<char>|
        #![trigger old.take(j), added.len()]
        0 <= j <= old.len() && new == old.take(j) + added && forall|i: int|
            0 <= i < added.len() ==> allowed.contains(#[trigger] added[i]);
    let added2 = added.push(c);
    assert(new.push(c) == old.take(j) + added2);
    assert(forall|i: int| 0 <= i < added2.len() ==> allowed.contains(#[trigger] added2[i]));
}

/// A backspace keeps a text typed.
proof fn lemma_typed_pop(old: Seq<char>, new: Seq<char>, allowed: Set<char>)
    requires
        typed(old, new, allowed),
        new.len() > 0,
    ensures
        typed(old, new.drop_last(), allowed),
{
    let (j, added) = choose|j: int, added: Seq<char>|
        #![trigger old.take(j), added.len()]
        0 <= j <= old.len() && new == old.take(j) + added && forall|i: int|
            0 <= i < added.len() ==> allowed.contains(#[trigger] added[i]);
    if added.len() > 0 {
        let added2 = added.drop_last();
        assert(new.drop_last() == old.take(j) + added2);
        assert(forall|i: int| 0 <= i < added2.len() ==> allowed.contains(#[trigger] added2[i]));
    } else {
        let added2 = Seq::<char>::empty();
        assert(j > 0);
        assert(new.drop_last() == old.take(j - 1) + added2);
    }
}

/// Draws `keys` as buttons side by side, each typing its character into `text` (within `cap`
/// bytes) when clicked, each with the next smartstate of the provider. Returns whether a key was
/// clicked and whether the text changed.
fn key_row<COL: Copy, const M: usize>(
    ui: &mut Ui<'_, COL>,
    keys: &[Key],
    shift: bool,
    sp: &mut Option<&mut SmartstateProvider<M>>,
    text: &mut String,
    cap: usize,
    Ghost(base): Ghost<Seq<char>>,
    Ghost(allowed): Ghost<Set<char>>,
) -> (r: (bool, bool))
    requires
        old(ui).wf(),
        !old(ui).framebuf_active(),
        old(ui).placer().room(2 * keys@.len() as int),
        provider_has(*old(sp), keys@.len() as int),
        byte_len(old(text)@) <= cap,
        typed(base, old(text)@, allowed),
        forall|i: int| 0 <= i < keys@.len() ==> allowed.contains(#[trigger] key_char(keys@[i], shift)),
    ensures
        final(ui).wf(),
        !final(ui).framebuf_active(),
        final(ui).unchanged_frame(*old(ui)),
        final(ui).placer().within_steps(old(ui).placer(), 2 * keys@.len() as int),
        provider_moved(*old(sp), *final(sp), keys@.len() as int),
        *old(sp) matches Some(p) ==> (*final(sp) matches Some(q) && *final(q) == *final(p)),
        kept_below(*old(sp), *final(sp), provider_at(*old(sp))),
        byte_len(final(text)@) <= cap,
        typed(base, final(text)@, allowed),
        !r.1 ==> final(text)@ == old(text)@,
        r.1 ==> r.0,
        final(ui).placer() == row_placer(
            old(ui).style_spec(),
            old(ui).bounds().top_left,
            old(ui).interaction(),
            old(ui).popup_showing(),
            old(ui).placer(),
            keys@,
            shift,
            keys@.len() as int,
        ),
        row_types_released_key(
            old(ui).style_spec(),
            old(ui).bounds().top_left,
            old(ui).interaction(),
            old(ui).popup_showing(),
            old(ui).placer(),
            keys@,
            shift,
            old(text)@,
            final(text)@,
            cap as int,
            r.0,
        ),
        ordered_step(*old(ui), *final(ui), r.0),
        r.1 == (final(text)@ != old(text)@),
        final(text)@ == old(text)@ || exists|j: int|
            0 <= j < keys@.len() && final(text)@ == old(text)@.push(#[trigger] key_char(keys@[j], shift)),
{
    let mut clicked = false;
    let mut changed = false;
    let mut i: usize = 0;
    proof {
        reveal(row_placer);
    }
    while i < keys.len()
        invariant
            0 <= i <= keys@.len(),
            typed(base, text@, allowed),
            forall|i: int| 0 <= i < keys@.len() ==> allowed.contains(#[trigger] key_char(keys@[i], shift)),
            ui.wf(),
            !ui.framebuf_active(),
            ui.unchanged_frame(*old(ui)),
            ui.placer().within_steps(old(ui).placer(), 2 * i),
            old(ui).placer().room(2 * keys@.len() as int),
            provider_moved(*old(sp), *sp, i as int),
            *old(sp) matches Some(p) ==> (*sp matches Some(q) && *final(q) == *final(p)),
            kept_below(*old(sp), *sp, provider_at(*old(sp))),
            provider_has(*old(sp), keys@.len() as int),
            byte_len(text@) <= cap,
            !changed ==> text@ == old(text)@,
            changed ==> clicked,
            ordered_step(*old(ui), *ui, clicked),
            changed == (text@ != old(text)@),
            text@ == old(text)@ || exists|j: int|
                0 <= j < i && text@ == old(text)@.push(#[trigger] key_char(keys@[j], shift)),
            ui.style_spec() == old(ui).style_spec(),
            ui.bounds() == old(ui).bounds(),
            ui.interaction() == old(ui).interaction(),
            ui.popup_showing() == old(ui).popup_showing(),
            ui.placer() == row_placer(
                old(ui).style_spec(),
                old(ui).bounds().top_left,
                old(ui).interaction(),
                old(ui).popup_showing(),
                old(ui).placer(),
                keys@,
                shift,
                i as int,
            ),
            forall|j: int|
                0 <= j < i && #[trigger] row_hit(
                    old(ui).style_spec(),
                    old(ui).bounds().top_left,
                    old(ui).interaction(),
                    old(ui).popup_showing(),
                    old(ui).placer(),
                    keys@,
                    shift,
                    j,
                ) ==> if byte_len(old(text)@) + encode_scalar(key_char(keys@[j], shift) as u32).len() <= cap {
                    text@ == old(text)@.push(key_char(keys@[j], shift))
                } else {
                    text@ == old(text)@
                },
            clicked == exists|j: int|
                0 <= j < i && #[trigger] row_hit(
                    old(ui).style_spec(),
                    old(ui).bounds().top_left,
                    old(ui).interaction(),
                    old(ui).popup_showing(),
                    old(ui).placer(),
                    keys@,
                    shift,
                    j,
                ),
        decreases keys@.len() - i,
    {
        let c = match keys[i] {
            Key::Char(l, u) => if shift { u } else { l },
        };
        assert(c == key_char(keys@[i as int], shift));
        let ghost u0 = *ui;
        let hit = char_key(ui, c, sp);
        proof {
            reveal(row_hit);
            reveal_with_fuel(row_placer, 2);
            lemma_ordered_compose(*old(ui), u0, *ui, clicked, hit);
            assert(hit == row_hit(
                old(ui).style_spec(),
                old(ui).bounds().top_left,
                old(ui).interaction(),
                old(ui).popup_showing(),
                old(ui).placer(),
                keys@,
                shift,
                i as int,
            ));
        }
        if hit {
            clicked = true;
            let ghost before = text@;
            if push_limited(text, c, cap) {
                changed = true;
                proof {
                    lemma_typed_push(base, before, c, allowed);
                }
            }
        }
        i = i + 1;
    }
    proof {
        reveal(row_types_released_key);
    }
    (clicked, changed)
}


/// `new` is `old` with at most one edit: unchanged, one character of `allowed` typed, or the
/// last character removed.
pub open spec fn one_edit(old: Seq<char>, new: Seq<char>, allowed: Set<char>) -> bool {
    ||| new == old
    ||| exists|c: char| allowed.contains(c) && new == #[trigger] old.push(c)
    ||| old.len() > 0 && new == old.drop_last()
}

/// The number of character keys drawn: the number row's (when drawn) and the three rows'.
pub open spec fn keyboard_keys(layout: Layout, draw_num_row: bool) -> int {
    (if draw_num_row { layout.num_row_keys().len() as int } else { 0 }) + layout.row_1_keys().len()
        + layout.row_2_keys().len() + layout.row_3_keys().len()
}

/// Whether the keyboard redraws this frame: always without smartstates; otherwise when its
/// first smartstate does not hold the open state (1 when open, 0 when closed).
pub open spec fn keyboard_redraw<const M: usize>(sp: Option<&mut SmartstateProvider<M>>, open: bool) -> bool {
    match sp {
        Some(p) => !(p.states()[p.pos() as int]@ == ((if open { 1u32 } else { 0u32 }), true)),
        None => true,
    }
}

/// The smartstates of the provider `p` after the keyboard took its open-state smartstate: that
/// one set to the open state (1 when open, 0 when closed) and, when it held another state, all
/// that follow it invalidated.
pub open spec fn keyboard_open_states<const M: usize>(p: SmartstateProvider<M>, open: bool) -> Seq<Smartstate> {
    let id: u32 = if open { 1 } else { 0 };
    let set = p.states().update(p.pos() as int, Smartstate::spec_state(id));
    if p.states()[p.pos() as int]@ == (id, true) {
        set
    } else {
        invalidated_range(set, p.pos() + 1, M as int)
    }
}

/// The padding that stands for `longer - shorter` missing keys: two item spacings per key (at
/// most `u32::MAX`).
pub open spec fn key_padding_spec(longer: int, shorter: int, spacing: u32) -> u32 {
    let n = if longer > shorter { longer - shorter } else { 0 };
    if n * spacing * 2 > u32::MAX { u32::MAX } else { (n * spacing * 2) as u32 }
}

/// Computes [`key_padding_spec`].
fn key_padding(longer: u64, shorter: u64, spacing: u32) -> (p: u32)
    ensures
        p == key_padding_spec(longer as int, shorter as int, spacing),
{
    let n: u128 = if longer > shorter { (longer - shorter) as u128 } else { 0 };
    assert(n * spacing as u128 * 2 <= 0xffff_ffff_ffff_ffff_u128 * 0xffff_ffff_u128 * 2) by (nonlinear_arith)
        requires
            n <= 0xffff_ffff_ffff_ffff_u128,
            spacing <= 0xffff_ffff_u32,
    ;
    let p: u128 = n * spacing as u128 * 2;
    if p > u32::MAX as u128 { u32::MAX } else { p as u32 }
}

/// Staggers a padding that equals the previous one by two pixels.
fn stagger(padding: u32, prev: u32) -> (r: u32)
    ensures
        r == if padding > 0 && prev == padding && padding <= u32::MAX - 2 {
            padding + 2
        } else {
            padding as int
        },
{
    if padding > 0 && prev == padding && padding <= u32::MAX - 2 {
        padding + 2
    } else {
        padding
    }
}

/// Places an empty horizontal space of `width` (without the UI's item spacing).
fn pad_space<COL: Copy>(ui: &mut Ui<'_, COL>, width: u32)
    requires
        old(ui).wf(),
        !old(ui).framebuf_active(),
        old(ui).placer().room(1),
    ensures
        final(ui).wf(),
        !final(ui).framebuf_active(),
        final(ui).unchanged_frame(*old(ui)),
        ordered_step(*old(ui), *final(ui), false),
        final(ui).placer().within_steps(old(ui).placer(), 1),
        final(ui).placer() == placer_next(old(ui).placer(), Size { width, height: 0 }).0,
        final(ui).commands() == match allocation(*old(ui), Size { width, height: 0 }) {
            Ok((area, _)) => if old(ui).debug_color() is Some {
                old(ui).commands().push(debug_outline(area, old(ui).debug_color()))
            } else {
                old(ui).commands()
            },
            Err(_) => old(ui).commands(),
        },
{
    let mut spacer = Spacer::new(Size::new(width, 0));
    let res = spacer.draw(ui);
    ui.outline_placed(&res);
    proof {
        let tl = old(ui).bounds().top_left;
        assert forall|pt: Point| #[trigger] placed_before(pt, old(ui).placer(), tl) implies placed_before(pt, ui.placer(), tl) by {
            lemma_place_in_order(old(ui).placer(), Size { width, height: 0 }, tl, pt);
        }
    }
}

/// Adds the icon button `b` with the next smartstate of the provider, as a widget of its own
/// row; says whether it was clicked.
fn icon_key<COL: Copy, const M: usize>(ui: &mut Ui<'_, COL>, b: IconButton<'_, COL>, sp: &mut Option<&mut SmartstateProvider<M>>) -> (hit: bool)
    requires
        old(ui).wf(),
        !old(ui).framebuf_active(),
        old(ui).placer().room(3),
        provider_has(*old(sp), 1),
    ensures
        final(ui).wf(),
        !final(ui).framebuf_active(),
        final(ui).unchanged_frame(*old(ui)),
        ordered_step(*old(ui), *final(ui), hit),
        final(ui).placer().row > old(ui).placer().row,
        final(ui).placer().within_steps(old(ui).placer(), 3),
        provider_moved(*old(sp), *final(sp), 1),
        *old(sp) matches Some(p) ==> (*final(sp) matches Some(q) && *final(q) == *final(p)),
        kept_below(*old(sp), *final(sp), provider_at(*old(sp))),
{
    match sp.as_mut() {
        Some(p) => ui.add(b.smartstate(p.nxt())).clicked(),
        None => ui.add(b).clicked(),
    }
}

/// Takes the provider's next smartstate for the keyboard's open state: says whether it held
/// another state (the keyboard must be redrawn; always without a provider) and sets it to the
/// open state.
fn open_state_step<const M: usize>(sp: &mut Option<&mut SmartstateProvider<M>>, open: bool) -> (redraw: bool)
    requires
        provider_has(*old(sp), 1),
    ensures
        provider_moved(*old(sp), *final(sp), 1),
        *old(sp) matches Some(p) ==> (*final(sp) matches Some(q) && *final(q) == *final(p)),
        kept_below(*old(sp), *final(sp), provider_at(*old(sp))),
        redraw == keyboard_redraw(*old(sp), open),
        *old(sp) matches Some(p) ==> (*final(sp) matches Some(q) && q.states() == p.states().update(
            p.pos() as int,
            Smartstate::spec_state(if open { 1u32 } else { 0u32 }),
        )),
{
    match sp.as_mut() {
        Some(p) => {
            let sm = p.nxt();
            let id: u32 = if open { 1 } else { 0 };
            let again = !sm.is_state(id);
            sm.set_state(id);
            again
        },
        None => true,
    }
}

/// Invalidates the provider's smartstates from its position on.
fn invalidate_rest<const M: usize>(sp: &mut Option<&mut SmartstateProvider<M>>)
    requires
        provider_has(*old(sp), 0),
    ensures
        provider_moved(*old(sp), *final(sp), 0),
        *old(sp) matches Some(p) ==> (*final(sp) matches Some(q) && *final(q) == *final(p)),
        kept_below(*old(sp), *final(sp), provider_at(*old(sp))),
        *old(sp) matches Some(p) ==> (*final(sp) matches Some(q) && q.states() == invalidated_range(
            p.states(),
            p.pos() as int,
            M as int,
        )),
{
    if let Some(p) = sp.as_mut() {
        p.force_redraw_remaining();
    }
}

/// Invalidates the provider's smartstates from `from` on.
fn invalidate_from<const M: usize>(sp: &mut Option<&mut SmartstateProvider<M>>, from: usize)
    requires
        provider_has(*old(sp), 0),
    ensures
        provider_moved(*old(sp), *final(sp), 0),
        *old(sp) matches Some(p) ==> (*final(sp) matches Some(q) && *final(q) == *final(p)),
        kept_below(*old(sp), *final(sp), from as int),
        *old(sp) matches Some(p) ==> (*final(sp) matches Some(q) && q.states() == invalidated_range(
            p.states(),
            from as int,
            M as int,
        )),
{
    if let Some(p) = sp.as_mut() {
        p.force_redraw_from(from);
    }
}

/// The provider's position (0 without a provider).
fn provider_pos<const M: usize>(sp: &Option<&mut SmartstateProvider<M>>) -> (pos: usize)
    ensures
        pos == provider_at(*sp),
{
    match sp {
        Some(p) => p.get_pos(),
        None => 0,
    }
}

/// Adds a button labelled `label` to the current row with the next smartstate of the provider;
/// says whether it was clicked.
fn text_key<COL: Copy, const M: usize>(ui: &mut Ui<'_, COL>, label: &str, sp: &mut Option<&mut SmartstateProvider<M>>) -> (hit: bool)
    requires
        old(ui).wf(),
        !old(ui).framebuf_active(),
        old(ui).placer().room(2),
        provider_has(*old(sp), 1),
    ensures
        final(ui).wf(),
        !final(ui).framebuf_active(),
        final(ui).unchanged_frame(*old(ui)),
        ordered_step(*old(ui), *final(ui), hit),
        final(ui).placer().within_steps(old(ui).placer(), 2),
        provider_moved(*old(sp), *final(sp), 1),
        *old(sp) matches Some(p) ==> (*final(sp) matches Some(q) && *final(q) == *final(p)),
        kept_below(*old(sp), *final(sp), provider_at(*old(sp))),
{
    match sp.as_mut() {
        Some(p) => ui.add_horizontal(Button::<COL>::new(label).smartstate(p.nxt())).clicked(),
        None => ui.add_horizontal(Button::<COL>::new(label)).clicked(),
    }
}

/// Whether a label with the characters `label` can be measured in `font` (as [`measurable`]
/// says of a string holding them).
pub open spec fn label_measurable(label: Seq<char>, font: MonoFont) -> bool {
    let n = byte_len(label);
    &&& n * (font.character_size.width + font.character_spacing) <= i32::MAX
    &&& (n + 2) * font.character_size.height <= i32::MAX
    &&& font.character_size.width + font.character_spacing <= i32::MAX
    &&& font.character_size.height * 100 <= u32::MAX
}

/// One key of a row: a button labelled `label`, placed with the placer `p` in a UI of style
/// `st` whose bounds start at `tl` and that receives `inter` (under a shown popup when
/// `covered`), followed by the item spacing without wrapping. Gives the placer after both, and
/// whether the release landed on the button.
#[verifier::opaque]
pub open spec fn key_step<COL>(st: Style<COL>, tl: Point, inter: Interaction, covered: bool, p: Placer, label: Seq<char>) -> (Placer, bool) {
    let font = st.default_font;
    let size = button_size(
        text_size(label, font),
        st.spacing.button_padding,
        st.widget.normal.border_width,
        st.default_widget_height,
        None,
    );
    let placed = label_measurable(label, font) && size is Ok;
    let q = if placed { placer_next(p, size->Ok_0).0 } else { p };
    let hit = placed && (placer_next(p, size->Ok_0).1 matches Ok(rect) && !covered && (inter matches Interaction::Release(
        pt,
    ) && spec_contains(translated(rect, tl), pt)));
    (Placer { wrap: q.wrap, ..placer_next(Placer { wrap: false, ..q }, st.spacing.item_spacing).0 }, hit)
}

/// The placer before the `j`-th key of a row of `keys` (typing their `shift` characters) that
/// starts at the placer `p` (see [`key_step`]).
#[verifier::opaque]
pub open spec fn row_placer<COL>(
    st: Style<COL>,
    tl: Point,
    inter: Interaction,
    covered: bool,
    p: Placer,
    keys: Seq<Key>,
    shift: bool,
    j: int,
) -> Placer
    decreases j,
{
    if j <= 0 {
        p
    } else {
        key_step(st, tl, inter, covered, row_placer(st, tl, inter, covered, p, keys, shift, j - 1), seq![key_char(keys[j - 1], shift)]).0
    }
}

/// Whether the release landed on the button of the `j`-th key of such a row.
#[verifier::opaque]
pub open spec fn row_hit<COL>(
    st: Style<COL>,
    tl: Point,
    inter: Interaction,
    covered: bool,
    p: Placer,
    keys: Seq<Key>,
    shift: bool,
    j: int,
) -> bool {
    key_step(st, tl, inter, covered, row_placer(st, tl, inter, covered, p, keys, shift, j), seq![key_char(keys[j], shift)]).1
}

/// A key step keeps the placer well formed, uses two steps of room and keeps the reading order:
/// a point before the placer stays before it, and a release on the key's button lands at a
/// point that was not before the placer and is before it afterwards.
proof fn lemma_key_step_in_order<COL>(
    st: Style<COL>,
    tl: Point,
    inter: Interaction,
    covered: bool,
    p: Placer,
    label: Seq<char>,
    pt: Point,
    k: int,
)
    requires
        p.wf(),
        p.room(k),
        k >= 2,
        st.spacing.item_spacing.bounded(),
        -MAX_ORIGIN <= tl.x <= MAX_ORIGIN,
        -MAX_ORIGIN <= tl.y <= MAX_ORIGIN,
    ensures
        key_step(st, tl, inter, covered, p, label).0.wf(),
        key_step(st, tl, inter, covered, p, label).0.room(k - 2),
        placed_before(pt, p, tl) ==> placed_before(pt, key_step(st, tl, inter, covered, p, label).0, tl),
        key_step(st, tl, inter, covered, p, label).1 && inter == Interaction::Release(pt) ==> !placed_before(pt, p, tl)
            && placed_before(pt, key_step(st, tl, inter, covered, p, label).0, tl),
{
    reveal(key_step);
    let font = st.default_font;
    let size = button_size(
        text_size(label, font),
        st.spacing.button_padding,
        st.widget.normal.border_width,
        st.default_widget_height,
        None,
    );
    let placed = label_measurable(label, font) && size is Ok;
    let q = if placed { placer_next(p, size->Ok_0).0 } else { p };
    if placed {
        lemma_place_in_order(p, size->Ok_0, tl, pt);
    }
    let nw = Placer { wrap: false, ..q };
    lemma_place_in_order(nw, st.spacing.item_spacing, tl, pt);
}

/// A release lands on the button of at most one key of a row: the keys are laid out one after
/// the other in reading order, so two different keys of a row are never both released on.
pub proof fn law_release_hits_one_key_of_a_row<COL>(
    st: Style<COL>,
    tl: Point,
    inter: Interaction,
    covered: bool,
    p: Placer,
    keys: Seq<Key>,
    shift: bool,
    j1: int,
    j2: int,
)
    requires
        p.wf(),
        p.room(2 * keys.len() as int),
        st.spacing.item_spacing.bounded(),
        -MAX_ORIGIN <= tl.x <= MAX_ORIGIN,
        -MAX_ORIGIN <= tl.y <= MAX_ORIGIN,
        0 <= j1 < j2 < keys.len(),
    ensures
        !(row_hit(st, tl, inter, covered, p, keys, shift, j1) && row_hit(st, tl, inter, covered, p, keys, shift, j2)),
{
    reveal(row_hit);
    if row_hit(st, tl, inter, covered, p, keys, shift, j1) && row_hit(st, tl, inter, covered, p, keys, shift, j2) {
        reveal(key_step);
        let pt = inter->Release_0;
        lemma_row_in_order(st, tl, inter, covered, p, keys, shift, j1, pt);
        lemma_row_in_order(st, tl, inter, covered, p, keys, shift, j2, pt);
        lemma_row_before_stays(st, tl, inter, covered, p, keys, shift, j1 + 1, j2, pt);
    }
}

/// The placer before the `j`-th key is well formed with room for the keys left, and the key
/// step from it keeps the reading order (see [`lemma_key_step_in_order`]).
proof fn lemma_row_in_order<COL>(
    st: Style<COL>,
    tl: Point,
    inter: Interaction,
    covered: bool,
    p: Placer,
    keys: Seq<Key>,
    shift: bool,
    j: int,
    pt: Point,
)
    requires
        p.wf(),
        p.room(2 * keys.len() as int),
        st.spacing.item_spacing.bounded(),
        -MAX_ORIGIN <= tl.x <= MAX_ORIGIN,
        -MAX_ORIGIN <= tl.y <= MAX_ORIGIN,
        0 <= j <= keys.len(),
    ensures
        row_placer(st, tl, inter, covered, p, keys, shift, j).wf(),
        row_placer(st, tl, inter, covered, p, keys, shift, j).room(2 * (keys.len() - j)),
        j < keys.len() ==> (row_hit(st, tl, inter, covered, p, keys, shift, j) && inter == Interaction::Release(pt)
            ==> !placed_before(pt, row_placer(st, tl, inter, covered, p, keys, shift, j), tl) && placed_before(
            pt,
            row_placer(st, tl, inter, covered, p, keys, shift, j + 1),
            tl,
        )),
    decreases j,
{
    reveal(row_placer);
    reveal(row_hit);
    if j > 0 {
        lemma_row_in_order(st, tl, inter, covered, p, keys, shift, j - 1, pt);
        let pj = row_placer(st, tl, inter, covered, p, keys, shift, j - 1);
        lemma_key_step_in_order(st, tl, inter, covered, pj, seq![key_char(keys[j - 1], shift)], pt, 2 * (keys.len() - (j - 1)));
    }
    if j < keys.len() {
        let pj = row_placer(st, tl, inter, covered, p, keys, shift, j);
        lemma_key_step_in_order(st, tl, inter, covered, pj, seq![key_char(keys[j], shift)], pt, 2 * (keys.len() - j));
        assert(row_placer(st, tl, inter, covered, p, keys, shift, j + 1) == key_step(st, tl, inter, covered, pj, seq![key_char(keys[j], shift)]).0);
    }
}

/// A point before the placer before the `a`-th key stays before the placers of later keys.
proof fn lemma_row_before_stays<COL>(
    st: Style<COL>,
    tl: Point,
    inter: Interaction,
    covered: bool,
    p: Placer,
    keys: Seq<Key>,
    shift: bool,
    a: int,
    b: int,
    pt: Point,
)
    requires
        p.wf(),
        p.room(2 * keys.len() as int),
        st.spacing.item_spacing.bounded(),
        -MAX_ORIGIN <= tl.x <= MAX_ORIGIN,
        -MAX_ORIGIN <= tl.y <= MAX_ORIGIN,
        0 <= a <= b <= keys.len(),
        placed_before(pt, row_placer(st, tl, inter, covered, p, keys, shift, a), tl),
    ensures
        placed_before(pt, row_placer(st, tl, inter, covered, p, keys, shift, b), tl),
    decreases b - a,
{
    reveal(row_placer);
    if a < b {
        lemma_row_in_order(st, tl, inter, covered, p, keys, shift, a, pt);
        let pa = row_placer(st, tl, inter, covered, p, keys, shift, a);
        lemma_key_step_in_order(st, tl, inter, covered, pa, seq![key_char(keys[a], shift)], pt, 2 * (keys.len() - a));
        assert(row_placer(st, tl, inter, covered, p, keys, shift, a + 1) == key_step(st, tl, inter, covered, pa, seq![key_char(keys[a], shift)]).0);
        lemma_row_before_stays(st, tl, inter, covered, p, keys, shift, a + 1, b, pt);
    }
}

/// What a row of `keys` does to the text `before`, leaving `after`, and whether a key was
/// `clicked`: when the release landed on the button of the `j`-th key, that key's character is
/// typed (when it fits in `cap` bytes, else the text stays); a key was clicked exactly when the
/// release landed on one.
#[verifier::opaque]
pub open spec fn row_types_released_key<COL>(
    st: Style<COL>,
    tl: Point,
    inter: Interaction,
    covered: bool,
    p: Placer,
    keys: Seq<Key>,
    shift: bool,
    before: Seq<char>,
    after: Seq<char>,
    cap: int,
    clicked: bool,
) -> bool {
    &&& forall|j: int|
        0 <= j < keys.len() && #[trigger] row_hit(st, tl, inter, covered, p, keys, shift, j) ==> if byte_len(before)
            + encode_scalar(key_char(keys[j], shift) as u32).len() <= cap {
            after == before.push(key_char(keys[j], shift))
        } else {
            after == before
        }
    &&& clicked == exists|j: int| 0 <= j < keys.len() && #[trigger] row_hit(st, tl, inter, covered, p, keys, shift, j)
}

/// Adds the key button for `c` to the current row with the next smartstate of the provider,
/// followed by the item spacing (as [`Ui::add_horizontal`] does); says whether it was clicked.
#[verifier::rlimit(100)]
fn char_key<COL: Copy, const M: usize>(ui: &mut Ui<'_, COL>, c: char, sp: &mut Option<&mut SmartstateProvider<M>>) -> (hit: bool)
    requires
        old(ui).wf(),
        !old(ui).framebuf_active(),
        old(ui).placer().room(2),
        provider_has(*old(sp), 1),
    ensures
        final(ui).wf(),
        !final(ui).framebuf_active(),
        final(ui).unchanged_frame(*old(ui)),
        ordered_step(*old(ui), *final(ui), hit),
        final(ui).placer().within_steps(old(ui).placer(), 2),
        provider_moved(*old(sp), *final(sp), 1),
        *old(sp) matches Some(p) ==> (*final(sp) matches Some(q) && *final(q) == *final(p)),
        kept_below(*old(sp), *final(sp), provider_at(*old(sp))),
        final(ui).interaction() == old(ui).interaction(),
        final(ui).popup_showing() == old(ui).popup_showing(),
        final(ui).placer() == key_step(
            old(ui).style_spec(),
            old(ui).bounds().top_left,
            old(ui).interaction(),
            old(ui).popup_showing(),
            old(ui).placer(),
            seq![c],
        ).0,
        hit == key_step(
            old(ui).style_spec(),
            old(ui).bounds().top_left,
            old(ui).interaction(),
            old(ui).popup_showing(),
            old(ui).placer(),
            seq![c],
        ).1,
{
    let mut label = String::new();
    push_char(&mut label, c);
    proof {
        lemma_byte_len_push(Seq::<char>::empty(), c);
        assert(label@ =~= seq![c]);
        assert(encode_utf8(Seq::<char>::empty()) =~= Seq::<u8>::empty());
        assert(Seq::<char>::empty().push(c) =~= seq![c]);
    }
    let ghost before = *ui;
    let raw = match sp.as_mut() {
        Some(p) => {
            let mut b = Button::<COL>::new(label.as_str()).smartstate(p.nxt());
            b.draw(ui)
        },
        None => {
            let mut b = Button::<COL>::new(label.as_str());
            b.draw(ui)
        },
    };
    let ghost mid = ui.placer();
    ui.outline_placed(&raw);
    let hit = match raw {
        Ok(resp) => resp.clicked(),
        Err(_) => false,
    };
    let spacing = ui.style().spacing.item_spacing;
    let _ = ui.allocate_space_no_wrap(spacing);
    proof {
        reveal(key_step);
        lemma_widget_in_order(before, mid, raw);
        let tl = before.bounds().top_left;
        let nw = Placer { wrap: false, ..mid };
        assert forall|pt: Point| #[trigger] placed_before(pt, before.placer(), tl) implies placed_before(pt, ui.placer(), tl) by {
            lemma_place_in_order(nw, spacing, tl, pt);
        }
        if hit {
            let pt = before.interaction()->Release_0;
            lemma_place_in_order(nw, spacing, tl, pt);
        }
    }
    hit
}

/// Every key of the drawn rows types a character of [`keyboard_chars`].
proof fn lemma_rows_allowed(layout: Layout, draw_num_row: bool, sh: bool)
    ensures
        draw_num_row ==> forall|i: int|
            0 <= i < layout.num_row@.len() ==> keyboard_chars(layout, draw_num_row, sh).contains(
                #[trigger] key_char(layout.num_row@[i], sh),
            ),
        forall|i: int|
            0 <= i < layout.row_1@.len() ==> keyboard_chars(layout, draw_num_row, sh).contains(
                #[trigger] key_char(layout.row_1@[i], sh),
            ),
        forall|i: int|
            0 <= i < layout.row_2@.len() ==> keyboard_chars(layout, draw_num_row, sh).contains(
                #[trigger] key_char(layout.row_2@[i], sh),
            ),
        forall|i: int|
            0 <= i < layout.row_3@.len() ==> keyboard_chars(layout, draw_num_row, sh).contains(
                #[trigger] key_char(layout.row_3@[i], sh),
            ),
        keyboard_chars(layout, draw_num_row, sh).contains(' '),
{
    assert forall|i: int| draw_num_row && 0 <= i < layout.num_row@.len() implies keyboard_chars(layout, draw_num_row, sh).contains(
        #[trigger] key_char(layout.num_row@[i], sh),
    ) by {
        assert(layout.num_row_keys().contains(layout.num_row@[i]));
    }
    assert forall|i: int| 0 <= i < layout.row_1@.len() implies keyboard_chars(layout, draw_num_row, sh).contains(
        #[trigger] key_char(layout.row_1@[i], sh),
    ) by {
        assert(layout.row_1_keys().contains(layout.row_1@[i]));
    }
    assert forall|i: int| 0 <= i < layout.row_2@.len() implies keyboard_chars(layout, draw_num_row, sh).contains(
        #[trigger] key_char(layout.row_2@[i], sh),
    ) by {
        assert(layout.row_2_keys().contains(layout.row_2@[i]));
    }
    assert forall|i: int| 0 <= i < layout.row_3@.len() implies keyboard_chars(layout, draw_num_row, sh).contains(
        #[trigger] key_char(layout.row_3@[i], sh),
    ) by {
        assert(layout.row_3_keys().contains(layout.row_3@[i]));
    }
}

/// Draws the rows of character keys (the number row when `draw_num_row`) and the backspace
/// key, padded with `pad`. Returns whether a key was clicked, whether `text` changed, and the
/// last padding.
#[verifier::rlimit(100)]
fn keyboard_rows<COL: Copy, const M: usize, const N: usize>(
    ui: &mut Ui<'_, COL>,
    layout: &Layout<'_>,
    sp: &mut Option<&mut SmartstateProvider<M>>,
    draw_num_row: bool,
    pad: bool,
    sh: bool,
    text: &mut String,
    spacing: u32,
) -> (r: (bool, bool, u32))
    requires
        old(ui).wf(),
        !old(ui).framebuf_active(),
        old(ui).placer().room(2 * keyboard_keys(*layout, draw_num_row) + 12),
        provider_has(*old(sp), keyboard_keys(*layout, draw_num_row)),
        byte_len(old(text)@) <= N,
    ensures
        final(ui).wf(),
        !final(ui).framebuf_active(),
        final(ui).unchanged_frame(*old(ui)),
        final(ui).placer().within_steps(old(ui).placer(), 2 * keyboard_keys(*layout, draw_num_row) + 12),
        provider_moved(*old(sp), *final(sp), keyboard_keys(*layout, draw_num_row)),
        *old(sp) matches Some(p) ==> (*final(sp) matches Some(q) && *final(q) == *final(p)),
        kept_below(*old(sp), *final(sp), provider_at(*old(sp))),
        byte_len(final(text)@) <= N,
        typed(old(text)@, final(text)@, keyboard_chars(*layout, draw_num_row, sh)),
        !r.1 ==> final(text)@ == old(text)@,
        r.1 ==> r.0,
        ordered_step(*old(ui), *final(ui), r.0),
        r.1 == (final(text)@ != old(text)@),
        one_edit(old(text)@, final(text)@, keyboard_chars(*layout, draw_num_row, sh)),
        !r.0 ==> final(text)@ == old(text)@,
{
    let ghost base = text@;
    let ghost allowed = keyboard_chars(*layout, draw_num_row, sh);
    proof {
        lemma_typed_refl(base, allowed);
        lemma_rows_allowed(*layout, draw_num_row, sh);
    }
    let mut prev_pad: u32 = 0;
    let mut clicked = false;
    let mut changed = false;
    let ghost t0 = text@;
    proof {
        lemma_ordered_refl(*ui);
    }
    if draw_num_row {
        if pad {
            let p = key_padding(layout.row_1.len() as u64, layout.num_row.len() as u64, spacing);
            let ghost u = *ui;
            pad_space(ui, p);
            proof { lemma_ordered_compose(*old(ui), u, *ui, clicked, false); }
        }
        let ghost u = *ui;
        let (c, t) = key_row(ui, layout.num_row, sh, sp, text, N, Ghost(base), Ghost(allowed));
        proof { lemma_ordered_compose(*old(ui), u, *ui, clicked, c); }
        clicked = c;
        changed = t;
        let ghost u = *ui;
        ui.new_row();
        proof { lemma_ordered_compose(*old(ui), u, *ui, clicked, false); }
        if pad {
            let p = key_padding(layout.num_row.len() as u64, layout.row_1.len() as u64, spacing);
            let ghost u = *ui;
            pad_space(ui, p);
            proof { lemma_ordered_compose(*old(ui), u, *ui, clicked, false); }
            prev_pad = p;
        }
    }
    assert(changed == (text@ != t0) && one_edit(t0, text@, allowed) && (!clicked ==> text@ == t0));
    let ghost u = *ui;
    let (c, t) = key_row(ui, layout.row_1, sh, sp, text, N, Ghost(base), Ghost(allowed));
    proof { lemma_ordered_compose(*old(ui), u, *ui, clicked, c); }
    clicked = clicked || c;
    changed = changed || t;
    assert(changed == (text@ != t0) && one_edit(t0, text@, allowed) && (!clicked ==> text@ == t0));
    let ghost u = *ui;
    let back = ui.add(IconButton::<COL>::new(Icon::new("navigation::NavArrowLeft", 16))).clicked();
    proof { lemma_ordered_compose(*old(ui), u, *ui, clicked, back); }
    if back {
        clicked = true;
        let ghost before = text@;
        if pop_last(text) {
            changed = true;
            proof {
                lemma_typed_pop(base, before, allowed);
            }
        }
    }
    assert(changed == (text@ != t0) && one_edit(t0, text@, allowed) && (!clicked ==> text@ == t0));
    if pad {
        let p = stagger(key_padding(layout.row_1.len() as u64 + 1, layout.row_2.len() as u64, spacing), prev_pad);
        let ghost u = *ui;
        pad_space(ui, p);
        proof { lemma_ordered_compose(*old(ui), u, *ui, clicked, false); }
        prev_pad = p;
    }
    let ghost u = *ui;
    let (c, t) = key_row(ui, layout.row_2, sh, sp, text, N, Ghost(base), Ghost(allowed));
    proof { lemma_ordered_compose(*old(ui), u, *ui, clicked, c); }
    clicked = clicked || c;
    changed = changed || t;
    assert(changed == (text@ != t0) && one_edit(t0, text@, allowed) && (!clicked ==> text@ == t0));
    let ghost u = *ui;
    ui.new_row();
    proof { lemma_ordered_compose(*old(ui), u, *ui, clicked, false); }
    if pad {
        let p = stagger(key_padding(layout.row_2.len() as u64, layout.row_3.len() as u64, spacing), prev_pad);
        let ghost u = *ui;
        pad_space(ui, p);
        proof { lemma_ordered_compose(*old(ui), u, *ui, clicked, false); }
        prev_pad = p;
    }
    let ghost u = *ui;
    let (c, t) = key_row(ui, layout.row_3, sh, sp, text, N, Ghost(base), Ghost(allowed));
    proof { lemma_ordered_compose(*old(ui), u, *ui, clicked, c); }
    (clicked || c, changed || t, prev_pad)
}

/// Draws the shift key (highlighted while shift is on), the space bar and the close key.
/// Shift toggles `shift` and invalidates the smartstates from `first` on; close toggles `open`.
/// Returns whether a key was clicked and whether anything changed.
fn keyboard_controls<COL: Copy, const M: usize, const N: usize>(
    ui: &mut Ui<'_, COL>,
    sp: &mut Option<&mut SmartstateProvider<M>>,
    pad: bool,
    shift: &mut bool,
    open: &mut bool,
    text: &mut String,
    first: usize,
    prev_pad: u32,
    row_3_len: usize,
    spacing: u32,
    Ghost(base): Ghost<Seq<char>>,
    Ghost(allowed): Ghost<Set<char>>,
) -> (r: (bool, bool))
    requires
        typed(base, old(text)@, allowed),
        allowed.contains(' '),
        old(ui).wf(),
        !old(ui).framebuf_active(),
        old(ui).placer().room(9),
        row_3_len < 1024,
        provider_has(*old(sp), 3),
        first <= provider_at(*old(sp)),
        byte_len(old(text)@) <= N,
    ensures
        final(ui).wf(),
        !final(ui).framebuf_active(),
        final(ui).unchanged_frame(*old(ui)),
        final(ui).placer().row > old(ui).placer().row,
        final(ui).placer().within_steps(old(ui).placer(), 9),
        provider_moved(*old(sp), *final(sp), 3),
        *old(sp) matches Some(p) ==> (*final(sp) matches Some(q) && *final(q) == *final(p)),
        kept_below(*old(sp), *final(sp), first as int),
        byte_len(final(text)@) <= N,
        typed(base, final(text)@, allowed),
        !r.1 ==> final(text)@ == old(text)@ && *final(shift) == *old(shift) && *final(open) == *old(open),
        r.1 ==> r.0,
        ordered_step(*old(ui), *final(ui), r.0),
        r.1 == (final(text)@ != old(text)@ || *final(shift) != *old(shift) || *final(open) != *old(open)),
        final(text)@ == old(text)@ || final(text)@ == old(text)@.push(' '),
        (if final(text)@ != old(text)@ { 1int } else { 0 }) + (if *final(shift) != *old(shift) { 1int } else { 0 }) + (
        if *final(open) != *old(open) { 1int } else { 0 }) <= 1,
{
    let mut clicked = false;
    let mut changed = false;
    let sh: bool = *shift;
    let saved = *ui.style();
    let ghost u0 = *ui;
    if sh {
        let st = ui.style_mut();
        st.item_background_color = saved.primary_color;
    }
    assert(ordered_step(u0, *ui, false)) by {
        assert forall|pt: Point| #[trigger] placed_before(pt, u0.placer(), u0.bounds().top_left) implies placed_before(pt, ui.placer(), u0.bounds().top_left) by {}
    }
    let ghost u1 = *ui;
    let hit = icon_key(ui, IconButton::<COL>::new(Icon::new("navigation::NavArrowUp", 16)), sp);
    let ghost u2 = *ui;
    *ui.style_mut() = saved;
    assert(ordered_step(u2, *ui, false)) by {
        assert forall|pt: Point| #[trigger] placed_before(pt, u2.placer(), u2.bounds().top_left) implies placed_before(pt, ui.placer(), u2.bounds().top_left) by {}
    }
    proof {
        lemma_ordered_compose(*old(ui), u1, u2, false, hit);
        lemma_ordered_compose(*old(ui), u2, *ui, hit, false);
    }
    if hit {
        clicked = true;
        changed = true;
        *shift = !sh;
        invalidate_from(sp, first);
    }
    if pad {
        let p = stagger(key_padding(row_3_len as u64 + 1, 6, spacing), prev_pad);
        let ghost u = *ui;
        pad_space(ui, p);
        proof { lemma_ordered_compose(*old(ui), u, *ui, clicked, false); }
    }
    let ghost u = *ui;
    let space = text_key(ui, "|                |", sp);
    proof { lemma_ordered_compose(*old(ui), u, *ui, clicked, space); }
    if space {
        clicked = true;
        let ghost before = text@;
        if push_limited(text, ' ', N) {
            changed = true;
            proof {
                lemma_typed_push(base, before, ' ', allowed);
            }
        }
    }
    let ghost u = *ui;
    let close = icon_key(ui, IconButton::<COL>::new(Icon::new("navigation::NavArrowDown", 16)), sp);
    proof { lemma_ordered_compose(*old(ui), u, *ui, clicked, close); }
    if close {
        clicked = true;
        changed = true;
        *open = !*open;
    }
    (clicked, changed)
}

/// Draw a keyboard to the screen using buttons for each key; keys add characters to `text`,
/// the backspace key removes the last one.
///
/// The keyboard switches between lower and upper case with the shift key, which toggles
/// `shift`, and is closed with its close key, which toggles `open`. A closed keyboard is not
/// drawn. With a [`SmartstateProvider`], the keys use its smartstates (one for the open state,
/// then one per key), and everything after it is redrawn when the open state changed.
///
/// `text` holds at most `N` bytes, as a `heapless::String<N>` would: a key whose character does
/// not fit changes nothing. With `pad`, the rows are padded to appear more centered.
///
/// Returns a response from [`InternalResponse::empty`]: `changed` when `text`, `shift` or
/// `open` changed, `clicked` when a key was pressed, `down` when the keyboard was redrawn.
pub fn draw_keyboard<COL: Copy, const M: usize, const N: usize>(
    ui: &mut Ui<'_, COL>,
    layout: &Layout<'_>,
    smartstates: Option<&mut SmartstateProvider<M>>,
    draw_num_row: bool,
    pad: bool,
    shift: &mut bool,
    open: &mut bool,
    text: &mut String,
) -> (r: Response)
    requires
        old(ui).wf(),
        !old(ui).framebuf_active(),
        *old(open) ==> old(ui).placer().room(2 * keyboard_keys(*layout, draw_num_row) + 24),
        provider_has(smartstates, if *old(open) { keyboard_keys(*layout, draw_num_row) + 4 } else { 1 }),
        byte_len(old(text)@) <= N,
    ensures
        final(ui).wf(),
        !final(ui).framebuf_active(),
        final(ui).unchanged_frame(*old(ui)),
        byte_len(final(text)@) <= N,
        r.internal == InternalResponse::spec_empty(),
        r.redraw,
        r.error is None,
        !*old(open) ==> !r.click && !r.changed && !r.down,
        *old(open) ==> r.down == keyboard_redraw(smartstates, true),
        !r.changed ==> final(text)@ == old(text)@ && *final(shift) == *old(shift) && *final(open) == *old(open),
        r.changed ==> r.click,
        typed(old(text)@, final(text)@, keyboard_chars(*layout, draw_num_row, *old(shift))),
        !*old(open) ==> final(text)@ == old(text)@ && *final(shift) == *old(shift) && !*final(open),
        !*old(open) ==> final(ui).placer() == old(ui).placer(),
        *old(open) ==> final(ui).placer().row > old(ui).placer().row,
        !*old(open) ==> final(ui).commands() == if keyboard_redraw(smartstates, false)
            && old(ui).placer().pos.y <= old(ui).placer().bounds.height {
            old(ui).commands().push(bottom_clear(old(ui).placer(), old(ui).style_spec()))
        } else {
            old(ui).commands()
        },
        smartstates matches Some(p) ==> final(p).pos() == p.pos() + if *old(open) {
            keyboard_keys(*layout, draw_num_row) + 4
        } else {
            1
        },
        smartstates matches Some(p) ==> (!*old(open) ==> final(p).states() == keyboard_open_states(*p, false)),
        smartstates matches Some(p) ==> (*old(open) ==> final(p).states()[p.pos() as int] == Smartstate::spec_state(1)),
        smartstates matches Some(p) ==> (*old(open) ==> forall|i: int|
            0 <= i < p.pos() ==> #[trigger] final(p).states()[i] == p.states()[i]),
        r.changed == (final(text)@ != old(text)@ || *final(shift) != *old(shift) || *final(open) != *old(open)),
        one_edit(old(text)@, final(text)@, keyboard_chars(*layout, draw_num_row, *old(shift))),
        (if final(text)@ != old(text)@ { 1int } else { 0 }) + (if *final(shift) != *old(shift) { 1int } else { 0 }) + (
        if *final(open) != *old(open) { 1int } else { 0 }) <= 1,
        *old(open) ==> ordered_step(*old(ui), *final(ui), r.click),
{
    let mut sp = smartstates;
    let is_open: bool = *open;
    let redraw = open_state_step(&mut sp, is_open);
    if redraw {
        invalidate_rest(&mut sp);
        if ui.within_height() {
            let _ = ui.clear_to_bottom();
        }
    }
    if !is_open {
        proof {
            lemma_typed_refl(text@, keyboard_chars(*layout, draw_num_row, *shift));
        }
        return Response::new(InternalResponse::empty());
    }
    let first: usize = provider_pos(&sp);
    let spacing: u32 = ui.style().spacing.item_spacing.width;
    let ghost base = text@;
    let ghost allowed = keyboard_chars(*layout, draw_num_row, *shift);
    let ghost u0 = *ui;
    assert(ordered_step(*old(ui), u0, false)) by {
        assert forall|pt: Point| #[trigger] placed_before(pt, old(ui).placer(), old(ui).bounds().top_left) implies placed_before(pt, u0.placer(), old(ui).bounds().top_left) by {}
    }
    let (c1, t1, prev_pad) = keyboard_rows::<COL, M, N>(ui, layout, &mut sp, draw_num_row, pad, *shift, text, spacing);
    let ghost u1 = *ui;
    let ghost text1 = text@;
    proof {
        lemma_rows_allowed(*layout, draw_num_row, *old(shift));
        lemma_ordered_compose(*old(ui), u0, u1, false, c1);
    }
    let (c2, t2) = keyboard_controls::<COL, M, N>(
        ui,
        &mut sp,
        pad,
        shift,
        open,
        text,
        first,
        prev_pad,
        layout.row_3.len(),
        spacing,
        Ghost(base),
        Ghost(allowed),
    );
    proof {
        lemma_ordered_compose(*old(ui), u1, *ui, c1, c2);
    }
    let clicked = c1 || c2;
    let changed = t1 || t2;
    Response::new(InternalResponse::empty()).set_clicked(clicked).set_changed(changed).set_down(redraw)
}

} // verus!
