//! Monospace fonts and the extent of text drawn with them.

use crate::geometry::{MAX_EXTENT, Size};
use embedded_graphics::geometry::{Dimensions, Point as EgPoint, Size as EgSize};
use embedded_graphics::image::ImageRaw;
use embedded_graphics::mono_font::mapping::StrGlyphMapping;
use embedded_graphics::mono_font::{DecorationDimensions, MonoTextStyle};
use embedded_graphics::pixelcolor::BinaryColor;
use embedded_graphics::text::{Alignment, Text};
use vstd::prelude::*;
use vstd::std_specs::iter::IteratorSpec;
use vstd::string::StringSliceAdditionalSpecFns;

verus! {

/// A monospace font, by name and metrics.
///
/// `name` names the embedded-graphics font whose glyphs are drawn (such as
/// `"ascii::FONT_9X15"`); the metrics are those of that font, and they are all that layout reads.
#[derive(Clone, Copy, Debug, PartialEq, Eq)]
pub struct MonoFont {
    pub name: &'static str,
    /// Size of a single character in pixel.
    pub character_size: Size,
    /// Spacing between characters.
    pub character_spacing: u32,
    /// Offset from the top of the glyph bounding box to the baseline.
    pub baseline: u32,
}

impl MonoFont {
    /// Metrics small enough for the layout arithmetic.
    pub open spec fn wf(&self) -> bool {
        &&& self.character_size.bounded()
        &&& self.character_spacing <= MAX_EXTENT
        &&& self.baseline <= MAX_EXTENT
    }

    pub fn new(name: &'static str, width: u32, height: u32, spacing: u32, baseline: u32) -> (f: Self)
        ensures
            f.name == name,
            f.character_size == (Size { width, height }),
            f.character_spacing == spacing,
            f.baseline == baseline,
    {
        MonoFont { name, character_size: Size::new(width, height), character_spacing: spacing, baseline }
    }

    /// embedded-graphics' `ascii::FONT_9X15`.
    pub fn ascii_9x15() -> (f: Self)
        ensures
            f.wf(),
            f.character_size == (Size { width: 9, height: 15 }),
            f.character_spacing == 0,
            f.baseline == 11,
    {
        MonoFont::new("ascii::FONT_9X15", 9, 15, 0, 11)
    }

    /// embedded-graphics' `iso_8859_10::FONT_9X15`.
    pub fn iso_8859_10_9x15() -> (f: Self)
        ensures
            f.wf(),
            f.character_size == (Size { width: 9, height: 15 }),
            f.character_spacing == 0,
            f.baseline == 11,
    {
        MonoFont::new("iso_8859_10::FONT_9X15", 9, 15, 0, 11)
    }

    /// embedded-graphics' `ascii::FONT_6X10`.
    pub fn ascii_6x10() -> (f: Self)
        ensures
            f.wf(),
            f.character_size == (Size { width: 6, height: 10 }),
            f.character_spacing == 0,
            f.baseline == 7,
    {
        MonoFont::new("ascii::FONT_6X10", 6, 10, 0, 7)
    }

    /// embedded-graphics' `ascii::FONT_10X20`.
    pub fn ascii_10x20() -> (f: Self)
        ensures
            f.wf(),
            f.character_size == (Size { width: 10, height: 20 }),
            f.character_spacing == 0,
            f.baseline == 15,
    {
        MonoFont::new("ascii::FONT_10X20", 10, 20, 0, 15)
    }
}

/// The lines of `text`: the pieces between its line breaks (`'\n'`), the last one included
/// (an empty text has one empty line).
pub open spec fn text_lines(text: Seq<char>) -> Seq<Seq<char>>
    decreases text.len(),
{
    if text.len() == 0 {
        seq![Seq::<char>::empty()]
    } else {
        let prev = text_lines(text.drop_last());
        if text.last() == '\n' {
            prev.push(Seq::<char>::empty())
        } else {
            prev.update(prev.len() - 1, prev.last().push(text.last()))
        }
    }
}

/// The width of `n` characters in a monospace font: `n` times the character width plus
/// spacing, less one spacing (never below 0).
pub open spec fn chars_width(n: int, char_width: u32, spacing: u32) -> int {
    let w = n * (char_width + spacing) - spacing;
    if w < 0 { 0 } else { w }
}

/// The width of one line as drawn: its characters, a trailing `'\r'` left out.
pub open spec fn line_width(line: Seq<char>, char_width: u32, spacing: u32) -> int {
    let n = if line.len() > 0 && line.last() == '\r' { line.len() - 1 } else { line.len() as int };
    chars_width(n, char_width, spacing)
}

/// The corners (left, top, right, bottom, inclusive) of the box around the first `n` lines,
/// each line `char_height` high below the one before, starting at the left edge or, when
/// `centered`, centered on it: moved left by half its width less one, rounded down, where
/// this width counts a trailing `'\r'` (embedded-graphics centers a line before it drops
/// the `'\r'`). A line without width or height adds nothing. `None` when no line adds
/// anything.
pub open spec fn lines_box(lines: Seq<Seq<char>>, n: int, char_width: u32, char_height: u32, spacing: u32, centered: bool) -> Option<(int, int, int, int)>
    decreases n,
{
    if n <= 0 {
        None
    } else {
        let prev = lines_box(lines, n - 1, char_width, char_height, spacing, centered);
        let w = line_width(lines[n - 1], char_width, spacing);
        if w == 0 || char_height == 0 {
            prev
        } else {
            let raw = chars_width(lines[n - 1].len() as int, char_width, spacing);
            let x = if centered && raw >= 1 { -((raw - 1) / 2) } else { 0 };
            let y = (n - 1) * char_height;
            let r = x + w - 1;
            let b = y + char_height - 1;
            match prev {
                None => Some((x, y, r, b)),
                Some((px, py, pr, pb)) => Some((
                    if px < x { px } else { x },
                    if py < y { py } else { y },
                    if pr > r { pr } else { r },
                    if pb > b { pb } else { b },
                )),
            }
        }
    }
}

/// The size of the bounding box of `text` in a monospace font with the given character size
/// and spacing, left aligned or centered: that of the box around its lines, or nothing when no
/// line has width.
pub open spec fn text_extent(text: Seq<char>, char_width: u32, char_height: u32, spacing: u32, centered: bool) -> Size {
    let lines = text_lines(text);
    match lines_box(lines, lines.len() as int, char_width, char_height, spacing, centered) {
        None => Size { width: 0, height: 0 },
        Some((x, y, r, b)) => Size { width: (r - x + 1) as u32, height: (b - y + 1) as u32 },
    }
}

/// Size of the bounding box of `Text::bounding_box` in embedded-graphics for `text`, left
/// aligned, in a monospace style with the given character size and spacing.
pub open spec fn text_extent_left(text: Seq<char>, char_width: u32, char_height: u32, spacing: u32) -> Size {
    text_extent(text, char_width, char_height, spacing, false)
}

/// As [`text_extent_left`], for center-aligned text.
pub open spec fn text_extent_centered(text: Seq<char>, char_width: u32, char_height: u32, spacing: u32) -> Size {
    text_extent(text, char_width, char_height, spacing, true)
}

/// The extent of `text` drawn left aligned in `font`.
pub open spec fn text_size(text: Seq<char>, font: MonoFont) -> Size {
    text_extent_left(text, font.character_size.width, font.character_size.height, font.character_spacing)
}

/// The extent of `text` drawn center aligned in `font`.
pub open spec fn text_size_centered(text: Seq<char>, font: MonoFont) -> Size {
    text_extent_centered(text, font.character_size.width, font.character_size.height, font.character_spacing)
}

/// Measures `text` with embedded-graphics: the size of `Text::bounding_box` for the text in a
/// `MonoTextStyle` whose font has the given metrics (glyph images play no part in the
/// measurement), left aligned. That box spans the boxes of the lines (split at `'\n'`, a
/// trailing `'\r'` dropped) that have a width: each as wide as its characters times width plus
/// spacing, less one spacing, and one character high, line below line.
#[verifier::external_body]
fn eg_text_extent_left(text: &str, char_width: u32, char_height: u32, spacing: u32) -> (s: Size)
    requires
        text.len() * (char_width + spacing) <= i32::MAX,
        (text.len() + 2) * char_height <= i32::MAX,
        char_width + spacing <= i32::MAX,
        char_height * 100 <= u32::MAX,
    ensures
        s == text_extent_left(text@, char_width, char_height, spacing),
{
    let mapping = StrGlyphMapping::new("", 0);
    let font = embedded_graphics::mono_font::MonoFont {
        image: ImageRaw::new(&[], 1),
        glyph_mapping: &mapping,
        character_size: EgSize::new(char_width, char_height),
        character_spacing: spacing,
        baseline: 0,
        strikethrough: DecorationDimensions::new(0, 0),
        underline: DecorationDimensions::new(0, 0),
    };
    let bb = Text::new(text, EgPoint::zero(), MonoTextStyle::new(&font, BinaryColor::On)).bounding_box();
    Size { width: bb.size.width, height: bb.size.height }
}

/// As [`eg_text_extent_left`], with the text center aligned.
#[verifier::external_body]
fn eg_text_extent_centered(text: &str, char_width: u32, char_height: u32, spacing: u32) -> (s: Size)
    requires
        text.len() * (char_width + spacing) <= i32::MAX,
        (text.len() + 2) * char_height <= i32::MAX,
        char_width + spacing <= i32::MAX,
        char_height * 100 <= u32::MAX,
    ensures
        s == text_extent_centered(text@, char_width, char_height, spacing),
{
    let mapping = StrGlyphMapping::new("", 0);
    let font = embedded_graphics::mono_font::MonoFont {
        image: ImageRaw::new(&[], 1),
        glyph_mapping: &mapping,
        character_size: EgSize::new(char_width, char_height),
        character_spacing: spacing,
        baseline: 0,
        strikethrough: DecorationDimensions::new(0, 0),
        underline: DecorationDimensions::new(0, 0),
    };
    let mut t = Text::new(text, EgPoint::zero(), MonoTextStyle::new(&font, BinaryColor::On));
    t.text_style.alignment = Alignment::Center;
    let bb = t.bounding_box();
    Size { width: bb.size.width, height: bb.size.height }
}

/// Whether `text` is short enough to be measured in `font`: embedded-graphics adds the
/// character width and spacing and multiplies the sum by the number of characters in `u32`
/// arithmetic, and places lines and their extents in `i32` coordinates. This keeps the width
/// of all characters and the height of as many lines as there are bytes (plus one, as many
/// as there can be lines) within `i32`, through the byte length (never below the number of
/// characters), and the line height, which it takes as 100 percent of the character height
/// computed in `u32`, from overflowing.
pub open spec fn measurable(text: &str, font: MonoFont) -> bool {
    &&& text.len() * (font.character_size.width + font.character_spacing) <= i32::MAX
    &&& (text.len() + 2) * font.character_size.height <= i32::MAX
    &&& font.character_size.width + font.character_spacing <= i32::MAX
    &&& font.character_size.height * 100 <= u32::MAX
}

/// The size of `text` drawn left aligned in `font`, or `None` when the text is too long to be
/// measured.
pub fn measure_text(text: &str, font: &MonoFont) -> (s: Option<Size>)
    ensures
        measurable(text, *font) ==> s == Some(text_size(text@, *font)),
        !measurable(text, *font) ==> s is None,
{
    if !fits_measure(text, font) {
        return None;
    }
    Some(eg_text_extent_left(text, font.character_size.width, font.character_size.height, font.character_spacing))
}

/// The size of `text` drawn center aligned in `font`, or `None` when the text is too long to
/// be measured.
pub fn measure_text_centered(text: &str, font: &MonoFont) -> (s: Option<Size>)
    ensures
        measurable(text, *font) ==> s == Some(text_size_centered(text@, *font)),
        !measurable(text, *font) ==> s is None,
{
    if !fits_measure(text, font) {
        return None;
    }
    Some(eg_text_extent_centered(text, font.character_size.width, font.character_size.height, font.character_spacing))
}

fn fits_measure(text: &str, font: &MonoFont) -> (b: bool)
    ensures
        b == measurable(text, *font),
{
    let n: u128 = text.len() as u128;
    let adv: u128 = font.character_size.width as u128 + font.character_spacing as u128;
    let h: u128 = font.character_size.height as u128;
    assert(n * adv <= 0xffff_ffff_ffff_ffffu128 * 0x1_ffff_fffeu128) by (nonlinear_arith)
        requires
            n <= 0xffff_ffff_ffff_ffffu128,
            adv <= 0x1_ffff_fffeu128,
    ;
    assert((n + 2) * h <= 0x1_0000_0000_0000_0001u128 * 0xffff_ffffu128) by (nonlinear_arith)
        requires
            n <= 0xffff_ffff_ffff_ffffu128,
            h <= 0xffff_ffffu128,
    ;
    n * adv <= 0x7fff_ffffu128 && (n + 2) * h <= 0x7fff_ffffu128 && adv <= 0x7fff_ffffu128 && h * 100
        <= 0xffff_ffffu128
}

/// Calls `String::push`: the string afterwards is the one before with `c` appended.
#[verifier::external_body]
pub(crate) fn push_char(s: &mut String, c: char)
    ensures
        final(s)@ == old(s)@.push(c),
{
    s.push(c)
}

/// The first `n` characters of `text`, as a new string (all of it when `n` is larger).
pub fn char_prefix(text: &str, n: usize) -> (r: String)
    ensures
        n <= text@.len() ==> r@ == text@.take(n as int),
        n > text@.len() ==> r@ == text@,
{
    let mut out = String::new();
    let mut count: usize = 0;
    let mut chars = text.chars();
    loop
        invariant_except_break
            count <= n,
            count <= text@.len(),
            out@ == text@.take(count as int),
            chars.remaining() == text@.skip(count as int),
        ensures
            n <= text@.len() ==> out@ == text@.take(n as int),
            n > text@.len() ==> out@ == text@,
        decreases text@.len() - count,
    {
        if count >= n {
            break;
        }
        match chars.next() {
            Some(c) => {
                assert(text@.take(count + 1) =~= text@.take(count as int).push(c));
                assert(text@.skip(count + 1) =~= text@.skip(count as int).drop_first());
                push_char(&mut out, c);
                count = count + 1;
            },
            None => {
                assert(text@.take(count as int) =~= text@);
                break;
            },
        }
    }
    out
}

} // verus!
