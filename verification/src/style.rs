//! Styling: colors, metrics and fonts of the UI, with a few premade styles for RGB565 displays.

use crate::geometry::{MAX_EXTENT, Size};
use crate::text::{MonoFont, measurable, measure_text, text_size};
use embedded_graphics::pixelcolor::{Rgb565, Rgb888};
use vstd::prelude::*;
use vstd::std_specs::iter::IteratorSpec;

verus! {

#[verifier::external_type_specification]
#[verifier::external_body]
pub struct ExRgb565(Rgb565);

/// Calls `Rgb565::new(r, g, b)` of embedded-graphics (channels above their range are masked).
#[verifier::external_body]
fn rgb565(r: u8, g: u8, b: u8) -> Rgb565 {
    Rgb565::new(r, g, b)
}

/// Converts the 8-bit-per-channel color `(r, g, b)` to RGB565 with embedded-graphics'
/// `From<Rgb888> for Rgb565`, as its named web colors are defined.
#[verifier::external_body]
fn css(r: u8, g: u8, b: u8) -> Rgb565 {
    Rgb565::from(Rgb888::new(r, g, b))
}

/// Controls spacing between UI elements.
#[derive(Debug, Clone, Copy, PartialEq, Eq, Structural)]
pub struct Spacing {
    /// Space between adjacent items in the UI
    pub item_spacing: Size,
    /// Padding inside buttons and similar widgets
    pub button_padding: Size,
    /// Default padding of widgets
    pub default_padding: Size,
    /// Padding between the screen edge and the UI
    pub window_border_padding: Size,
}

impl Spacing {
    pub open spec fn wf(&self) -> bool {
        &&& self.item_spacing.bounded()
        &&& self.button_padding.bounded()
        &&& self.default_padding.bounded()
        &&& self.window_border_padding.bounded()
    }
}

/// Colors and border of a widget in one of its states.
#[derive(Debug, Clone, Copy)]
pub struct WidgetStateStyle<COL> {
    pub background_color: COL,
    pub border_color: COL,
    pub foreground_color: COL,
    pub border_width: u32,
}

/// Looks of a widget in each of its states: normal, hovered, pressed and disabled.
#[derive(Debug, Clone, Copy)]
pub struct WidgetStyle<COL> {
    pub normal: WidgetStateStyle<COL>,
    pub hover: WidgetStateStyle<COL>,
    pub active: WidgetStateStyle<COL>,
    pub disabled: WidgetStateStyle<COL>,
}

impl<COL> WidgetStyle<COL> {
    pub open spec fn wf(&self) -> bool {
        &&& self.normal.border_width <= MAX_EXTENT
        &&& self.hover.border_width <= MAX_EXTENT
        &&& self.active.border_width <= MAX_EXTENT
        &&& self.disabled.border_width <= MAX_EXTENT
    }
}

/// The style of a UI: colors, metrics and the default font.
#[derive(Debug, Clone, Copy)]
pub struct Style<COL> {
    pub background_color: COL,
    pub border_color: COL,
    pub primary_color: COL,
    pub secondary_color: COL,
    pub icon_color: COL,
    pub default_widget_height: u32,
    pub border_width: u32,
    pub default_font: MonoFont,
    pub spacing: Spacing,
    pub item_background_color: COL,
    pub highlight_item_background_color: COL,
    pub highlight_border_color: COL,
    pub highlight_border_width: u32,
    pub text_color: COL,
    pub corner_radius: u32,
    /// Looks of buttons in their states.
    pub widget: WidgetStyle<COL>,
}

impl<COL: Copy> Style<COL> {
    /// All metrics are small enough for the layout arithmetic.
    pub open spec fn wf(&self) -> bool {
        &&& self.default_widget_height <= MAX_EXTENT
        &&& self.border_width <= MAX_EXTENT
        &&& self.highlight_border_width <= MAX_EXTENT
        &&& self.corner_radius <= MAX_EXTENT
        &&& self.default_font.wf()
        &&& self.spacing.wf()
        &&& self.widget.wf()
    }

    /// A style whose widget looks are derived from its colors: normal widgets use the item
    /// background and border, hovered ones the highlight colors, pressed ones the primary color
    /// with the highlight border, and disabled ones the UI background.
    pub fn with_widget_style(
        background_color: COL,
        border_color: COL,
        primary_color: COL,
        secondary_color: COL,
        icon_color: COL,
        default_widget_height: u32,
        border_width: u32,
        default_font: MonoFont,
        spacing: Spacing,
        item_background_color: COL,
        highlight_item_background_color: COL,
        highlight_border_color: COL,
        highlight_border_width: u32,
        text_color: COL,
        corner_radius: u32,
    ) -> (s: Self)
        ensures
            s.background_color == background_color,
            s.border_color == border_color,
            s.primary_color == primary_color,
            s.secondary_color == secondary_color,
            s.icon_color == icon_color,
            s.default_widget_height == default_widget_height,
            s.border_width == border_width,
            s.default_font == default_font,
            s.spacing == spacing,
            s.item_background_color == item_background_color,
            s.highlight_item_background_color == highlight_item_background_color,
            s.highlight_border_color == highlight_border_color,
            s.highlight_border_width == highlight_border_width,
            s.text_color == text_color,
            s.corner_radius == corner_radius,
            s.widget.normal.background_color == item_background_color,
            s.widget.normal.border_color == border_color,
            s.widget.normal.foreground_color == text_color,
            s.widget.normal.border_width == border_width,
            s.widget.hover.background_color == highlight_item_background_color,
            s.widget.hover.border_color == highlight_border_color,
            s.widget.hover.foreground_color == text_color,
            s.widget.hover.border_width == highlight_border_width,
            s.widget.active.background_color == primary_color,
            s.widget.active.border_color == highlight_border_color,
            s.widget.active.foreground_color == text_color,
            s.widget.active.border_width == highlight_border_width,
            s.widget.disabled.background_color == background_color,
            s.widget.disabled.border_color == border_color,
            s.widget.disabled.foreground_color == item_background_color,
            s.widget.disabled.border_width == border_width,
    {
        Style {
            background_color,
            border_color,
            primary_color,
            secondary_color,
            icon_color,
            default_widget_height,
            border_width,
            default_font,
            spacing,
            item_background_color,
            highlight_item_background_color,
            highlight_border_color,
            highlight_border_width,
            text_color,
            corner_radius,
            widget: WidgetStyle {
                normal: WidgetStateStyle {
                    background_color: item_background_color,
                    border_color,
                    foreground_color: text_color,
                    border_width,
                },
                hover: WidgetStateStyle {
                    background_color: highlight_item_background_color,
                    border_color: highlight_border_color,
                    foreground_color: text_color,
                    border_width: highlight_border_width,
                },
                active: WidgetStateStyle {
                    background_color: primary_color,
                    border_color: highlight_border_color,
                    foreground_color: text_color,
                    border_width: highlight_border_width,
                },
                disabled: WidgetStateStyle {
                    background_color,
                    border_color,
                    foreground_color: item_background_color,
                    border_width,
                },
            },
        }
    }
}

/// `text` shortened to its longest prefix whose extent in `font` is at most `width`: prefixes
/// are tried from the shortest up, and the first one that does not fit ends the search.
pub open spec fn fitting_prefix_len(text: Seq<char>, font: MonoFont, width: u32, k: int) -> bool {
    &&& 0 <= k <= text.len()
    &&& forall|j: int| 1 <= j <= k ==> #[trigger] text_size(text.take(j), font).width <= width
    &&& (k == text.len() || text_size(text.take(k + 1), font).width > width || too_long_to_measure(text.take(k + 1), font))
}

/// A string with the characters `chars` is too long to be measured in `font`.
pub open spec fn too_long_to_measure(chars: Seq<char>, font: MonoFont) -> bool {
    exists|s: &str| s@ == chars && !#[trigger] measurable(s, font)
}

/// Shortens `text` to what fits in `text_width` pixels in the style's default font: the
/// result is the longest prefix, grown one character at a time, whose drawn width does not
/// exceed `text_width`.
pub fn slice_text_by_width<COL: Copy>(text_width: u32, text: &str, style: &Style<COL>) -> (r: String)
    ensures
        exists|k: int| fitting_prefix_len(text@, style.default_font, text_width, k) && r@ == text@.take(k),
{
    let mut fitted = String::new();
    let mut chars = text.chars();
    let ghost mut k: int = 0;
    assert(text@.take(0) =~= Seq::<char>::empty());
    loop
        invariant_except_break
            0 <= k <= text@.len(),
            fitted@ == text@.take(k),
            chars.remaining() == text@.skip(k),
            forall|j: int| 1 <= j <= k ==> #[trigger] text_size(text@.take(j), style.default_font).width <= text_width,
        ensures
            exists|k: int| fitting_prefix_len(text@, style.default_font, text_width, k) && fitted@ == text@.take(k),
        decreases text@.len() - k,
    {
        match chars.next() {
            Some(c) => {
                assert(text@.take(k + 1) =~= text@.take(k).push(c));
                assert(text@.skip(k + 1) =~= text@.skip(k).drop_first());
                let mut candidate = fitted.clone();
                crate::text::push_char(&mut candidate, c);
                let measured = measure_text(candidate.as_str(), &style.default_font);
                match measured {
                    Some(s) => {
                        if s.width > text_width {
                            assert(fitting_prefix_len(text@, style.default_font, text_width, k));
                            break;
                        }
                    },
                    None => {
                        assert(too_long_to_measure(text@.take(k + 1), style.default_font));
                        assert(fitting_prefix_len(text@, style.default_font, text_width, k));
                        break;
                    },
                }
                fitted = candidate;
                proof {
                    k = k + 1;
                }
            },
            None => {
                assert(text@.skip(k).len() == 0);
                assert(fitting_prefix_len(text@, style.default_font, text_width, k));
                break;
            },
        }
    }
    fitted
}

/// Debug style: red borders on black, so that widget bounds stand out.
pub fn medsize_rgb565_debug_style() -> (s: Style<Rgb565>)
    ensures
        s.wf(),
        s.default_widget_height == 16,
        s.border_width == 1,
        s.highlight_border_width == 1,
        s.corner_radius == 8,
        s.spacing == (Spacing {
            item_spacing: Size { width: 8, height: 4 },
            button_padding: Size { width: 2, height: 2 },
            default_padding: Size { width: 3, height: 3 },
            window_border_padding: Size { width: 3, height: 3 },
        }),
        s.default_font.character_size == (Size { width: 9, height: 15 }),
        s.default_font.character_spacing == 0,
{
    let background_color: Rgb565 = rgb565(0, 0, 0);
    let item_background_color: Rgb565 = css(128, 128, 128);
    let highlight_item_background_color: Rgb565 = rgb565(1, 2, 1);
    let border_color: Rgb565 = rgb565(31, 0, 0);
    let highlight_border_color: Rgb565 = rgb565(31, 63, 31);
    let primary_color: Rgb565 = rgb565(0, 63, 31);
    let secondary_color: Rgb565 = rgb565(31, 63, 0);
    let icon_color: Rgb565 = rgb565(31, 63, 31);
    let text_color: Rgb565 = rgb565(31, 63, 31);
    Style::with_widget_style(
        background_color,
        border_color,
        primary_color,
        secondary_color,
        icon_color,
        16,
        1,
        MonoFont::iso_8859_10_9x15(),
        Spacing {
            item_spacing: Size::new(8, 4),
            button_padding: Size::new(2, 2),
            default_padding: Size::new(3, 3),
            window_border_padding: Size::new(3, 3),
        },
        item_background_color,
        highlight_item_background_color,
        highlight_border_color,
        1,
        text_color,
        8,
    )
}

/// Dark gray default style.
pub fn medsize_rgb565_style() -> (s: Style<Rgb565>)
    ensures
        s.wf(),
        s.default_widget_height == 16,
        s.border_width == 0,
        s.highlight_border_width == 1,
        s.corner_radius == 8,
        s.spacing == (Spacing {
            item_spacing: Size { width: 8, height: 4 },
            button_padding: Size { width: 6, height: 5 },
            default_padding: Size { width: 1, height: 1 },
            window_border_padding: Size { width: 3, height: 3 },
        }),
        s.default_font.character_size == (Size { width: 9, height: 15 }),
        s.default_font.character_spacing == 0,
{
    let background_color: Rgb565 = rgb565(4, 8, 4);
    let item_background_color: Rgb565 = rgb565(2, 4, 2);
    let highlight_item_background_color: Rgb565 = rgb565(1, 2, 1);
    let border_color: Rgb565 = rgb565(31, 63, 31);
    let highlight_border_color: Rgb565 = rgb565(31, 63, 31);
    let primary_color: Rgb565 = css(0, 139, 139);
    let secondary_color: Rgb565 = rgb565(31, 63, 0);
    let icon_color: Rgb565 = rgb565(31, 63, 31);
    let text_color: Rgb565 = rgb565(31, 63, 31);
    Style::with_widget_style(
        background_color,
        border_color,
        primary_color,
        secondary_color,
        icon_color,
        16,
        0,
        MonoFont::iso_8859_10_9x15(),
        Spacing {
            item_spacing: Size::new(8, 4),
            button_padding: Size::new(6, 5),
            default_padding: Size::new(1, 1),
            window_border_padding: Size::new(3, 3),
        },
        item_background_color,
        highlight_item_background_color,
        highlight_border_color,
        1,
        text_color,
        8,
    )
}

/// Light style with orange highlights.
pub fn medsize_light_rgb565_style() -> (s: Style<Rgb565>)
    ensures
        s.wf(),
        s.default_widget_height == 16,
        s.border_width == 0,
        s.highlight_border_width == 1,
        s.corner_radius == 8,
        s.spacing == (Spacing {
            item_spacing: Size { width: 8, height: 4 },
            button_padding: Size { width: 6, height: 5 },
            default_padding: Size { width: 1, height: 1 },
            window_border_padding: Size { width: 3, height: 3 },
        }),
        s.default_font.character_size == (Size { width: 9, height: 15 }),
        s.default_font.character_spacing == 0,
{
    let background_color: Rgb565 = css(255, 255, 255);
    let item_background_color: Rgb565 = css(255, 222, 173);
    let highlight_item_background_color: Rgb565 = css(220, 220, 220);
    let border_color: Rgb565 = css(255, 255, 255);
    let highlight_border_color: Rgb565 = css(0, 0, 0);
    let primary_color: Rgb565 = css(255, 140, 0);
    let secondary_color: Rgb565 = rgb565(31, 63, 0);
    let icon_color: Rgb565 = css(0, 0, 0);
    let text_color: Rgb565 = css(0, 0, 0);
    Style::with_widget_style(
        background_color,
        border_color,
        primary_color,
        secondary_color,
        icon_color,
        16,
        0,
        MonoFont::iso_8859_10_9x15(),
        Spacing {
            item_spacing: Size::new(8, 4),
            button_padding: Size::new(6, 5),
            default_padding: Size::new(1, 1),
            window_border_padding: Size::new(3, 3),
        },
        item_background_color,
        highlight_item_background_color,
        highlight_border_color,
        1,
        text_color,
        8,
    )
}

/// Pink style.
pub fn medsize_sakura_rgb565_style() -> (s: Style<Rgb565>)
    ensures
        s.wf(),
        s.default_widget_height == 16,
        s.border_width == 0,
        s.highlight_border_width == 1,
        s.corner_radius == 8,
        s.spacing == (Spacing {
            item_spacing: Size { width: 8, height: 4 },
            button_padding: Size { width: 6, height: 5 },
            default_padding: Size { width: 1, height: 1 },
            window_border_padding: Size { width: 3, height: 3 },
        }),
        s.default_font.character_size == (Size { width: 9, height: 15 }),
        s.default_font.character_spacing == 0,
{
    let background_color: Rgb565 = css(255, 218, 185);
    let item_background_color: Rgb565 = css(255, 182, 193);
    let highlight_item_background_color: Rgb565 = css(255, 105, 180);
    let border_color: Rgb565 = css(255, 255, 255);
    let highlight_border_color: Rgb565 = css(0, 0, 0);
    let primary_color: Rgb565 = css(255, 20, 147);
    let secondary_color: Rgb565 = rgb565(31, 63, 0);
    let icon_color: Rgb565 = css(0, 0, 0);
    let text_color: Rgb565 = css(0, 0, 0);
    Style::with_widget_style(
        background_color,
        border_color,
        primary_color,
        secondary_color,
        icon_color,
        16,
        0,
        MonoFont::ascii_9x15(),
        Spacing {
            item_spacing: Size::new(8, 4),
            button_padding: Size::new(6, 5),
            default_padding: Size::new(1, 1),
            window_border_padding: Size::new(3, 3),
        },
        item_background_color,
        highlight_item_background_color,
        highlight_border_color,
        1,
        text_color,
        8,
    )
}

/// Blue style.
pub fn medsize_blue_rgb565_style() -> (s: Style<Rgb565>)
    ensures
        s.wf(),
        s.default_widget_height == 16,
        s.border_width == 0,
        s.highlight_border_width == 1,
        s.corner_radius == 8,
        s.spacing == (Spacing {
            item_spacing: Size { width: 8, height: 4 },
            button_padding: Size { width: 6, height: 5 },
            default_padding: Size { width: 1, height: 1 },
            window_border_padding: Size { width: 3, height: 3 },
        }),
        s.default_font.character_size == (Size { width: 9, height: 15 }),
        s.default_font.character_spacing == 0,
{
    let background_color: Rgb565 = css(25, 25, 112);
    let item_background_color: Rgb565 = css(0, 0, 255);
    let highlight_item_background_color: Rgb565 = css(138, 43, 226);
    let border_color: Rgb565 = css(255, 255, 255);
    let highlight_border_color: Rgb565 = css(255, 255, 255);
    let primary_color: Rgb565 = css(219, 112, 147);
    let secondary_color: Rgb565 = rgb565(31, 63, 0);
    let icon_color: Rgb565 = css(255, 255, 255);
    let text_color: Rgb565 = css(255, 255, 255);
    Style::with_widget_style(
        background_color,
        border_color,
        primary_color,
        secondary_color,
        icon_color,
        16,
        0,
        MonoFont::iso_8859_10_9x15(),
        Spacing {
            item_spacing: Size::new(8, 4),
            button_padding: Size::new(6, 5),
            default_padding: Size::new(1, 1),
            window_border_padding: Size::new(3, 3),
        },
        item_background_color,
        highlight_item_background_color,
        highlight_border_color,
        1,
        text_color,
        8,
    )
}

/// Green-on-black terminal style.
pub fn medsize_crt_rgb565_style() -> (s: Style<Rgb565>)
    ensures
        s.wf(),
        s.default_widget_height == 16,
        s.border_width == 1,
        s.highlight_border_width == 3,
        s.corner_radius == 0,
        s.spacing == (Spacing {
            item_spacing: Size { width: 8, height: 4 },
            button_padding: Size { width: 5, height: 5 },
            default_padding: Size { width: 1, height: 1 },
            window_border_padding: Size { width: 3, height: 3 },
        }),
        s.default_font.character_size == (Size { width: 9, height: 15 }),
        s.default_font.character_spacing == 0,
{
    let background_color: Rgb565 = css(0, 0, 0);
    let item_background_color: Rgb565 = css(0, 0, 0);
    let highlight_item_background_color: Rgb565 = css(0, 0, 0);
    let border_color: Rgb565 = css(0, 128, 0);
    let highlight_border_color: Rgb565 = css(0, 128, 0);
    let primary_color: Rgb565 = css(0, 128, 0);
    let secondary_color: Rgb565 = rgb565(31, 63, 0);
    let icon_color: Rgb565 = css(0, 128, 0);
    let text_color: Rgb565 = css(0, 128, 0);
    Style::with_widget_style(
        background_color,
        border_color,
        primary_color,
        secondary_color,
        icon_color,
        16,
        1,
        MonoFont::iso_8859_10_9x15(),
        Spacing {
            item_spacing: Size::new(8, 4),
            button_padding: Size::new(5, 5),
            default_padding: Size::new(1, 1),
            window_border_padding: Size::new(3, 3),
        },
        item_background_color,
        highlight_item_background_color,
        highlight_border_color,
        3,
        text_color,
        0,
    )
}

/// Black-on-white style.
pub fn medsize_retro_rgb565_style() -> (s: Style<Rgb565>)
    ensures
        s.wf(),
        s.default_widget_height == 16,
        s.border_width == 1,
        s.highlight_border_width == 1,
        s.corner_radius == 0,
        s.spacing == (Spacing {
            item_spacing: Size { width: 8, height: 4 },
            button_padding: Size { width: 5, height: 5 },
            default_padding: Size { width: 1, height: 1 },
            window_border_padding: Size { width: 3, height: 3 },
        }),
        s.default_font.character_size == (Size { width: 9, height: 15 }),
        s.default_font.character_spacing == 0,
{
    let background_color: Rgb565 = css(255, 255, 255);
    let item_background_color: Rgb565 = css(255, 255, 255);
    let highlight_item_background_color: Rgb565 = css(255, 255, 255);
    let border_color: Rgb565 = css(0, 0, 0);
    let highlight_border_color: Rgb565 = css(0, 0, 0);
    let primary_color: Rgb565 = css(0, 0, 0);
    let secondary_color: Rgb565 = rgb565(31, 63, 0);
    let icon_color: Rgb565 = css(0, 0, 0);
    let text_color: Rgb565 = css(0, 0, 0);
    Style::with_widget_style(
        background_color,
        border_color,
        primary_color,
        secondary_color,
        icon_color,
        16,
        1,
        MonoFont::ascii_9x15(),
        Spacing {
            item_spacing: Size::new(8, 4),
            button_padding: Size::new(5, 5),
            default_padding: Size::new(1, 1),
            window_border_padding: Size::new(3, 3),
        },
        item_background_color,
        highlight_item_background_color,
        highlight_border_color,
        1,
        text_color,
        0,
    )
}
} // verus!
