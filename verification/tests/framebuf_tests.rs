use embedded_graphics::mock_display::MockDisplay;
use embedded_graphics::pixelcolor::{BinaryColor, Rgb888, RgbColor};
use embedded_graphics::prelude::{DrawTarget, Primitive};
use embedded_graphics::primitives::{Circle, Line, PrimitiveStyle, Rectangle as EgRectangle, StyledDrawable};
use embedded_graphics::Drawable;
use embedded_graphics::Pixel;
use kolibri_embedded_gui::framebuf::WidgetFramebuf;
use kolibri_embedded_gui::geometry::{Point, Size};

fn eg_point(x: i32, y: i32) -> embedded_graphics::prelude::Point {
    embedded_graphics::prelude::Point::new(x, y)
}

fn eg_size(w: u32, h: u32) -> embedded_graphics::prelude::Size {
    embedded_graphics::prelude::Size::new(w, h)
}

/// The pixels of a drawing, in the framebuffer's terms.
fn as_pixels<C: embedded_graphics::prelude::PixelColor>(pixels: impl Iterator<Item = Pixel<C>>) -> Vec<(Point, C)> {
    pixels.map(|Pixel(p, c)| (Point::new(p.x, p.y), c)).collect()
}

#[test]
fn test_basic_fbuf() {
    const SIZE: usize = 8;

    let mut data = [BinaryColor::Off; SIZE * SIZE];
    let mut fbuf = WidgetFramebuf::new(&mut data, Size::new(SIZE as u32, SIZE as u32), Point::new(0, 0));

    let color = BinaryColor::On;

    let circ = Circle::new(eg_point(0, 0), 8);

    let mut expected = MockDisplay::new();
    expected.set_allow_overdraw(true);
    // clear area
    EgRectangle::new(eg_point(0, 0), eg_size(SIZE as u32, SIZE as u32))
        .into_styled(PrimitiveStyle::with_fill(BinaryColor::Off))
        .draw(&mut expected)
        .unwrap();

    circ.draw_styled(&PrimitiveStyle::with_fill(color), &mut expected).unwrap();

    let mut actual = MockDisplay::new();
    let pixels = as_pixels(circ.into_styled(PrimitiveStyle::with_fill(color)).pixels());
    fbuf.draw_iter(&pixels);
    drop(fbuf);
    actual
        .fill_contiguous(&EgRectangle::new(eg_point(0, 0), eg_size(SIZE as u32, SIZE as u32)), data)
        .unwrap();

    actual.assert_eq(&expected)
}

#[test]
fn test_widget_framebuf_new() {
    let mut buf = [Rgb888::BLACK; 9];
    let framebuf = WidgetFramebuf::new(&mut buf, Size::new(3, 3), Point::new(0, 0));

    assert_eq!(framebuf.get_size().width, 3);
    assert_eq!(framebuf.get_size().height, 3);
    assert_eq!(framebuf.len(), 9);
}

#[test]
fn test_widget_framebuf_try_new() {
    let mut buf = [Rgb888::BLACK; 9];
    let framebuf = WidgetFramebuf::try_new(&mut buf, Size::new(3, 3), Point::zero());

    assert!(framebuf.is_some());
    let framebuf = framebuf.unwrap();
    assert_eq!(framebuf.get_size().width, 3);
    assert_eq!(framebuf.get_size().height, 3);
    assert_eq!(framebuf.len(), 9);
}

#[test]
fn test_widget_framebuf_try_new_fail() {
    let mut buf = [Rgb888::BLACK; 8];
    let framebuf = WidgetFramebuf::try_new(&mut buf, Size::new(3, 3), Point::new(0, 0));

    assert!(framebuf.is_none());
}

#[test]
fn test_widget_framebuf_draw_line() {
    let mut buf = [Rgb888::BLACK; 9];
    let mut framebuf = WidgetFramebuf::new(&mut buf, Size::new(3, 3), Point::new(0, 0));

    let line = Line::new(eg_point(0, 0), eg_point(2, 2));
    let styled_line = line.into_styled(PrimitiveStyle::with_stroke(Rgb888::RED, 1));

    let pixels = as_pixels(styled_line.pixels());
    framebuf.draw_iter(&pixels);
    drop(framebuf);

    assert_eq!(buf[0], Rgb888::RED);
    assert_eq!(buf[4], Rgb888::RED);
    assert_eq!(buf[8], Rgb888::RED);
}

#[test]
fn framebuf_skips_pixels_outside() {
    let mut buf = [0u8; 6];
    let mut framebuf = WidgetFramebuf::new(&mut buf, Size::new(3, 2), Point::new(10, 20));
    framebuf.set_pixel(Point::new(11, 21), 7);
    framebuf.set_pixel(Point::new(9, 20), 1);
    framebuf.set_pixel(Point::new(10, 22), 2);
    assert_eq!(framebuf.bounding_box().top_left, Point::new(10, 20));
    assert_eq!(framebuf.get_pos(), Point::new(10, 20));
    drop(framebuf);
    assert_eq!(buf, [0, 0, 0, 0, 7, 0]);
}
