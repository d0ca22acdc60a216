//! Making, resizing and reading descriptors.

use font_desc::backend::{DrawInto, FontData, LayoutBox, PixelSink};
use font_desc::font::FontDesc;
use font_desc::size::{Coverage, FontSize, UNIT_SIZE_BITS};
use std::sync::Mutex;

/// Every name that the stub was asked to resolve, in order.
static RESOLVED: Mutex<Vec<String>> = Mutex::new(Vec::new());

fn resolutions_of(face: &str) -> usize {
    RESOLVED.lock().unwrap().iter().filter(|name| name.as_str() == face).count()
}

fn size(points: f64) -> FontSize {
    FontSize { bits: points.to_bits() }
}

#[derive(Clone, Debug, PartialEq)]
struct StubError(String);

/// Resolves every name that starts with "Stub"; each handle remembers the
/// name it was resolved from.
#[derive(Clone, Debug, PartialEq)]
struct StubFont {
    face: String,
}

impl FontData for StubFont {
    type ErrorType = StubError;

    fn new(face: &str) -> Result<Self, StubError> {
        RESOLVED.lock().unwrap().push(face.to_string());
        if face.starts_with("Stub") {
            Ok(StubFont { face: face.to_string() })
        } else {
            Err(StubError(format!("no typeface named {}", face)))
        }
    }

    fn estimate_layout(&self, _size: FontSize, text: &str) -> Result<LayoutBox, StubError> {
        if text.len() <= 5 {
            Ok(((0, 0), (5, 5)))
        } else {
            Err(StubError("text too long".to_string()))
        }
    }
}

impl<S: PixelSink> DrawInto<S> for StubFont {
    fn draw(
        &self,
        pos: (i32, i32),
        _size: FontSize,
        _text: &str,
        sink: &mut S,
    ) -> Result<Result<(), S::Error>, StubError> {
        Ok(sink.emit(pos.0, pos.1, Coverage { bits: 1.0f32.to_bits() }))
    }
}

#[test]
fn end_to_end_with_stub_font() {
    let desc: FontDesc<StubFont> = FontDesc::from("Stub-Font");
    assert_eq!(desc.box_size("ab"), Ok((5, 5)));
    let bigger = desc.resize(size(2.0));
    assert_eq!(f64::from_bits(bigger.get_size().bits), 2.0);
    assert_eq!(bigger.get_name(), "Stub-Font");
    assert_eq!(desc.get_name(), "Stub-Font");
}

#[test]
fn new_keeps_name_and_size() {
    let desc: FontDesc<StubFont> = FontDesc::new("Stub-Kept", size(12.5));
    assert_eq!(desc.get_name(), "Stub-Kept");
    assert_eq!(desc.get_size(), size(12.5));
    assert_eq!(f64::from_bits(desc.get_size().bits), 12.5);
}

#[test]
fn new_never_fails_and_keeps_what_it_was_given() {
    let desc: FontDesc<StubFont> = FontDesc::new("missing-at-birth", size(3.0));
    assert_eq!(desc.get_name(), "missing-at-birth");
    assert_eq!(desc.get_size(), size(3.0));
}

#[test]
fn from_gives_the_unit_size() {
    let desc: FontDesc<StubFont> = FontDesc::from("Stub-Unit");
    assert_eq!(desc.get_size().bits, UNIT_SIZE_BITS);
    assert_eq!(f64::from_bits(desc.get_size().bits), 1.0);
    assert_eq!(desc.get_name(), "Stub-Unit");
}

#[test]
fn unit_size_is_one() {
    assert_eq!(UNIT_SIZE_BITS, 1.0f64.to_bits());
    assert_eq!(FontSize::unit(), size(1.0));
    assert_eq!(f64::from_bits(FontSize::unit().bits), 1.0);
}

#[test]
fn from_is_new_at_unit_size() {
    let short: FontDesc<StubFont> = FontDesc::from("Stub-Same");
    let long: FontDesc<StubFont> = FontDesc::new("Stub-Same", size(1.0));
    assert_eq!(short.get_name(), long.get_name());
    assert_eq!(short.get_size(), long.get_size());
    assert_eq!(short.layout_box("abc"), long.layout_box("abc"));
}

#[test]
fn resize_sets_size_and_keeps_name() {
    let desc: FontDesc<StubFont> = FontDesc::new("Stub-Resize", size(10.0));
    let resized = desc.resize(size(24.0));
    assert_eq!(resized.get_size(), size(24.0));
    assert_eq!(resized.get_name(), desc.get_name());
    assert_eq!(desc.get_size(), size(10.0));
}

#[test]
fn resize_does_not_resolve_again() {
    let desc: FontDesc<StubFont> = FontDesc::new("Stub-Once", size(10.0));
    assert_eq!(resolutions_of("Stub-Once"), 1);
    let a = desc.resize(size(11.0));
    let b = a.resize(size(12.0));
    let c = desc.resize(size(13.0));
    assert_eq!(resolutions_of("Stub-Once"), 1);
    assert_eq!(a.layout_box("x"), Ok(((0, 0), (5, 5))));
    assert_eq!(b.box_size("x"), Ok((5, 5)));
    assert_eq!(c.layout_box("x"), Ok(((0, 0), (5, 5))));
    assert_eq!(resolutions_of("Stub-Once"), 1);
}

#[test]
fn queries_do_not_resolve_again() {
    let desc: FontDesc<StubFont> = FontDesc::new("Stub-Queried", size(10.0));
    for _ in 0..3 {
        assert!(desc.layout_box("x").is_ok());
        assert!(desc.box_size("x").is_ok());
    }
    assert_eq!(resolutions_of("Stub-Queried"), 1);
}

#[test]
fn resize_accepts_any_bit_pattern() {
    let desc: FontDesc<StubFont> = FontDesc::new("Stub-Odd", size(10.0));
    let negative = desc.resize(size(-4.0));
    assert_eq!(f64::from_bits(negative.get_size().bits), -4.0);
    let zero = desc.resize(size(0.0));
    assert_eq!(zero.get_size().bits, 0);
    let not_a_number = desc.resize(FontSize { bits: f64::NAN.to_bits() });
    assert!(f64::from_bits(not_a_number.get_size().bits).is_nan());
}
