use bevy_scrollbar::config::{DragSpeed, LineHeight, ScrollableLineHeight, ScrollableScrollScale};
use bevy_scrollbar::fixed::{Fixed, ONE_RAW};

#[test]
fn one_is_sixteen_fractional_bits() {
    assert_eq!(ONE_RAW, 65536);
    assert_eq!(Fixed::one().raw, 65536);
    assert_eq!(Fixed::zero().raw, 0);
    assert_eq!(Fixed::from_int(3).raw, 3 * 65536);
    assert_eq!(Fixed::from_int(-2).raw, -2 * 65536);
    assert_eq!(Fixed::from_raw(17).raw, 17);
}

#[test]
fn from_int_covers_the_whole_range() {
    assert_eq!(Fixed::from_int(i16::MAX).raw, 32767 * 65536);
    assert_eq!(Fixed::from_int(i16::MIN).raw, i32::MIN);
}

#[test]
fn scale_multiplies_and_rounds_toward_zero() {
    let half = Fixed::from_raw(32768);
    assert_eq!(half.scale(10), 5);
    assert_eq!(half.scale(11), 5);
    assert_eq!(half.scale(-11), -5);
    assert_eq!(Fixed::from_int(4).scale(7), 28);
    assert_eq!(Fixed::from_int(-4).scale(7), -28);
    assert_eq!(Fixed::from_raw(1).scale(65535), 0);
    assert_eq!(Fixed::from_raw(1).scale(-65535), 0);
    assert_eq!(Fixed::from_raw(1).scale(65536), 1);
}

#[test]
fn scale_is_odd_in_its_argument() {
    let third = Fixed::from_raw(21845);
    for v in [0i64, 1, 2, 3, 100, 65535, 65536, 1_000_003] {
        assert_eq!(third.scale(-v), -third.scale(v));
    }
}

#[test]
fn scale_takes_the_extremes() {
    let max = Fixed::from_raw(i32::MAX);
    let min = Fixed::from_raw(i32::MIN);
    assert_eq!(max.scale(i64::MAX), (i64::MAX as i128 * i32::MAX as i128) / 65536);
    assert_eq!(min.scale(i64::MIN), (i64::MIN as i128 * i32::MIN as i128) / 65536);
    assert_eq!(min.scale(i64::MAX), -((i64::MAX as i128 * 2147483648) / 65536));
}

#[test]
fn default_scales() {
    assert_eq!(ScrollableScrollScale::default().0.raw, 65536);
    assert_eq!(ScrollableScrollScale::DEFAULT, 65536);
    assert_eq!(DragSpeed::default().0.raw, 4 * 65536);
    assert_eq!(DragSpeed::DEFAULT, 4 * 65536);
}

#[test]
fn line_height_in_pixels_is_taken_as_it_is() {
    let m = ScrollableLineHeight {
        font_size: Fixed::from_int(20),
        line_height: LineHeight::Px(Fixed::from_int(30)),
    };
    assert_eq!(m.px(), 30 * 65536);
}

#[test]
fn line_height_relative_to_font_multiplies_the_font_size() {
    let m = ScrollableLineHeight {
        font_size: Fixed::from_int(20),
        line_height: LineHeight::RelativeToFont(Fixed::from_raw(98304)),
    };
    assert_eq!(m.px(), 30 * 65536);
    let m = ScrollableLineHeight {
        font_size: Fixed::from_int(20),
        line_height: LineHeight::RelativeToFont(Fixed::from_raw(78643)),
    };
    assert_eq!(m.px(), 1572860);
    let m = ScrollableLineHeight {
        font_size: Fixed::from_raw(i32::MIN),
        line_height: LineHeight::RelativeToFont(Fixed::from_raw(i32::MIN)),
    };
    assert_eq!(m.px(), 1i64 << 46);
}
