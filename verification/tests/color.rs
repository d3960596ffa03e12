use diorama::color::{
    color_format_at, color_format_index, format_color, ColorComponents, ColorFormat,
};
use palette::FromColor;

fn fixed(value: f32, precision: usize) -> String {
    let threshold = 0.5 * 10.0_f32.powi(-(precision as i32));
    let value = if value.abs() < threshold { 0.0 } else { value };
    format!("{value:.precision$}")
}

fn components(color: [u8; 4], format: ColorFormat) -> ColorComponents {
    let srgb = palette::Srgb::new(
        f32::from(color[0]) / 255.0,
        f32::from(color[1]) / 255.0,
        f32::from(color[2]) / 255.0,
    );
    match format {
        ColorFormat::Oklab => {
            let oklab = palette::Oklab::from_color(srgb.into_linear());
            ColorComponents {
                first: fixed(oklab.l * 100.0, 2),
                second: fixed(oklab.a, 4),
                third: fixed(oklab.b, 4),
            }
        }
        _ => {
            let hsl = palette::Hsl::from_color(srgb);
            ColorComponents {
                first: fixed(hsl.hue.into_positive_degrees(), 1),
                second: fixed(hsl.saturation * 100.0, 1),
                third: fixed(hsl.lightness * 100.0, 1),
            }
        }
    }
}

fn formatted(color: [u8; 4], format: ColorFormat) -> String {
    format_color(color, format, &components(color, format))
}

#[test]
fn color_picker_formats_opaque_and_transparent_colors() {
    let opaque = [0x12, 0x34, 0x56, 0xff];
    let transparent = [0x12, 0x34, 0x56, 0x78];

    assert_eq!(formatted(opaque, ColorFormat::Hex), "#123456");
    assert_eq!(formatted(transparent, ColorFormat::Hex), "#12345678");
    assert_eq!(formatted(opaque, ColorFormat::Rgb), "rgb(18, 52, 86)");
    assert_eq!(formatted(transparent, ColorFormat::Rgb), "rgba(18, 52, 86, 0.471)");
    assert_eq!(formatted([255, 0, 0, 255], ColorFormat::Oklab), "oklab(62.8% 0.2249 0.1258)");
    assert_eq!(formatted([255, 0, 0, 128], ColorFormat::Hsl), "hsl(0 100% 50% / 0.502)");
}

#[test]
fn color_property_indices_round_trip_with_hex_as_the_fallback() {
    for (index, format) in [
        (0, ColorFormat::Hex),
        (1, ColorFormat::Rgb),
        (2, ColorFormat::Oklab),
        (3, ColorFormat::Hsl),
    ] {
        assert_eq!(color_format_index(format), index);
        assert_eq!(color_format_at(index), format);
    }
    assert_eq!(color_format_at(u32::MAX), ColorFormat::Hex);
}

#[test]
fn opacities_are_rounded_as_decimals_are() {
    for alpha in 0..255_u8 {
        let expected = fixed(f32::from(alpha) / 255.0, 3);
        let expected = expected.trim_end_matches('0').trim_end_matches('.');
        assert_eq!(
            formatted([1, 2, 3, alpha], ColorFormat::Rgb),
            format!("rgba(1, 2, 3, {expected})")
        );
    }
}
