use mrs_matrix::raindrop::color_algorithms::{
    head_color, ColorAlgorithm, Hsl, HueVariation, LightnessDescending, SaturationDescending,
};

#[test]
fn lightness_descending_endpoints() {
    let algorithm = LightnessDescending { hue: 118_000, saturation: 820 };
    let near = algorithm.gen_color(0);
    assert_eq!(near, Hsl { hue: 118_000, saturation: 820, lightness: 900 });
    let far = algorithm.gen_color(1000);
    assert_eq!(far, Hsl { hue: 118_000, saturation: 820, lightness: 100 });
}

#[test]
fn lightness_descending_interior_and_floor() {
    let algorithm = LightnessDescending { hue: 118_000, saturation: 820 };
    assert_eq!(algorithm.gen_color(300).lightness, 600);
    assert_eq!(algorithm.gen_color(800).lightness, 100);
    assert_eq!(algorithm.gen_color(850).lightness, 100);
}

#[test]
fn lightness_descending_rejects_out_of_range_proportion() {
    let algorithm = LightnessDescending { hue: 118_000, saturation: 820 };
    // a proportion beyond one is a contract violation: refused, not clamped
    assert_eq!(algorithm.gen_color_checked(2000), None);
    assert_eq!(
        algorithm.gen_color_checked(1000),
        Some(Hsl { hue: 118_000, saturation: 820, lightness: 100 })
    );
}

#[test]
fn lightness_descending_rejects_invalid_params() {
    let algorithm = LightnessDescending { hue: 360_000, saturation: 820 };
    assert!(!algorithm.params_in_range());
    assert_eq!(algorithm.gen_color_checked(0), None);
    let algorithm = LightnessDescending { hue: 0, saturation: 1001 };
    assert_eq!(algorithm.gen_color_checked(0), None);
}

#[test]
fn saturation_descending_fades_to_gray() {
    let algorithm = SaturationDescending { hue: 244_000, lightness: 500 };
    assert_eq!(algorithm.gen_color(0), Hsl { hue: 244_000, saturation: 1000, lightness: 500 });
    assert_eq!(algorithm.gen_color(250).saturation, 750);
    assert_eq!(algorithm.gen_color(1000).saturation, 0);
}

#[test]
fn hue_variation_sweeps_the_circle() {
    let algorithm = HueVariation { saturation: 1000, lightness: 500 };
    assert_eq!(algorithm.gen_color(0).hue, 0);
    assert_eq!(algorithm.gen_color(500).hue, 180_000);
    assert_eq!(algorithm.gen_color(1000).hue, 360_000);
    assert_eq!(algorithm.gen_color(500).saturation, 1000);
    assert_eq!(algorithm.gen_color(500).lightness, 500);
}

#[test]
fn head_color_is_bright_neutral_white() {
    assert_eq!(head_color(), Hsl { hue: 0, saturation: 0, lightness: 1000 });
}
