use density_refine::bits;
use density_refine::grid::{Config, ConfigError};
use density_refine::pixel;

fn b(x: f64) -> u64 {
    x.to_bits()
}

#[test]
fn gt_matches_hardware_comparison() {
    let samples: [f64; 14] = [
        0.0,
        -0.0,
        1.0,
        -1.0,
        2.5,
        -2.5,
        f64::INFINITY,
        f64::NEG_INFINITY,
        f64::NAN,
        f64::MIN_POSITIVE,
        -f64::MIN_POSITIVE,
        255.0,
        f64::from_bits(1),
        -f64::from_bits(1),
    ];
    for &x in samples.iter() {
        for &y in samples.iter() {
            assert_eq!(bits::fgt(b(x), b(y)), x > y, "fgt mismatch for {x} > {y}");
        }
    }
}

#[test]
fn fmax_keeps_greater_value() {
    assert_eq!(bits::fmax(b(0.0), b(2.0)), b(2.0));
    assert_eq!(bits::fmax(b(3.0), b(2.0)), b(3.0));
    assert_eq!(bits::fmax(b(-1.0), b(-2.0)), b(-1.0));
    // A NaN candidate never displaces the accumulator.
    assert_eq!(bits::fmax(b(1.0), b(f64::NAN)), b(1.0));
    // Equal values keep the accumulator.
    assert_eq!(bits::fmax(b(0.0), b(-0.0)), b(0.0));
}

#[test]
fn arithmetic_matches_hardware_through_shade() {
    // Exercises addition, multiplication and division on values whose
    // intermediate results are inexact, so an identity in any of the three
    // operations would show.
    for &x in [-1.6180339887, -0.1, 0.0, 0.3333333333333333, 1.1, 123.456].iter() {
        assert_eq!(
            pixel::shade_of_field(b(x)),
            b((x + 1.75) * 255.0 / 3.5),
            "shade of {x}"
        );
    }
}

#[test]
fn classification_of_patterns() {
    assert!(bits::is_zero(b(0.0)));
    assert!(bits::is_zero(b(-0.0)));
    assert!(!bits::is_zero(b(1.0)));
    assert!(bits::is_nan(b(f64::NAN)));
    assert!(!bits::is_nan(b(f64::INFINITY)));
    assert!(bits::is_pos_real(b(1.0)));
    assert!(bits::is_pos_real(b(f64::MIN_POSITIVE)));
    assert!(!bits::is_pos_real(b(0.0)));
    assert!(!bits::is_pos_real(b(-1.0)));
    assert!(!bits::is_pos_real(b(f64::INFINITY)));
    assert!(!bits::is_pos_real(b(f64::NAN)));
}

#[test]
fn config_accepts_valid_input() {
    let cfg = Config::new(100, 100, b(0.025), b(0.025), b(0.10)).unwrap();
    assert_eq!(cfg.width, 100);
    assert_eq!(cfg.height, 100);
    assert_eq!(cfg.cells(), 10000);
}

#[test]
fn config_rejects_empty_grid() {
    assert_eq!(
        Config::new(0, 5, b(1.0), b(1.0), b(1.0)),
        Err(ConfigError::EmptyGrid)
    );
    assert_eq!(
        Config::new(5, 0, b(1.0), b(1.0), b(1.0)),
        Err(ConfigError::EmptyGrid)
    );
}

#[test]
fn config_rejects_oversized_grid() {
    assert_eq!(
        Config::new(usize::MAX, 2, b(1.0), b(1.0), b(1.0)),
        Err(ConfigError::TooManyCells)
    );
}

#[test]
fn config_rejects_bad_spacing() {
    assert_eq!(
        Config::new(4, 4, b(0.0), b(1.0), b(1.0)),
        Err(ConfigError::BadSpacing)
    );
    assert_eq!(
        Config::new(4, 4, b(1.0), b(-1.0), b(1.0)),
        Err(ConfigError::BadSpacing)
    );
    assert_eq!(
        Config::new(4, 4, b(f64::NAN), b(1.0), b(1.0)),
        Err(ConfigError::BadSpacing)
    );
}

#[test]
fn config_rejects_bad_variance() {
    assert_eq!(
        Config::new(4, 4, b(1.0), b(1.0), b(0.0)),
        Err(ConfigError::BadVariance)
    );
    assert_eq!(
        Config::new(4, 4, b(1.0), b(1.0), b(f64::NEG_INFINITY)),
        Err(ConfigError::BadVariance)
    );
}

#[test]
fn point_coordinates_match_cast_and_multiply() {
    let cfg = Config::new(100, 100, b(0.025), b(0.025), b(0.10)).unwrap();
    // Cell 205 sits at grid position (5, 2).
    assert_eq!(cfg.point_x(205), b(5.0 * 0.025));
    assert_eq!(cfg.point_y(205), b(2.0 * 0.025));
    assert_eq!(cfg.point_x(0), b(0.0));
    assert_eq!(cfg.point_y(0), b(0.0));
}

#[test]
fn pack_rgba_exact_values() {
    assert_eq!(pixel::pack_rgba(0, 0, 0), 0xFF00_0000);
    assert_eq!(pixel::pack_rgba(0x12, 0x34, 0x56), 0xFF56_3412);
    assert_eq!(pixel::pack_rgba(255, 255, 255), 0xFFFF_FFFF);
}

#[test]
fn pack_rgba_clamps_channels() {
    assert_eq!(pixel::pack_rgba(300, 1000, 0x1_0000), 0xFFFF_FFFF);
    assert_eq!(pixel::pack_rgba(256, 0, 7), 0xFF07_00FF);
}

#[test]
fn shade_and_green_match_hardware_formula() {
    for &f in [-1.2, 0.0, 0.37, 1.75].iter() {
        assert_eq!(pixel::shade_of_field(b(f)), b((f + 1.75) * 255.0 / 3.5));
    }
    for &d in [0.0, 0.25, 1.0].iter() {
        assert_eq!(pixel::green_of_density(b(d)), b(d * 255.0));
    }
}

#[test]
fn whole_grid_channels_match_per_cell_values() {
    let field = vec![b(-0.5), b(0.0), b(0.9)];
    let shades = pixel::shades_of(&field);
    assert_eq!(shades.len(), 3);
    for i in 0..3 {
        assert_eq!(shades[i], pixel::shade_of_field(field[i]));
    }
    let dens = vec![b(0.125), b(1.0)];
    let greens = pixel::greens_of(&dens);
    assert_eq!(greens, vec![b(0.125 * 255.0), b(255.0)]);
}
