use approx::AbsDiffEq;
use srgb::derivation::{
    SRGB_FROM_XYZ_DENOMINATORS, SRGB_FROM_XYZ_NUMERATORS, XYZ_FROM_SRGB_DENOMINATORS,
    XYZ_FROM_SRGB_NUMERATORS,
};
use srgb::xyz::{
    linear_from_xyz, xyz_from_linear, D65_XYZ, D65_xyY, PRIMARIES_XYZ, PRIMARIES_xyY,
    SRGB_FROM_XYZ_MATRIX, XYZ_FROM_SRGB_MATRIX,
};

fn bits(v: [f32; 3]) -> [u32; 3] {
    [v[0].to_bits(), v[1].to_bits(), v[2].to_bits()]
}

fn floats(v: [u32; 3]) -> [f32; 3] {
    [f32::from_bits(v[0]), f32::from_bits(v[1]), f32::from_bits(v[2])]
}

#[test]
fn test_d65() {
    let [x, y, _] = floats(D65_xyY);
    assert_eq!((0.312713, 0.329016), (x, y));

    let want = [
        (x as f64 / y as f64) as f32,
        1.0,
        ((1.0 - x as f64 - y as f64) / y as f64) as f32,
    ];
    let got = floats(D65_XYZ);
    assert_eq!(&want[..], &got[..]);
}

#[test]
fn test_reversible_conversion() {
    for c in 0..(16 * 16 * 16) {
        let r = (c & 15) as f32 / 15.0;
        let g = ((c >> 4) & 15) as f32 / 15.0;
        let b = ((c >> 8) & 15) as f32 / 15.0;
        let src = [r, g, b];
        let xyz = xyz_from_linear(bits(src));
        let dst = floats(linear_from_xyz(xyz));
        assert!(src[..].abs_diff_eq(&dst[..], 0.000001), "{:?} {:?}", src, dst);
    }
}

#[test]
fn xyz_from_linear_examples() {
    let white = [0.88901603, 0.7947985, 0.8663711];
    let red = [0.69039214, 0.013060069, 0.053315595];
    assert_eq!([0.8071875, 0.82000005, 0.9353126], floats(xyz_from_linear(bits(white))));
    assert_eq!([0.2990163, 0.16, 0.0655738], floats(xyz_from_linear(bits(red))));
}

#[test]
fn linear_from_xyz_examples() {
    let white = [0.8071875, 0.82, 0.9353125];
    let red = [0.2990163, 0.16, 0.0655738];
    assert_eq!([0.88901603, 0.7947985, 0.8663711], floats(linear_from_xyz(bits(white))));
    assert_eq!([0.69039214, 0.013060069, 0.053315595], floats(linear_from_xyz(bits(red))));
}

#[test]
fn matrices_are_the_rounded_quotients() {
    let forward: [[(f32, f32); 3]; 3] = [
        [(4223344.0, 10240623.0), (14647555.0, 40962492.0), (14783675.0, 81924984.0)],
        [(2903549.0, 13654164.0), (14647555.0, 20481246.0), (2956735.0, 40962492.0)],
        [(263959.0, 13654164.0), (14647555.0, 122887476.0), (233582065.0, 245774952.0)],
    ];
    let inverse: [[(f32, f32); 3]; 3] = [
        [(4277208.0, 1319795.0), (-2028932.0, 1319795.0), (-658032.0, 1319795.0)],
        [(-70985202.0, 73237775.0), (137391598.0, 73237775.0), (3043398.0, 73237775.0)],
        [(164508.0, 2956735.0), (-603196.0, 2956735.0), (3125652.0, 2956735.0)],
    ];
    for i in 0..3 {
        for j in 0..3 {
            let (n, d) = forward[i][j];
            assert_eq!(n / d, f32::from_bits(XYZ_FROM_SRGB_MATRIX[i][j]));
            assert_eq!(n, XYZ_FROM_SRGB_NUMERATORS[i][j] as f32);
            assert_eq!(d, XYZ_FROM_SRGB_DENOMINATORS[i][j] as f32);
            let (n, d) = inverse[i][j];
            assert_eq!(n / d, f32::from_bits(SRGB_FROM_XYZ_MATRIX[i][j]));
            assert_eq!(n, SRGB_FROM_XYZ_NUMERATORS[i][j] as f32);
            assert_eq!(d, SRGB_FROM_XYZ_DENOMINATORS[i][j] as f32);
        }
    }
}

#[test]
fn exact_matrices_are_inverse() {
    for i in 0..3 {
        for j in 0..3 {
            let mut sum: f64 = 0.0;
            for k in 0..3 {
                sum += SRGB_FROM_XYZ_NUMERATORS[i][k] as f64 / SRGB_FROM_XYZ_DENOMINATORS[i][k] as f64
                    * (XYZ_FROM_SRGB_NUMERATORS[k][j] as f64 / XYZ_FROM_SRGB_DENOMINATORS[k][j] as f64);
            }
            let want = if i == j { 1.0 } else { 0.0 };
            assert!((sum - want).abs() < 1e-15, "{} {} {}", i, j, sum);
        }
    }
}

#[test]
fn exact_matrix_has_the_chromaticities() {
    let chromaticities = [(0.64f64, 0.33f64), (0.30, 0.60), (0.15, 0.06)];
    for j in 0..3 {
        let column: Vec<f64> = (0..3)
            .map(|i| XYZ_FROM_SRGB_NUMERATORS[i][j] as f64 / XYZ_FROM_SRGB_DENOMINATORS[i][j] as f64)
            .collect();
        let sum: f64 = column.iter().sum();
        assert!((column[0] / sum - chromaticities[j].0).abs() < 1e-15);
        assert!((column[1] / sum - chromaticities[j].1).abs() < 1e-15);
    }
    for i in 0..3 {
        let row: f64 = (0..3)
            .map(|j| XYZ_FROM_SRGB_NUMERATORS[i][j] as f64 / XYZ_FROM_SRGB_DENOMINATORS[i][j] as f64)
            .sum();
        let white = [0.312713 / 0.329016, 1.0, (1.0 - 0.312713 - 0.329016) / 0.329016];
        assert!((row - white[i]).abs() < 1e-15);
    }
}

#[test]
fn primaries_are_the_columns_of_the_matrix() {
    for i in 0..3 {
        for j in 0..3 {
            assert_eq!(XYZ_FROM_SRGB_MATRIX[i][j], PRIMARIES_XYZ[j][i]);
        }
    }
    assert_eq!([0.64, 0.33, 1.0], floats(PRIMARIES_xyY[0]));
    assert_eq!([0.30, 0.60, 1.0], floats(PRIMARIES_xyY[1]));
    assert_eq!([0.15, 0.06, 1.0], floats(PRIMARIES_xyY[2]));
}

#[test]
fn white_maps_to_the_white_point() {
    let got = floats(xyz_from_linear(bits([1.0, 1.0, 1.0])));
    let want = floats(D65_XYZ);
    for i in 0..3 {
        assert!((got[i] - want[i]).abs() <= 0.0000002, "{:?} {:?}", got, want);
    }
}
