use coastal_engineering_platform::waves::scalar::Scalar;

#[test]
fn test_grid_spacing_calculation_edge_cases() {
    // Test various scenarios
    let test_cases = vec![
        (10.0, 11, 1.0),          // Simple case: 10m, 11 points = 1m spacing
        (100.0, 101, 1.0),        // 100m, 101 points = 1m spacing
        (1.0, 11, 0.1),           // 1m, 11 points = 0.1m spacing
        (50.0, 100, 50.0 / 99.0), // Default case
    ];

    for (length, resolution, expected) in test_cases {
        let calculated: f64 = length / (resolution as f64 - 1.0);
        assert!(
            (calculated - expected).abs() < 1e-10,
            "Failed for length={}, resolution={}: expected {}, got {}",
            length,
            resolution,
            expected,
            calculated
        );
        let gap = Scalar::from_bits((calculated - expected).to_bits()).abs();
        assert!(gap.lt(Scalar::from_bits(1e-10f64.to_bits())));
    }
}
