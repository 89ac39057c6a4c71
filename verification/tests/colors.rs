use hexelev::assemble::update_hex_colors;
use hexelev::assemble::ElevationSample;
use hexelev::cells::CellId;
use hexelev::color::elevation_to_color;
use hexelev::color::COLOR_DEN;
use hexelev::raster::ELEVATION_DEN;

#[test]
fn color_at_sea_level_takes_the_water_side() {
    let sea = elevation_to_color(0);
    assert_eq!(sea.hue_num, 200 * COLOR_DEN);
    assert_eq!(sea.sat_num, COLOR_DEN / 2);
    assert_eq!(sea.light_num, 7 * COLOR_DEN / 10);
}

#[test]
fn color_regimes_disagree_at_the_boundary() {
    // One elevation unit above sea level the land regime starts at hue 30,
    // saturation 0.5, lightness 0.3; each channel is within one step (at
    // most 300 / COLOR_DEN) of that limit, far from the water side's hue 200
    // and lightness 0.7.
    let sea = elevation_to_color(0);
    let land = elevation_to_color(1);
    assert!((land.hue_num - 30 * COLOR_DEN).abs() <= 300);
    assert!((land.sat_num - COLOR_DEN / 2).abs() <= 300);
    assert!((land.light_num - 3 * COLOR_DEN / 10).abs() <= 300);
    assert_eq!(sea.hue_num - land.hue_num, 170 * COLOR_DEN + 300);
    assert_eq!(sea.light_num - land.light_num, 4 * COLOR_DEN / 10 - 7);
}

#[test]
fn color_clamps_below_deepest_water() {
    assert_eq!(
        elevation_to_color(-5000 * ELEVATION_DEN),
        elevation_to_color(-1000 * ELEVATION_DEN)
    );
}

#[test]
fn color_clamps_above_highest_land() {
    assert_eq!(
        elevation_to_color(20_000 * ELEVATION_DEN),
        elevation_to_color(8000 * ELEVATION_DEN)
    );
}

#[test]
fn color_extremes() {
    let deepest = elevation_to_color(-1000 * ELEVATION_DEN);
    assert_eq!(deepest.hue_num, 220 * COLOR_DEN);
    assert_eq!(deepest.sat_num, 6 * COLOR_DEN / 10);
    assert_eq!(deepest.light_num, 3 * COLOR_DEN / 10);
    let highest = elevation_to_color(8000 * ELEVATION_DEN);
    assert_eq!(highest.hue_num, 0);
    assert_eq!(highest.sat_num, 0);
    assert_eq!(highest.light_num, COLOR_DEN);
}

#[test]
fn color_midway_values() {
    // 500 m under water: t' = 0.5, so hue 210, saturation 0.55, lightness 0.5.
    let mid_water = elevation_to_color(-500 * ELEVATION_DEN);
    assert_eq!(mid_water.hue_num, 210 * COLOR_DEN);
    assert_eq!(mid_water.sat_num, 55 * COLOR_DEN / 100);
    assert_eq!(mid_water.light_num, COLOR_DEN / 2);
    // 4000 m of land: t = 0.5, so hue 15, saturation 0.25, lightness 0.65.
    let mid_land = elevation_to_color(4000 * ELEVATION_DEN);
    assert_eq!(mid_land.hue_num, 15 * COLOR_DEN);
    assert_eq!(mid_land.sat_num, COLOR_DEN / 4);
    assert_eq!(mid_land.light_num, 65 * COLOR_DEN / 100);
}

#[test]
fn color_mapping_follows_the_encoder() {
    // A real cell index at resolution 0 (base cell 0).
    let cell = CellId::new(0x8001fffffffffff).unwrap();
    let elevations: [i128; 4] = [0, -1000 * ELEVATION_DEN, 4000 * ELEVATION_DEN, 1];
    let samples: Vec<ElevationSample> = elevations
        .iter()
        .map(|&elevation| ElevationSample { cell, elevation })
        .collect();
    let colors = update_hex_colors(&samples);
    assert_eq!(colors.len(), samples.len());
    for (color, &elevation) in colors.iter().zip(elevations.iter()) {
        assert_eq!(*color, elevation_to_color(elevation));
    }
}
