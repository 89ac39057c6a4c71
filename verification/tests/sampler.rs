use hexelev::errors::EngineError;
use hexelev::geo::GeoCoordinate;
use hexelev::raster::RasterGrid;
use hexelev::raster::ELEVATION_DEN;
use hexelev::raster::SAMPLE_DEN;

fn checkerboard() -> RasterGrid {
    let data: Vec<u8> = vec![
        10, 20, 30, 40, 50, 60, 70, 80, 90, 100, 110, 120, 130, 140, 150, 160,
    ];
    RasterGrid::from_raw(4, 4, data).unwrap()
}

fn split_grid() -> RasterGrid {
    let data: Vec<u8> = vec![
        0, 0, 255, 255, 0, 0, 255, 255, 0, 0, 255, 255, 0, 0, 255, 255,
    ];
    RasterGrid::from_raw(4, 4, data).unwrap()
}

#[test]
fn sampler_exact_at_pixel_center() {
    let grid = checkerboard();
    // On a 4x4 raster, latitude 30 and longitude -60 land exactly on the
    // pixel in column 1 of row 1, whose value is 60.
    let coord = GeoCoordinate::new(30_000_000, -60_000_000).unwrap();
    assert_eq!(grid.luminance_at_latlng(coord), 60 * SAMPLE_DEN);
    // The north-west corner of the globe is exactly the pixel (0, 0).
    let corner = GeoCoordinate::new(90_000_000, -180_000_000).unwrap();
    assert_eq!(grid.luminance_at_latlng(corner), 10 * SAMPLE_DEN);
    // The south-east corner is exactly the pixel (3, 3).
    let far = GeoCoordinate::new(-90_000_000, 180_000_000).unwrap();
    assert_eq!(grid.luminance_at_latlng(far), 160 * SAMPLE_DEN);
}

#[test]
fn sampler_bounded() {
    let grid = checkerboard();
    let coords = [
        (0, 0),
        (90_000_000, 180_000_000),
        (-90_000_000, -180_000_000),
        (12_345_678, -98_765_432),
        (-45_000_001, 179_999_999),
    ];
    for (lat, lng) in coords {
        let coord = GeoCoordinate::new(lat, lng).unwrap();
        let sample = grid.luminance_at_latlng(coord);
        assert!(sample <= 255 * SAMPLE_DEN);
    }
}

#[test]
fn elevation_affine_in_sample() {
    let grid = checkerboard();
    let coords = [(0, 0), (33_000_000, -120_000_000), (-88_000_000, 7_000_000)];
    for (lat, lng) in coords {
        let coord = GeoCoordinate::new(lat, lng).unwrap();
        let sample = grid.luminance_at_latlng(coord);
        let elevation = grid.elevation_at_latlng(coord);
        assert_eq!(elevation, 600 * sample as i128 - 1000 * ELEVATION_DEN);
        assert!(elevation >= -1000 * ELEVATION_DEN);
        assert!(elevation <= 8000 * ELEVATION_DEN);
    }
}

#[test]
fn scenario_center_blends_middle_columns() {
    // At the map center of a 4x4 raster whose left half is 0 and right half
    // is 255, the bilinear blend of the two middle columns is exactly 127.5,
    // and the elevation is -1000 + (127.5 / 255) * 9000 = 3500 meters.
    let grid = split_grid();
    let center = GeoCoordinate::new(0, 0).unwrap();
    assert_eq!(grid.luminance_at_latlng(center), 255 * SAMPLE_DEN / 2);
    assert_eq!(grid.elevation_at_latlng(center), 3500 * ELEVATION_DEN);
}

#[test]
fn minimal_raster_blends_all_four_pixels() {
    // A 2x2 raster sampled at the map center blends its four pixels with
    // equal weight: (0 + 100 + 200 + 255) / 4 = 138.75.
    let grid = RasterGrid::from_raw(2, 2, vec![0, 100, 200, 255]).unwrap();
    let center = GeoCoordinate::new(0, 0).unwrap();
    assert_eq!(grid.luminance_at_latlng(center), 555 * (SAMPLE_DEN / 4));
}

#[test]
fn raster_rejects_small_dimensions() {
    assert_eq!(
        RasterGrid::from_raw(1, 4, vec![0, 0, 0, 0]).unwrap_err(),
        EngineError::DimensionTooSmall
    );
    assert_eq!(
        RasterGrid::from_raw(3, 1, vec![0, 0, 0]).unwrap_err(),
        EngineError::DimensionTooSmall
    );
}

#[test]
fn raster_getters() {
    let grid = checkerboard();
    assert_eq!(grid.width(), 4);
    assert_eq!(grid.height(), 4);
    assert_eq!(grid.get(2, 0), 30);
    assert_eq!(grid.get(0, 2), 90);
}

#[test]
fn coordinate_rejects_off_globe() {
    assert_eq!(
        GeoCoordinate::new(90_000_001, 0).unwrap_err(),
        EngineError::InvalidCoordinate
    );
    assert_eq!(
        GeoCoordinate::new(0, -180_000_001).unwrap_err(),
        EngineError::InvalidCoordinate
    );
    let ok = GeoCoordinate::new(-90_000_000, 180_000_000).unwrap();
    assert_eq!(ok.lat_microdegrees(), -90_000_000);
    assert_eq!(ok.lng_microdegrees(), 180_000_000);
}
