use crate::cells::CellId;
use crate::color::color_of_elevation;
use crate::color::elevation_to_color;
use crate::color::DisplayColor;
use crate::geo::GeoCoordinate;
use crate::raster::elevation_num;
use crate::raster::RasterGrid;
use vstd::prelude::*;

verus! {

/// One cell of a disk paired with its centroid coordinate, as resolved by
/// the grid system.
#[derive(Clone, Copy, Debug)]
pub struct CellSite {
    /// The cell.
    pub cell: CellId,
    /// The geographic centroid of the cell.
    pub centroid: GeoCoordinate,
}

/// One cell's elevation: the elevation in meters at the cell's centroid,
/// held as a numerator over `ELEVATION_DEN`.
#[derive(Clone, Copy, Debug)]
pub struct ElevationSample {
    /// The cell.
    pub cell: CellId,
    /// The elevation at the cell's centroid, over `ELEVATION_DEN`.
    pub elevation: i128,
}

/// Maps every cell of a disk to the elevation at its centroid: one sample
/// per site, in the sites' order, each carrying exactly the sampler's
/// elevation for that site's centroid. No cell is dropped or duplicated: the
/// sequence of result cells equals the sequence of input cells, so distinct
/// input cells give distinct result cells.
pub fn h3_cells_to_elevation_map(grid: &RasterGrid, sites: &Vec<CellSite>) -> (r: Vec<
    ElevationSample,
>)
    ensures
        r@.len() == sites@.len(),
        forall|i: int| 0 <= i < sites@.len() ==> (#[trigger] r@[i]).cell == sites@[i].cell,
        forall|i: int|
            0 <= i < sites@.len() ==> (#[trigger] r@[i]).elevation == elevation_num(
                grid.spec_data(),
                grid.spec_width(),
                grid.spec_height(),
                sites@[i].centroid.lat(),
                sites@[i].centroid.lng(),
            ),
        r@.map_values(|s: ElevationSample| s.cell) == sites@.map_values(|s: CellSite| s.cell),
        sites@.map_values(|s: CellSite| s.cell).no_duplicates() ==> r@.map_values(
            |s: ElevationSample| s.cell,
        ).no_duplicates(),
{
    let mut r: Vec<ElevationSample> = Vec::new();
    let mut i: usize = 0;
    while i < sites.len()
        invariant
            i <= sites@.len(),
            r@.len() == i,
            forall|j: int| 0 <= j < i ==> (#[trigger] r@[j]).cell == sites@[j].cell,
            forall|j: int|
                0 <= j < i ==> (#[trigger] r@[j]).elevation == elevation_num(
                    grid.spec_data(),
                    grid.spec_width(),
                    grid.spec_height(),
                    sites@[j].centroid.lat(),
                    sites@[j].centroid.lng(),
                ),
        decreases sites@.len() - i,
    {
        let site: CellSite = sites[i];
        let elevation: i128 = grid.elevation_at_latlng(site.centroid);
        r.push(ElevationSample { cell: site.cell, elevation });
        i += 1;
    }
    proof {
        assert(r@.map_values(|s: ElevationSample| s.cell) =~= sites@.map_values(
            |s: CellSite| s.cell,
        ));
    }
    r
}

/// Attaches to every elevation sample the display color of its elevation:
/// one color per sample, in the samples' order, each exactly the color
/// encoder's value. A rendering layer that re-reads elevations each frame
/// recomputes exactly this mapping.
pub fn update_hex_colors(samples: &Vec<ElevationSample>) -> (r: Vec<DisplayColor>)
    ensures
        r@.len() == samples@.len(),
        forall|i: int|
            0 <= i < samples@.len() ==> #[trigger] r@[i] == color_of_elevation(
                samples@[i].elevation as int,
            ),
{
    let mut r: Vec<DisplayColor> = Vec::new();
    let mut i: usize = 0;
    while i < samples.len()
        invariant
            i <= samples@.len(),
            r@.len() == i,
            forall|j: int|
                0 <= j < i ==> #[trigger] r@[j] == color_of_elevation(
                    samples@[j].elevation as int,
                ),
        decreases samples@.len() - i,
    {
        r.push(elevation_to_color(samples[i].elevation));
        i += 1;
    }
    r
}

} // verus!
