use crate::errors::EngineError;
use vstd::prelude::*;

verus! {

/// The finest resolution the hexagonal grid system supports; resolutions run
/// from 0 (coarsest) to 15 (finest).
pub const MAX_GRID_RESOLUTION: u8 = 15;

/// Whether a 64-bit index denotes a cell of the hexagonal global grid; the
/// named result of the grid system's validity check, a pure function of the
/// index.
pub uninterp spec fn valid_cell(index: u64) -> bool;

/// The resolution the grid system assigns to a valid cell index; the named
/// result of its resolution lookup, a pure function of the index.
pub uninterp spec fn cell_resolution_of(index: u64) -> u8;

/// The set of cell indexes within `k` grid steps of the cell `center`,
/// center included; the named result of the grid system's disk enumeration,
/// a pure function of center and distance.
pub uninterp spec fn disk_cells(center: u64, k: nat) -> Set<u64>;

/// Relies on h3ron's `Index::is_valid` (libh3 `isValidCell`): whether the
/// index denotes a cell of the grid, a deterministic check of the index's
/// bit layout.
#[verifier::external_body]
fn h3_index_is_valid(index: u64) -> (r: bool)
    ensures
        r == valid_cell(index),
{
    let cell = <h3ron::H3Cell as h3ron::Index>::new(index);
    <h3ron::H3Cell as h3ron::Index>::is_valid(&cell)
}

/// Relies on h3ron's `Index::resolution` (libh3 `getResolution`), which
/// reads the resolution, 0 through 15, out of a valid cell index.
#[verifier::external_body]
fn h3_cell_resolution(index: u64) -> (r: u8)
    requires
        valid_cell(index),
    ensures
        r == cell_resolution_of(index),
        r <= MAX_GRID_RESOLUTION,
{
    <h3ron::H3Cell as h3ron::Index>::resolution(
        &<h3ron::H3Cell as h3ron::Index>::new(index),
    )
}

/// Relies on h3ron's `H3Cell::grid_disk` (libh3 `gridDisk`), which produces
/// all cells within `k` grid steps of a valid origin, each exactly once:
/// `k = 0` is the origin alone and each larger `k` adds the surrounding
/// rings, so the disk of a smaller distance is contained in every larger
/// one. The iterator over the result skips the zero padding libh3 leaves in
/// its output array. For a valid origin, libh3's only refusal is a ring
/// count it sees as negative — h3ron hands `k` to C as an `int`, so that
/// means `k` above `i32::MAX` — and the call otherwise succeeds (a failed
/// allocation aside, as with every allocation).
#[verifier::external_body]
fn h3_grid_disk(center: u64, k: u32) -> (r: Option<Vec<u64>>)
    requires
        valid_cell(center),
    ensures
        k <= i32::MAX ==> r is Some,
        r matches Some(cells) ==> cells@.no_duplicates(),
        r matches Some(cells) ==> cells@.contains(center),
        r matches Some(cells) ==> cells@.to_set() == disk_cells(center, k as nat),
        r matches Some(cells) ==> (k == 0 ==> cells@ =~= seq![center]),
        r matches Some(cells) ==> (forall|j: nat|
            j <= k ==> disk_cells(center, j).subset_of(cells@.to_set())),
        r matches Some(cells) ==> (forall|i: int|
            0 <= i < cells@.len() ==> valid_cell(#[trigger] cells@[i])),
{
    let cell = <h3ron::H3Cell as h3ron::Index>::new(center);
    match cell.grid_disk(k) {
        Ok(found) => Some(
            found.iter().map(|c| <h3ron::H3Cell as h3ron::Index>::h3index(&c)).collect(),
        ),
        Err(_) => None,
    }
}

/// An identifier of one cell of the hexagonal global grid at some
/// resolution: a 64-bit packed index with structural equality. Every value
/// of this type denotes a valid cell.
#[derive(Clone, Copy, Debug, PartialEq, Eq, Structural, Hash)]
pub struct CellId {
    index: u64,
}

impl View for CellId {
    type V = u64;

    closed spec fn view(&self) -> u64 {
        self.index
    }
}

impl CellId {
    #[verifier::type_invariant]
    spec fn inv(self) -> bool {
        valid_cell(self.index)
    }

    /// Builds a cell identifier from a raw 64-bit index, rejecting anything
    /// the grid system does not recognize as a cell.
    pub fn new(index: u64) -> (r: Result<CellId, EngineError>)
        ensures
            r is Ok <==> valid_cell(index),
            r matches Ok(c) ==> c@ == index,
            r matches Err(e) ==> e == EngineError::InvalidCellId,
    {
        if h3_index_is_valid(index) {
            Ok(CellId { index })
        } else {
            Err(EngineError::InvalidCellId)
        }
    }

    /// The raw 64-bit index of the cell.
    pub fn h3index(&self) -> (r: u64)
        ensures
            r == self@,
            valid_cell(r),
    {
        proof {
            use_type_invariant(*self);
        }
        self.index
    }

    /// The resolution of the cell, 0 through 15.
    pub fn resolution(&self) -> (r: u8)
        ensures
            r == cell_resolution_of(self@),
            r <= MAX_GRID_RESOLUTION,
    {
        proof {
            use_type_invariant(*self);
        }
        h3_cell_resolution(self.index)
    }

    /// All cells within `k` grid steps of this cell, this cell included,
    /// each exactly once and in a deterministic order: exactly the set
    /// `disk_cells(self@, k)`. The one failure is a negative `k`; any other
    /// ring count the grid system's interface can carry succeeds. `k = 0`
    /// yields this cell alone; and since every disk holds all cells within
    /// its distance, the disk of any smaller distance is a subset of the one
    /// returned.
    pub fn disk(&self, k: i64) -> (r: Result<Vec<CellId>, EngineError>)
        requires
            k <= i32::MAX,
        ensures
            r is Ok <==> 0 <= k,
            r matches Err(e) ==> e == EngineError::NegativeDistance,
            r matches Ok(cells) ==> cells@.map_values(|c: CellId| c@).to_set() == disk_cells(
                self@,
                k as nat,
            ),
            r matches Ok(cells) ==> cells@.no_duplicates() && cells@.map_values(
                |c: CellId| c@,
            ).no_duplicates(),
            r matches Ok(cells) ==> cells@.map_values(|c: CellId| c@).contains(self@),
            r matches Ok(cells) ==> (k == 0 ==> cells@.map_values(|c: CellId| c@) =~= seq![self@]),
            r matches Ok(cells) ==> (forall|j: nat|
                j <= k ==> disk_cells(self@, j).subset_of(
                    cells@.map_values(|c: CellId| c@).to_set(),
                )),
    {
        proof {
            use_type_invariant(*self);
        }
        if k < 0 {
            return Err(EngineError::NegativeDistance);
        }
        match h3_grid_disk(self.index, k as u32) {
            None => unreached(),
            Some(raw) => {
                let ghost all = raw@;
                let mut cells: Vec<CellId> = Vec::new();
                let mut i: usize = 0;
                while i < raw.len()
                    invariant
                        i <= all.len(),
                        raw@ == all,
                        cells@.len() == i,
                        forall|j: int| 0 <= j < i ==> (#[trigger] cells@[j])@ == all[j],
                        forall|j: int| 0 <= j < all.len() ==> valid_cell(#[trigger] all[j]),
                    decreases all.len() - i,
                {
                    let index: u64 = raw[i];
                    cells.push(CellId { index });
                    i += 1;
                }
                proof {
                    assert(cells@.map_values(|c: CellId| c@) =~= all);
                    assert forall|a: int, b: int|
                        0 <= a < cells@.len() && 0 <= b < cells@.len() && a != b implies cells@[a]
                        != cells@[b] by {
                        assert(cells@[a]@ == all[a]);
                        assert(cells@[b]@ == all[b]);
                    }
                }
                Ok(cells)
            },
        }
    }
}

/// Checks a requested grid resolution against the range the grid system
/// supports, handing back the resolution as the grid system takes it.
pub fn validate_resolution(resolution: i64) -> (r: Result<u8, EngineError>)
    ensures
        r is Ok <==> 0 <= resolution <= MAX_GRID_RESOLUTION,
        r matches Ok(v) ==> v == resolution,
        r matches Err(e) ==> e == EngineError::UnsupportedResolution,
{
    if 0 <= resolution && resolution <= MAX_GRID_RESOLUTION as i64 {
        Ok(resolution as u8)
    } else {
        Err(EngineError::UnsupportedResolution)
    }
}

} // verus!
