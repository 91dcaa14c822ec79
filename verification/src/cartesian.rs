//! Looking up the pixels of a picture that the pixels of spokes belong to.
use vstd::prelude::*;

verus! {

/// A table of the crate ndarray with a row for each spoke and a column for each pixel of a spoke.
#[verifier::external_body]
pub struct PointTable {
    table: ndarray::Array2<(i16, i16)>,
}

/// The elements of a table, row by row.
pub uninterp spec fn table_points(table: PointTable) -> Seq<(i16, i16)>;

/// The length of the rows of a table.
pub uninterp spec fn table_width(table: PointTable) -> nat;

/// `ndarray::Array2::from_shape_vec` makes a table of rows out of a vector. It fails where the vector
/// has more or fewer elements than the table, and where the table has more rows or columns than
/// `isize::MAX`.
#[verifier::external_body]
fn make_table(rows: usize, width: usize, points: Vec<(i16, i16)>) -> (r: Option<PointTable>)
    ensures
        r is Some ==> rows * width == points@.len() && isize::MAX >= rows && isize::MAX >= width,
        r is None ==> rows * width != points@.len() || isize::MAX < rows || isize::MAX < width,
        r matches Some(t) ==> table_points(t) == points@ && table_width(t) == width,
{
    match ndarray::Array2::from_shape_vec((rows, width), points) {
        Ok(table) => Some(PointTable { table }),
        Err(_) => None,
    }
}

/// Indexing an `ndarray::Array2` yields the element in a row and a column.
#[verifier::external_body]
fn table_at(table: &PointTable, row: usize, column: usize) -> (r: (i16, i16))
    requires
        column < table_width(*table),
        row * table_width(*table) + column < table_points(*table).len(),
    ensures
        r == table_points(*table)[row * table_width(*table) + column],
{
    table.table[[row, column]]
}

/// A pixel of a picture, relative to its center.
#[derive(Clone, Copy, Debug, PartialEq, Eq, Structural)]
pub struct PointInt {
    pub x: i16,
    pub y: i16,
}

/// The pixels of a picture that the pixels of spokes belong to.
pub struct PolarToCartesianLookup {
    pub spokes_per_revolution: usize,
    pub spoke_len: usize,
    pub xyi: PointTable,
}

impl PolarToCartesianLookup {
    /// There is a pixel for every pixel of every spoke.
    pub open spec fn well_formed(&self) -> bool {
        &&& table_width(self.xyi) == self.spoke_len
        &&& table_points(self.xyi).len() == self.spokes_per_revolution * self.spoke_len
    }

    /// The pixel for a pixel of a spoke.
    pub open spec fn point(&self, angle: int, radius: int) -> PointInt {
        let p = table_points(self.xyi)[angle % (self.spokes_per_revolution as int)
            * self.spoke_len + radius];
        PointInt { x: p.0, y: p.1 }
    }

    /// Makes the table out of the pixels for the spokes, spoke by spoke.
    pub fn new(spokes_per_revolution: usize, spoke_len: usize, points: Vec<(i16, i16)>) -> (r:
        Option<PolarToCartesianLookup>)
        ensures
            r is Some <==> {
                &&& points@.len() == spokes_per_revolution * spoke_len
                &&& spokes_per_revolution <= isize::MAX
                &&& spoke_len <= isize::MAX
            },
            r matches Some(lookup) ==> {
                &&& lookup.well_formed()
                &&& lookup.spokes_per_revolution == spokes_per_revolution
                &&& lookup.spoke_len == spoke_len
                &&& forall|angle: int, radius: int|
                    0 <= angle < spokes_per_revolution && 0 <= radius < spoke_len ==> (
                    #[trigger] lookup.point(angle, radius)) == (PointInt {
                        x: points@[angle * spoke_len + radius].0,
                        y: points@[angle * spoke_len + radius].1,
                    })
            },
    {
        match make_table(spokes_per_revolution, spoke_len, points) {
            Some(xyi) => {
                let lookup = PolarToCartesianLookup { spokes_per_revolution, spoke_len, xyi };
                proof {
                    assert forall|angle: int, radius: int|
                        0 <= angle < spokes_per_revolution && 0 <= radius < spoke_len implies (
                    #[trigger] lookup.point(angle, radius)) == (PointInt {
                        x: points@[angle * spoke_len + radius].0,
                        y: points@[angle * spoke_len + radius].1,
                    }) by {
                        vstd::arithmetic::div_mod::lemma_small_mod(
                            angle as nat,
                            spokes_per_revolution as nat,
                        );
                    }
                }
                Some(lookup)
            },
            None => None,
        }
    }

    /// The pixel for a pixel of a spoke. Angles start again after a revolution.
    pub fn get_point_int(&self, angle: usize, radius: usize) -> (p: PointInt)
        requires
            self.well_formed(),
            self.spokes_per_revolution > 0,
            radius < self.spoke_len,
            angle + self.spokes_per_revolution <= usize::MAX,
        ensures
            p == self.point(angle as int, radius as int),
    {
        let row: usize = (angle + self.spokes_per_revolution) % self.spokes_per_revolution;
        proof {
            let n = self.spokes_per_revolution as int;
            vstd::arithmetic::div_mod::lemma_mod_add_multiples_vanish(angle as int, n);
            assert(row == angle as int % n);
            let len = self.spoke_len as int;
            assert(row * len + radius < n * len) by (nonlinear_arith)
                requires
                    0 <= row < n,
                    0 <= radius < len,
            ;
        }
        let p: (i16, i16) = table_at(&self.xyi, row, radius);
        PointInt { x: p.0, y: p.1 }
    }
}

/// A pixel of a spoke belongs to the same pixel of the picture after each revolution.
pub proof fn angles_repeat(lookup: PolarToCartesianLookup, angle: int, radius: int)
    requires
        lookup.well_formed(),
        lookup.spokes_per_revolution > 0,
    ensures
        lookup.point(angle + lookup.spokes_per_revolution, radius) == lookup.point(angle, radius),
{
    vstd::arithmetic::div_mod::lemma_mod_add_multiples_vanish(
        angle,
        lookup.spokes_per_revolution as int,
    );
}

/// The points of a table stand spoke by spoke: those of one spoke next to each other, and those of the
/// next spoke behind them.
pub proof fn spokes_stand_behind_each_other(
    lookup: PolarToCartesianLookup,
    angle: int,
    radius: int,
    i: int,
)
    requires
        lookup.well_formed(),
        0 <= angle < lookup.spokes_per_revolution,
        0 <= radius < lookup.spoke_len,
        i == angle * lookup.spoke_len + radius,
    ensures
        lookup.point(angle, radius).x == table_points(lookup.xyi)[i].0,
        lookup.point(angle, radius).y == table_points(lookup.xyi)[i].1,
        0 <= i < table_points(lookup.xyi).len(),
{
    vstd::arithmetic::div_mod::lemma_small_mod(angle as nat, lookup.spokes_per_revolution as nat);
    let n = lookup.spokes_per_revolution as int;
    let len = lookup.spoke_len as int;
    assert(0 <= angle * len + radius < n * len) by (nonlinear_arith)
        requires
            0 <= angle < n,
            0 <= radius < len,
    ;
}

} // verus!
