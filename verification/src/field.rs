//! The escape field: a raster of escape counts, filled cell by cell in
//! row-major order.
//!
//! The caller computes the count of each cell. This module decides which
//! cell comes next, where a count is stored, and when the field is whole.

use vstd::prelude::*;

verus! {

/// A well-formed escape field: `height` rows of `width` counts each, no
/// count above the iteration budget.
pub open spec fn is_escape_field(
    field: Seq<Seq<usize>>,
    width: nat,
    height: nat,
    max_iters: nat,
) -> bool {
    &&& field.len() == height
    &&& forall|y: int| 0 <= y < field.len() ==> (#[trigger] field[y]).len() == width
    &&& forall|y: int, x: int|
        0 <= y < field.len() && 0 <= x < field[y].len() ==> #[trigger] field[y][x] <= max_iters
}

/// An escape field under construction.
pub struct FieldBuilder {
    width: usize,
    height: usize,
    max_iters: usize,
    rows: Vec<Vec<usize>>,
    row: Vec<usize>,
}

impl FieldBuilder {
    /// The number of columns of the raster.
    pub closed spec fn width(self) -> nat {
        self.width as nat
    }

    /// The number of rows of the raster.
    pub closed spec fn height(self) -> nat {
        self.height as nat
    }

    /// The iteration budget that bounds every count.
    pub closed spec fn max_iters(self) -> nat {
        self.max_iters as nat
    }

    /// The rows that are whole, top row first.
    pub closed spec fn rows(self) -> Seq<Seq<usize>> {
        self.rows.deep_view()
    }

    /// The counts recorded so far in the row that is being filled.
    pub closed spec fn partial(self) -> Seq<usize> {
        self.row@
    }

    /// Every row of the raster is whole.
    pub open spec fn is_complete(self) -> bool {
        self.rows().len() == self.height()
    }

    #[verifier::type_invariant]
    closed spec fn inv(self) -> bool {
        &&& is_escape_field(
            self.rows.deep_view(),
            self.width as nat,
            self.rows.len() as nat,
            self.max_iters as nat,
        )
        &&& self.rows.len() <= self.height
        &&& forall|x: int| 0 <= x < self.row.len() ==> #[trigger] self.row[x] <= self.max_iters
        &&& if self.rows.len() < self.height {
            self.row.len() < self.width
        } else {
            self.row.len() == 0
        }
    }

    /// Starts a field of `width` columns and `height` rows with no count
    /// recorded. A raster without columns is whole from the start: each of
    /// its rows is empty.
    pub fn new(width: usize, height: usize, max_iters: usize) -> (builder: Self)
        ensures
            builder.width() == width,
            builder.height() == height,
            builder.max_iters() == max_iters,
            builder.partial() == Seq::<usize>::empty(),
            builder.rows() == if width == 0 {
                Seq::new(height as nat, |y: int| Seq::<usize>::empty())
            } else {
                Seq::<Seq<usize>>::empty()
            },
    {
        let mut rows: Vec<Vec<usize>> = Vec::new();
        if width == 0 {
            while rows.len() < height
                invariant
                    rows.len() <= height,
                    forall|y: int| 0 <= y < rows.len() ==> (#[trigger] rows[y]).len() == 0,
                decreases height - rows.len(),
            {
                rows.push(Vec::new());
            }
        }
        let builder = FieldBuilder { width, height, max_iters, rows, row: Vec::new() };
        proof {
            let field = builder.rows.deep_view();
            assert forall|y: int| 0 <= y < field.len() implies (#[trigger] field[y]).len()
                == width by {
                assert(field[y] =~= builder.rows[y]@);
            }
            if width == 0 {
                assert(field =~= Seq::new(height as nat, |y: int| Seq::<usize>::empty())) by {
                    assert forall|y: int| 0 <= y < field.len() implies field[y]
                        == Seq::<usize>::empty() by {
                        assert(field[y] =~= Seq::<usize>::empty());
                    }
                }
            } else {
                assert(field =~= Seq::<Seq<usize>>::empty());
            }
        }
        builder
    }

    /// The cell whose count is to be recorded next, as column and row, or
    /// `None` when the field is whole. Cells come row by row from the top,
    /// and from left to right within a row.
    pub fn next_cell(&self) -> (cell: Option<(usize, usize)>)
        ensures
            cell == if self.is_complete() {
                None
            } else {
                Some((self.partial().len() as usize, self.rows().len() as usize))
            },
            cell matches Some((x, y)) ==> x < self.width() && y < self.height(),
    {
        proof {
            use_type_invariant(self);
        }
        if self.rows.len() < self.height {
            Some((self.row.len(), self.rows.len()))
        } else {
            None
        }
    }

    /// Records the count of the cell that `next_cell` names: the count is
    /// appended to the row that is being filled, and a row that reaches
    /// the raster's width joins the whole rows.
    pub fn record(self, count: usize) -> (next: Self)
        requires
            !self.is_complete(),
            count <= self.max_iters(),
        ensures
            next.width() == self.width(),
            next.height() == self.height(),
            next.max_iters() == self.max_iters(),
            self.partial().len() + 1 < self.width() ==> {
                &&& next.rows() == self.rows()
                &&& next.partial() == self.partial().push(count)
            },
            self.partial().len() + 1 >= self.width() ==> {
                &&& next.rows() == self.rows().push(self.partial().push(count))
                &&& next.partial() == Seq::<usize>::empty()
            },
    {
        proof {
            use_type_invariant(&self);
        }
        let FieldBuilder { width, height, max_iters, mut rows, mut row } = self;
        let ghost before = rows.deep_view();
        row.push(count);
        if row.len() == width {
            let ghost whole = row@;
            rows.push(row);
            row = Vec::new();
            proof {
                let after = rows.deep_view();
                assert forall|y: int| 0 <= y < after.len() implies after[y] == before.push(
                    whole,
                )[y] by {
                    assert(after[y] =~= rows[y]@);
                    if y < before.len() {
                        assert(before[y] =~= self.rows[y]@);
                    }
                }
                assert(after =~= before.push(whole));
            }
        }
        FieldBuilder { width, height, max_iters, rows, row }
    }

    /// Hands out the whole field.
    pub fn finish(self) -> (field: Vec<Vec<usize>>)
        requires
            self.is_complete(),
        ensures
            field.deep_view() == self.rows(),
            is_escape_field(field.deep_view(), self.width(), self.height(), self.max_iters()),
    {
        proof {
            use_type_invariant(&self);
        }
        self.rows
    }
}

} // verus!
