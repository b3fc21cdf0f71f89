//! `Vec2D<T>`: a fixed-shape two-dimensional container stored as one
//! contiguous, row-major buffer. The shape is chosen at construction and
//! never changes; every element starts out as the fill value handed to the
//! constructor; access is by row view or by single cell, always bounds
//! checked through the contracts.

use vstd::prelude::*;
use vstd::pervasive::VecAdditionalExecFns;
use vstd::slice::slice_subrange;

verus! {

/// A two-dimensional container backed by a single contiguous allocation,
/// laid out row-major: the cell at row `j`, column `i` lives at flat
/// offset `j * col_count + i`.
pub struct Vec2D<T> {
    data: Vec<T>,
    n_rows: usize,
    n_cols: usize,
}

impl<T> Vec2D<T> {
    /// Shape and storage agree: the flat buffer holds exactly
    /// `row_count * col_count` elements.
    pub closed spec fn wf(&self) -> bool {
        self.data.len() == self.spec_row_count() * self.spec_col_count()
    }

    pub closed spec fn spec_row_count(&self) -> usize {
        self.n_rows
    }

    pub closed spec fn spec_col_count(&self) -> usize {
        self.n_cols
    }

    /// The flat, row-major contents of the backing buffer.
    pub closed spec fn flat(&self) -> Seq<T> {
        self.data@
    }

    /// The flat offset of the cell at row `j`, column `i`.
    pub open spec fn offset(&self, j: int, i: int) -> int {
        j * (self.spec_col_count() as int) + i
    }

    /// The cell at row `j`, column `i`: by definition, the element of the
    /// flat buffer at offset `j * col_count + i`.
    pub open spec fn cell(&self, j: int, i: int) -> T {
        self.flat()[self.offset(j, i)]
    }

    /// `(j, i)` addresses a cell of this container's shape.
    pub open spec fn valid_index(&self, j: int, i: int) -> bool {
        0 <= j < self.spec_row_count() && 0 <= i < self.spec_col_count()
    }

    #[verifier::when_used_as_spec(spec_row_count)]
    pub fn row_count(&self) -> (r: usize)
        ensures
            r == self.spec_row_count(),
    {
        self.n_rows
    }

    #[verifier::when_used_as_spec(spec_col_count)]
    pub fn col_count(&self) -> (r: usize)
        ensures
            r == self.spec_col_count(),
    {
        self.n_cols
    }

    /// A valid index addresses a flat offset inside the buffer.
    pub proof fn lemma_offset_in_bounds(self, j: int, i: int)
        requires
            self.wf(),
            self.valid_index(j, i),
        ensures
            0 <= self.offset(j, i) < self.flat().len(),
    {
        assert(0 <= j * (self.spec_col_count() as int) + i < (self.spec_row_count() as int)
            * (self.spec_col_count() as int)) by (nonlinear_arith)
            requires
                0 <= j < self.spec_row_count() as int,
                0 <= i < self.spec_col_count() as int,
        ;
    }

    /// A borrowed view of row `j`: the `col_count` contiguous elements
    /// starting at flat offset `j * col_count`. Requesting a row index at
    /// or past `row_count` is a caller contract violation, not a
    /// recoverable condition.
    pub fn row(&self, j: usize) -> (r: &[T])
        requires
            self.wf(),
            j < self.spec_row_count(),
        ensures
            r@.len() == self.spec_col_count(),
            forall|i: int| 0 <= i < self.spec_col_count() ==> r@[i] == self.cell(j as int, i),
    {
        proof {
            let c = self.spec_col_count() as int;
            assert(0 <= (j as int) * c && (j as int) * c + c <= (self.spec_row_count() as int)
                * c) by (nonlinear_arith)
                requires
                    0 <= j as int,
                    j as int + 1 <= self.spec_row_count() as int,
                    0 <= c,
            ;
        }
        let start: usize = j * self.n_cols;
        let end: usize = start + self.n_cols;
        let r = slice_subrange(self.data.as_slice(), start, end);
        proof {
            assert forall|i: int| 0 <= i < self.spec_col_count() implies r@[i] == self.cell(
                j as int,
                i,
            ) by {
                assert(r@[i] == self.flat()[start + i]);
            }
        }
        r
    }

    /// The bounds-checked form of `row`: a row view exactly when `j` is in
    /// range. Requesting row `j` of a container with `row_count` rows
    /// succeeds if and only if `j < row_count`; out of range, nothing is
    /// read and `None` says so.
    pub fn try_row(&self, j: usize) -> (r: Option<&[T]>)
        requires
            self.wf(),
        ensures
            r is Some <==> j < self.spec_row_count(),
            r matches Some(s) ==> s@.len() == self.spec_col_count() && forall|i: int|
                0 <= i < self.spec_col_count() ==> s@[i] == self.cell(j as int, i),
    {
        if j < self.n_rows {
            Some(self.row(j))
        } else {
            None
        }
    }

    /// Exchanges the backing buffers of two same-shaped containers in
    /// constant time, without copying or reallocating: each container ends
    /// up owning the other's former storage, cell for cell, and both keep
    /// their shape.
    pub fn swap_buffers(&mut self, other: &mut Vec2D<T>)
        requires
            old(self).wf(),
            old(other).wf(),
            old(self).spec_row_count() == old(other).spec_row_count(),
            old(self).spec_col_count() == old(other).spec_col_count(),
        ensures
            final(self).wf(),
            final(other).wf(),
            final(self).spec_row_count() == old(self).spec_row_count(),
            final(self).spec_col_count() == old(self).spec_col_count(),
            final(other).spec_row_count() == old(other).spec_row_count(),
            final(other).spec_col_count() == old(other).spec_col_count(),
            *final(self) == *old(other),
            *final(other) == *old(self),
            final(self).flat() == old(other).flat(),
            final(other).flat() == old(self).flat(),
            forall|j: int, i: int|
                old(self).valid_index(j, i) ==> final(self).cell(j, i) == old(other).cell(j, i),
            forall|j: int, i: int|
                old(other).valid_index(j, i) ==> final(other).cell(j, i) == old(self).cell(j, i),
    {
        core::mem::swap(&mut self.data, &mut other.data);
    }

    /// Distinct valid indices address distinct flat offsets: the row-major
    /// layout maps cell coordinates to buffer offsets injectively.
    pub proof fn lemma_offset_injective(self, j1: int, i1: int, j2: int, i2: int)
        requires
            self.valid_index(j1, i1),
            self.valid_index(j2, i2),
            self.offset(j1, i1) == self.offset(j2, i2),
        ensures
            j1 == j2,
            i1 == i2,
    {
        assert(j1 == j2 && i1 == i2) by (nonlinear_arith)
            requires
                0 <= j1,
                0 <= j2,
                0 <= i1 < self.spec_col_count() as int,
                0 <= i2 < self.spec_col_count() as int,
                j1 * (self.spec_col_count() as int) + i1 == j2 * (self.spec_col_count() as int)
                    + i2,
        ;
    }
}

impl<T: Copy> Vec2D<T> {
    /// Builds a `row_count × col_count` container with every cell set to
    /// `fill`. The shape's byte size `row_count * col_count * size_of::<T>()`
    /// must stay within the addressable range: a shape whose element count
    /// or byte size cannot be represented is a fatal capacity overflow, a
    /// caller error excluded here by precondition, never a recoverable
    /// condition and never a usable-but-degraded container.
    pub fn new(row_count: usize, col_count: usize, fill: T) -> (r: Self)
        requires
            row_count * col_count <= usize::MAX,
            row_count * col_count * vstd::layout::size_of::<T>() <= isize::MAX,
        ensures
            r.wf(),
            r.spec_row_count() == row_count,
            r.spec_col_count() == col_count,
            forall|j: int, i: int| r.valid_index(j, i) ==> r.cell(j, i) == fill,
    {
        let total: usize = row_count * col_count;
        let mut data: Vec<T> = Vec::new();
        let mut k: usize = 0;
        while k < total
            invariant
                k <= total,
                data.len() == k,
                forall|m: int| 0 <= m < k ==> data@[m] == fill,
            decreases total - k,
        {
            data.push(fill);
            k = k + 1;
        }
        let r = Vec2D { data, n_rows: row_count, n_cols: col_count };
        proof {
            assert forall|j: int, i: int| r.valid_index(j, i) implies r.cell(j, i) == fill by {
                r.lemma_offset_in_bounds(j, i);
            }
        }
        r
    }

    /// Reads the cell at row `j`, column `i`.
    pub fn get(&self, j: usize, i: usize) -> (r: T)
        requires
            self.wf(),
            self.valid_index(j as int, i as int),
        ensures
            r == self.cell(j as int, i as int),
    {
        proof {
            self.lemma_offset_in_bounds(j as int, i as int);
        }
        let off: usize = j * self.n_cols + i;
        self.data[off]
    }
}

impl<T> Vec2D<T> {
    /// Writes `v` to the cell at row `j`, column `i`; the written cell
    /// then reads back as `v` and every other cell is unaffected.
    pub fn set(&mut self, j: usize, i: usize, v: T)
        requires
            old(self).wf(),
            old(self).valid_index(j as int, i as int),
        ensures
            final(self).wf(),
            final(self).spec_row_count() == old(self).spec_row_count(),
            final(self).spec_col_count() == old(self).spec_col_count(),
            final(self).flat() == old(self).flat().update(
                old(self).offset(j as int, i as int),
                v,
            ),
            final(self).cell(j as int, i as int) == v,
            forall|j2: int, i2: int|
                old(self).valid_index(j2, i2) && !(j2 == j as int && i2 == i as int)
                    ==> final(self).cell(j2, i2) == old(self).cell(j2, i2),
    {
        proof {
            self.lemma_offset_in_bounds(j as int, i as int);
        }
        let off: usize = j * self.n_cols + i;
        self.data.set(off, v);
        proof {
            assert forall|j2: int, i2: int|
                old(self).valid_index(j2, i2) && !(j2 == j as int && i2 == i as int)
                    implies final(self).cell(j2, i2) == old(self).cell(j2, i2) by {
                old(self).lemma_offset_in_bounds(j2, i2);
                if old(self).offset(j2, i2) == old(self).offset(j as int, i as int) {
                    old(self).lemma_offset_injective(j2, i2, j as int, i as int);
                }
            }
        }
    }

    /// The bounds-checked form of `set`: the write happens exactly when
    /// `(j, i)` is in range, and the result says whether it did; out of
    /// range, the container is left untouched.
    pub fn try_set(&mut self, j: usize, i: usize, v: T) -> (ok: bool)
        requires
            old(self).wf(),
        ensures
            ok <==> old(self).valid_index(j as int, i as int),
            final(self).wf(),
            final(self).spec_row_count() == old(self).spec_row_count(),
            final(self).spec_col_count() == old(self).spec_col_count(),
            ok ==> final(self).flat() == old(self).flat().update(
                old(self).offset(j as int, i as int),
                v,
            ) && final(self).cell(j as int, i as int) == v && forall|j2: int, i2: int|
                old(self).valid_index(j2, i2) && !(j2 == j as int && i2 == i as int)
                    ==> final(self).cell(j2, i2) == old(self).cell(j2, i2),
            !ok ==> *final(self) == *old(self),
    {
        if j < self.n_rows && i < self.n_cols {
            self.set(j, i, v);
            true
        } else {
            false
        }
    }
}

} // verus!
