//! Rectangular buffers and their mathematical model.
//!
//! A `Field` holds one value per sample of a rectangular lattice, row by row.
//! Its view is a `Lattice`: a width, a height and the sequence of the values.
//! Contracts speak of a field through the value `at(i, j)` in column `i` of
//! row `j` of its view.
use vstd::prelude::*;

verus! {

/// The mathematical model of a rectangular buffer.
pub struct Lattice<T> {
    pub width: nat,
    pub height: nat,
    pub cells: Seq<T>,
}

/// Position of sample `(i, j)` in a row-major buffer of the given width.
pub open spec fn flat_index(width: int, i: int, j: int) -> int {
    j * width + i
}

/// A sample inside a `width` by `height` lattice has a position inside the
/// buffer, and the position determines the sample.
pub proof fn lemma_flat_index_bounds(width: int, height: int, i: int, j: int)
    by (nonlinear_arith)
    requires
        0 <= i < width,
        0 <= j < height,
    ensures
        0 <= flat_index(width, i, j) < width * height,
        j * width + i == flat_index(width, i, j),
        j * width >= 0,
        (j + 1) * width <= width * height,
        flat_index(width, i, j) % width == i,
        flat_index(width, i, j) / width == j,
{
}

/// Every position inside the buffer belongs to one sample of the lattice.
pub proof fn lemma_flat_index_onto(width: int, height: int, k: int)
    by (nonlinear_arith)
    requires
        0 <= k < width * height,
        0 < width,
    ensures
        0 <= k % width < width,
        0 <= k / width < height,
        flat_index(width, k % width, k / width) == k,
{
}

impl<T> Lattice<T> {
    /// The sequence holds exactly one value per sample.
    pub open spec fn wf(self) -> bool {
        self.cells.len() == self.width * self.height
    }

    /// `(i, j)` names a sample of this lattice.
    pub open spec fn has(self, i: int, j: int) -> bool {
        0 <= i < self.width && 0 <= j < self.height
    }

    /// The value in column `i` of row `j`.
    pub open spec fn at(self, i: int, j: int) -> T
        recommends
            self.has(i, j),
    {
        self.cells[flat_index(self.width as int, i, j)]
    }

    /// Both lattices have the same shape.
    pub open spec fn same_shape<U>(self, other: Lattice<U>) -> bool {
        self.width == other.width && self.height == other.height
    }

    /// Every sample holds `value`.
    pub open spec fn uniform(self, value: T) -> bool {
        forall|i: int, j: int| self.has(i, j) ==> #[trigger] self.at(i, j) == value
    }

    /// The lattice of the given shape whose sample `(i, j)` holds `f(i, j)`.
    pub open spec fn tabulate(width: nat, height: nat, f: spec_fn(int, int) -> T) -> Lattice<T> {
        Lattice {
            width,
            height,
            cells: Seq::new(
                width * height,
                |k: int| f(k % (width as int), k / (width as int)),
            ),
        }
    }

    /// A tabulated lattice is well formed and holds `f(i, j)` at `(i, j)`.
    pub proof fn lemma_tabulate(width: nat, height: nat, f: spec_fn(int, int) -> T)
        ensures
            Self::tabulate(width, height, f).wf(),
            Self::tabulate(width, height, f).width == width,
            Self::tabulate(width, height, f).height == height,
            forall|i: int, j: int|
                0 <= i < width && 0 <= j < height ==> #[trigger] Self::tabulate(
                    width,
                    height,
                    f,
                ).at(i, j) == f(i, j),
    {
        let t = Self::tabulate(width, height, f);
        assert forall|i: int, j: int| 0 <= i < width && 0 <= j < height implies #[trigger] t.at(
            i,
            j,
        ) == f(i, j) by {
            lemma_flat_index_bounds(width as int, height as int, i, j);
        }
    }

    /// Two well-formed lattices of one shape that hold the same value at every
    /// sample are the same lattice.
    pub proof fn lemma_ext_equal(self, other: Lattice<T>)
        requires
            self.wf(),
            other.wf(),
            self.same_shape(other),
            forall|i: int, j: int| self.has(i, j) ==> #[trigger] self.at(i, j) == other.at(i, j),
        ensures
            self == other,
    {
        assert(self.cells.len() == other.cells.len());
        assert forall|k: int| 0 <= k < self.cells.len() implies self.cells[k] == other.cells[k] by {
            if self.width > 0 {
                lemma_flat_index_onto(self.width as int, self.height as int, k);
                let i = k % (self.width as int);
                let j = k / (self.width as int);
                assert(self.has(i, j));
                assert(self.at(i, j) == other.at(i, j));
            } else {
                assert(self.width * self.height == 0) by (nonlinear_arith)
                    requires
                        self.width == 0,
                ;
            }
        }
        assert(self.cells =~= other.cells);
    }
}

/// A rectangular buffer of `width` columns and `height` rows.
pub struct Field<T> {
    width: usize,
    height: usize,
    data: Vec<T>,
}

impl<T> View for Field<T> {
    type V = Lattice<T>;

    closed spec fn view(&self) -> Lattice<T> {
        Lattice { width: self.width as nat, height: self.height as nat, cells: self.data@ }
    }
}

impl<T: Copy> Field<T> {
    /// The buffer holds exactly one value per sample, and its shape fits the
    /// machine's index type.
    pub closed spec fn wf(&self) -> bool {
        &&& self.width * self.height <= usize::MAX
        &&& self.data@.len() == self.width * self.height
    }

    /// The view of a well-formed field is a well-formed lattice whose shape
    /// fits the machine's index type.
    pub proof fn lemma_view_wf(&self)
        requires
            self.wf(),
        ensures
            self@.wf(),
            self@.width <= usize::MAX,
            self@.height <= usize::MAX,
            self@.width * self@.height <= usize::MAX,
    {
    }

    /// A field of the given shape with `fill` at every sample.
    pub fn new(width: usize, height: usize, fill: T) -> (f: Self)
        requires
            width * height <= usize::MAX,
        ensures
            f.wf(),
            f@.wf(),
            f@.width == width,
            f@.height == height,
            f@.uniform(fill),
    {
        let total: usize = width * height;
        let mut data: Vec<T> = Vec::new();
        let mut k: usize = 0;
        while k < total
            invariant
                k <= total,
                data@.len() == k,
                forall|n: int| 0 <= n < k ==> data@[n] == fill,
            decreases total - k,
        {
            data.push(fill);
            k = k + 1;
        }
        let f = Field { width, height, data };
        proof {
            assert forall|i: int, j: int| f@.has(i, j) implies #[trigger] f@.at(i, j) == fill by {
                lemma_flat_index_bounds(width as int, height as int, i, j);
            }
        }
        f
    }

    /// Number of columns.
    pub fn width(&self) -> (w: usize)
        ensures
            w == self@.width,
    {
        self.width
    }

    /// Number of rows.
    pub fn height(&self) -> (h: usize)
        ensures
            h == self@.height,
    {
        self.height
    }

    /// Reads the sample in column `i` of row `j`.
    pub fn get(&self, i: usize, j: usize) -> (value: T)
        requires
            self.wf(),
            self@.has(i as int, j as int),
        ensures
            value == self@.at(i as int, j as int),
    {
        proof {
            lemma_flat_index_bounds(self.width as int, self.height as int, i as int, j as int);
        }
        self.data[j * self.width + i]
    }

    /// Writes `value` to the sample in column `i` of row `j` and leaves every
    /// other sample as it was.
    pub fn set(&mut self, i: usize, j: usize, value: T)
        requires
            old(self).wf(),
            old(self)@.has(i as int, j as int),
        ensures
            final(self).wf(),
            final(self)@.width == old(self)@.width,
            final(self)@.height == old(self)@.height,
            final(self)@.at(i as int, j as int) == value,
            forall|k: int, l: int|
                old(self)@.has(k, l) && (k != i || l != j) ==> #[trigger] final(self)@.at(k, l)
                    == old(self)@.at(k, l),
    {
        proof {
            lemma_flat_index_bounds(self.width as int, self.height as int, i as int, j as int);
        }
        let ghost w = self.width as int;
        let ghost h = self.height as int;
        self.data.set(j * self.width + i, value);
        proof {
            assert forall|k: int, l: int|
                old(self)@.has(k, l) && (k != i || l != j) implies #[trigger] self@.at(k, l)
                == old(self)@.at(k, l) by {
                lemma_flat_index_bounds(w, h, k, l);
                lemma_flat_index_bounds(w, h, i as int, j as int);
            }
        }
    }

    /// Overwrites every sample `(i, j)` with what `f` returns for it.
    pub fn fill_with<F: Fn(usize, usize) -> T>(&mut self, f: F)
        requires
            old(self).wf(),
            forall|i: usize, j: usize|
                old(self)@.has(i as int, j as int) ==> #[trigger] call_requires(f, (i, j)),
        ensures
            final(self).wf(),
            final(self)@.wf(),
            final(self)@.same_shape(old(self)@),
            forall|i: int, j: int|
                old(self)@.has(i, j) ==> call_ensures(
                    f,
                    (i as usize, j as usize),
                    #[trigger] final(self)@.at(i, j),
                ),
    {
        let w = self.width;
        let h = self.height;
        let mut j: usize = 0;
        while j < h
            invariant
                j <= h,
                self.wf(),
                self@.width == w,
                self@.height == h,
                self@.same_shape(old(self)@),
                forall|i: usize, j: usize|
                    old(self)@.has(i as int, j as int) ==> #[trigger] call_requires(f, (i, j)),
                forall|a: int, b: int|
                    0 <= a < w && 0 <= b < j ==> call_ensures(
                        f,
                        (a as usize, b as usize),
                        #[trigger] self@.at(a, b),
                    ),
            decreases h - j,
        {
            let mut i: usize = 0;
            while i < w
                invariant
                    i <= w,
                    j < h,
                    self.wf(),
                    self@.width == w,
                    self@.height == h,
                    self@.same_shape(old(self)@),
                    forall|i: usize, j: usize|
                        old(self)@.has(i as int, j as int) ==> #[trigger] call_requires(f, (i, j)),
                    forall|a: int, b: int|
                        0 <= a < w && 0 <= b < j ==> call_ensures(
                            f,
                            (a as usize, b as usize),
                            #[trigger] self@.at(a, b),
                        ),
                    forall|a: int|
                        0 <= a < i ==> call_ensures(
                            f,
                            (a as usize, j),
                            #[trigger] self@.at(a, j as int),
                        ),
                decreases w - i,
            {
                let value = f(i, j);
                self.set(i, j, value);
                i = i + 1;
            }
            j = j + 1;
        }
    }
}

/// A well-formed lattice that holds `f(i, j)` at every sample `(i, j)` is the
/// tabulation of `f`.
pub proof fn lemma_is_tabulation<T>(g: Lattice<T>, f: spec_fn(int, int) -> T)
    requires
        g.wf(),
        forall|i: int, j: int| g.has(i, j) ==> #[trigger] g.at(i, j) == f(i, j),
    ensures
        g == Lattice::tabulate(g.width, g.height, f),
{
    Lattice::lemma_tabulate(g.width, g.height, f);
    g.lemma_ext_equal(Lattice::tabulate(g.width, g.height, f));
}

} // verus!
