//! Multi-dimensional views of flat storage.
//!
//! Indexing is such that the leftmost index varies fastest (column-major order in 2D). With
//! dimensions `(n_1, ..., n_N)` the linear index of `(i_1, ..., i_N)` is
//! `i_1 + n_1 i_2 + n_1 n_2 i_3 + ... + n_1 ... n_{N-1} i_N`.
use vstd::prelude::*;
use vstd::string::{to_string_from_display_ensures, StringExecFns};
use vstd::arithmetic::div_mod::{
    lemma_fundamental_div_mod, lemma_fundamental_div_mod_converse, lemma_mod_mod,
    lemma_mod_multiples_vanish, lemma_small_mod,
};
use vstd::arithmetic::mul::{
    lemma_mul_is_associative, lemma_mul_nonnegative, lemma_mul_strictly_positive,
};

verus! {

/// Product of the first `k` entries of `dims`.
pub open spec fn dims_prod(dims: Seq<usize>, k: int) -> int
    decreases k,
{
    if k <= 0 {
        1
    } else {
        dims_prod(dims, k - 1) * dims[k - 1]
    }
}

/// Linear index of the first `k` components of `idx`.
pub open spec fn lin_of(idx: Seq<usize>, dims: Seq<usize>, k: int) -> int
    decreases k,
{
    if k <= 0 {
        0
    } else {
        lin_of(idx, dims, k - 1) + idx[k - 1] * dims_prod(dims, k - 1)
    }
}

/// Component `k` of the multi-dimensional index of linear index `j`.
pub open spec fn tuple_of(j: int, dims: Seq<usize>, k: int) -> int {
    (j % dims_prod(dims, k + 1)) / dims_prod(dims, k)
}

/// Every dimension is non-empty.
pub open spec fn dims_positive(dims: Seq<usize>) -> bool {
    forall|i: int| 0 <= i < dims.len() ==> #[trigger] dims[i] > 0
}

/// Each component of `idx` lies inside its dimension.
pub open spec fn in_range(idx: Seq<usize>, dims: Seq<usize>) -> bool {
    &&& idx.len() >= dims.len()
    &&& forall|i: int| 0 <= i < dims.len() ==> #[trigger] idx[i] < dims[i]
}

/// Conversion between linear and multi-dimensional indices for `N` dimensions.
pub struct IndexHelper<const N: usize> {
    /// Dimensions of the N-dimensional array
    dims: [usize; N],
    /// Entry `i` is the product of the dimensions before `i`
    lin_helper: [usize; N],
    /// Entry `i` is the product of the dimensions up to and including `i`
    tuple_helper: [usize; N],
}

impl<const N: usize> View for IndexHelper<N> {
    type V = Seq<usize>;

    /// The dimensions.
    closed spec fn view(&self) -> Seq<usize> {
        self.dims@
    }
}

impl<const N: usize> IndexHelper<N> {
    /// The helper tables agree with the dimensions, and the whole array size fits in `usize`.
    pub closed spec fn wf(&self) -> bool {
        &&& self.dims@.len() == N
        &&& self.lin_helper@.len() == N
        &&& self.tuple_helper@.len() == N
        &&& forall|i: int| 0 <= i < N ==> #[trigger] self.lin_helper@[i] == dims_prod(self.dims@, i)
        &&& forall|i: int| 0 <= i < N ==> #[trigger] self.tuple_helper@[i] == dims_prod(self.dims@, i + 1)
        &&& dims_prod(self.dims@, N as int) <= usize::MAX
    }

    /// Number of elements of an array with these dimensions.
    pub open spec fn size(&self) -> int {
        dims_prod(self@, N as int)
    }

    /// A helper for the first `N` entries of `dims`.
    pub fn new(dims: &[usize]) -> (r: Self)
        requires
            dims@.len() >= N,
            dims_prod(dims@, N as int) <= usize::MAX,
            dims_positive(dims@.take(N as int)),
        ensures
            r.wf(),
            r@ == dims@.take(N as int),
            dims_positive(r@),
    {
        let mut d = [0usize; N];
        let mut lin = [1usize; N];
        let mut tup = [0usize; N];
        let mut i: usize = 0;
        while i < N
            invariant
                0 <= i <= N,
                dims@.len() >= N,
                dims_prod(dims@, N as int) <= usize::MAX,
                dims_positive(dims@.take(N as int)),
                d@.len() == N,
                lin@.len() == N,
                tup@.len() == N,
                forall|k: int| 0 <= k < i ==> #[trigger] d@[k] == dims@[k],
                forall|k: int| 0 <= k < i ==> #[trigger] lin@[k] == dims_prod(dims@, k),
                forall|k: int| 0 <= k < i ==> #[trigger] tup@[k] == dims_prod(dims@, k + 1),
            decreases N - i,
        {
            proof {
                assert forall|k: int| 0 <= k < N implies #[trigger] dims@[k] > 0 by {
                    assert(dims@.take(N as int)[k] == dims@[k]);
                }
                lemma_prod_positive(dims@, N as int);
                lemma_prod_monotone(dims@, i + 1, N as int);
                assert(dims_prod(dims@, 0) == 1);
                assert(dims_prod(dims@, i + 1) == dims_prod(dims@, i as int) * dims@[i as int]);
                assert(dims@.take(N as int)[i as int] == dims@[i as int]);
            }
            d[i] = dims[i];
            if i == 0 {
                lin[i] = 1;
                tup[i] = dims[i];
            } else {
                lin[i] = tup[i - 1];
                tup[i] = tup[i - 1] * dims[i];
            }
            i += 1;
        }
        let r = IndexHelper { dims: d, lin_helper: lin, tuple_helper: tup };
        proof {
            lemma_prod_prefix(dims@, d@, N as int);
            assert forall|k: int| 0 <= k < N implies #[trigger] lin@[k] == dims_prod(d@, k) by {
                lemma_prod_prefix(dims@, d@, k);
            }
            assert forall|k: int| 0 <= k < N implies #[trigger] tup@[k] == dims_prod(d@, k + 1) by {
                lemma_prod_prefix(dims@, d@, k + 1);
            }
            assert(d@ =~= dims@.take(N as int));
        }
        r
    }

    /// Linear index of the multi-dimensional index `indices`.
    pub fn lin_index(&self, indices: &[usize]) -> (r: usize)
        requires
            self.wf(),
            indices@.len() >= N,
            lin_of(indices@, self@, N as int) <= usize::MAX,
        ensures
            r == lin_of(indices@, self@, N as int),
    {
        let mut idx: usize = 0;
        let mut i: usize = 0;
        while i < N
            invariant
                self.wf(),
                0 <= i <= N,
                indices@.len() >= N,
                lin_of(indices@, self@, N as int) <= usize::MAX,
                idx == lin_of(indices@, self@, i as int),
            decreases N - i,
        {
            proof {
                lemma_lin_monotone(indices@, self@, i + 1, N as int);
            }
            idx = idx + indices[i] * self.lin_helper[i];
            i += 1;
        }
        idx
    }

    /// Multi-dimensional index of the linear index `idx`.
    pub fn tuple_index(&self, idx: usize) -> (r: [usize; N])
        requires
            self.wf(),
            N > 0,
            dims_positive(self@),
        ensures
            forall|k: int| 0 <= k < N ==> #[trigger] r@[k] == tuple_of(idx as int, self@, k),
    {
        let mut out = [0usize; N];
        proof {
            lemma_prod_positive(self@, 1);
            assert(dims_prod(self@, 0) == 1);
            assert(dims_prod(self@, 1) == self@[0]);
        }
        out[0] = idx % self.dims[0];
        let mut i: usize = 1;
        while i < N
            invariant
                self.wf(),
                1 <= i <= N,
                dims_positive(self@),
                out@.len() == N,
                forall|k: int| 0 <= k < i ==> #[trigger] out@[k] == tuple_of(idx as int, self@, k),
            decreases N - i,
        {
            proof {
                lemma_prod_positive(self@, i as int);
                lemma_prod_positive(self@, i + 1);
            }
            out[i] = idx % self.tuple_helper[i] / self.tuple_helper[i - 1];
            i += 1;
        }
        out
    }
}

/// Flat storage viewed as an `N`-dimensional array, indexed as [`IndexHelper`] describes.
pub struct NDArrayWrapper<T, const N: usize> {
    /// Underlying data
    data: Vec<T>,
    /// Indexing helper
    idx_helper: IndexHelper<N>,
}

impl<T, const N: usize> View for NDArrayWrapper<T, N> {
    type V = Seq<T>;

    /// The flat storage.
    closed spec fn view(&self) -> Seq<T> {
        self.data@
    }
}

impl<T, const N: usize> NDArrayWrapper<T, N> {
    /// The dimensions of the array.
    pub closed spec fn dims(&self) -> Seq<usize> {
        self.idx_helper@
    }

    /// The storage holds every element that the dimensions address.
    pub closed spec fn wf(&self) -> bool {
        &&& self.idx_helper.wf()
        &&& dims_positive(self.idx_helper@)
        &&& self.data@.len() >= self.idx_helper.size()
    }

    /// Position in the flat storage of the element at `index`.
    pub open spec fn offset(&self, index: Seq<usize>) -> int {
        lin_of(index, self.dims(), N as int)
    }

    /// Views `data` as an array with the first `N` entries of `dims` as its dimensions.
    pub fn new(data: Vec<T>, dims: &[usize]) -> (r: Self)
        requires
            dims@.len() >= N,
            dims_prod(dims@, N as int) <= usize::MAX,
            dims_positive(dims@.take(N as int)),
            data@.len() >= dims_prod(dims@, N as int),
        ensures
            r.wf(),
            r@ == data@,
            r.dims() == dims@.take(N as int),
    {
        let idx_helper = IndexHelper::<N>::new(dims);
        proof {
            lemma_prod_prefix(dims@, idx_helper@, N as int);
        }
        NDArrayWrapper { data, idx_helper }
    }

    /// The index conversion in use.
    pub fn idx_helper(&self) -> (r: &IndexHelper<N>)
        requires
            self.wf(),
        ensures
            r.wf(),
            r@ == self.dims(),
            dims_positive(r@),
    {
        &self.idx_helper
    }

    /// The element at `index`.
    pub fn get(&self, index: &[usize; N]) -> (r: &T)
        requires
            self.wf(),
            in_range(index@, self.dims()),
        ensures
            0 <= self.offset(index@) < self@.len(),
            *r == self@[self.offset(index@)],
    {
        proof {
            lemma_tuple_of_lin(index@, self.dims());
        }
        let i = self.idx_helper.lin_index(index.as_slice());
        &self.data[i]
    }

    /// Replaces the element at `index` with `value`.
    pub fn set(&mut self, index: &[usize; N], value: T)
        requires
            old(self).wf(),
            in_range(index@, old(self).dims()),
        ensures
            final(self).wf(),
            final(self).dims() == old(self).dims(),
            0 <= old(self).offset(index@) < old(self)@.len(),
            final(self)@ == old(self)@.update(old(self).offset(index@), value),
    {
        proof {
            lemma_tuple_of_lin(index@, self.dims());
        }
        let i = self.idx_helper.lin_index(index.as_slice());
        self.data.set(i, value);
    }

    /// Gives back the flat storage.
    pub fn into_data(self) -> (r: Vec<T>)
        ensures
            r@ == self@,
    {
        self.data
    }
}

/// The characters of each string.
pub open spec fn texts(s: Seq<String>) -> Seq<Seq<char>> {
    s.map_values(|x: String| x@)
}

/// The texts separated by `", "`.
pub open spec fn joined(c: Seq<Seq<char>>) -> Seq<char>
    decreases c.len(),
{
    if c.len() == 0 {
        Seq::empty()
    } else if c.len() == 1 {
        c[0]
    } else {
        joined(c.drop_last()) + seq![',', ' '] + c.last()
    }
}

/// The texts separated by `", "` between square brackets.
pub open spec fn bracketed(c: Seq<Seq<char>>) -> Seq<char> {
    seq!['['] + joined(c) + seq![']']
}

/// `s` holds, in order, a text that formatting gives for each value of `v`.
pub open spec fn shows<T: std::fmt::Display>(v: Seq<T>, s: Seq<String>) -> bool {
    &&& s.len() == v.len()
    &&& forall|i: int| 0 <= i < v.len() ==> to_string_from_display_ensures::<T>(&v[i], #[trigger] s[i])
}

/// One row of a two-dimensional array: `" ["`, its elements, `"]"` and a line break.
pub open spec fn row_line(s: Seq<String>) -> Seq<char> {
    seq![' '] + bracketed(texts(s)) + seq!['\n']
}

/// The rows of a two-dimensional array, one per line.
pub open spec fn rows_text(g: Seq<Seq<String>>) -> Seq<char>
    decreases g.len(),
{
    if g.len() == 0 {
        Seq::empty()
    } else {
        rows_text(g.drop_last()) + row_line(g.last())
    }
}

/// One element of an array of three or more dimensions: its index, `": "`, its value and a
/// line break.
pub open spec fn element_line(index: Seq<String>, value: String) -> Seq<char> {
    bracketed(texts(index)) + seq![':', ' '] + value@ + seq!['\n']
}

/// The elements of an array of three or more dimensions, one per line.
pub open spec fn elements_text(g: Seq<Seq<String>>, c: Seq<String>) -> Seq<char>
    decreases c.len(),
{
    if c.len() == 0 || g.len() < c.len() {
        Seq::empty()
    } else {
        elements_text(g.take(c.len() - 1), c.drop_last()) + element_line(g[c.len() - 1], c.last())
    }
}

/// Joins the strings with `", "` between them.
fn join_texts(parts: &Vec<String>) -> (r: String)
    ensures
        r@ == joined(texts(parts@)),
{
    proof {
        reveal_strlit(", ");
    }
    let mut out = String::new();
    let mut k: usize = 0;
    while k < parts.len()
        invariant
            k <= parts@.len(),
            out@ == joined(texts(parts@.take(k as int))),
            ", "@ == seq![',', ' '],
        decreases parts@.len() - k,
    {
        proof {
            assert(texts(parts@.take(k + 1)).drop_last() =~= texts(parts@.take(k as int)));
            assert(texts(parts@.take(k + 1)).last() == parts@[k as int]@);
            assert(k == 0 ==> texts(parts@.take(k + 1)) =~= seq![parts@[k as int]@]);
        }
        if k > 0 {
            out.append(", ");
        }
        out.append(parts[k].as_str());
        k += 1;
    }
    proof {
        assert(parts@.take(parts@.len() as int) =~= parts@);
    }
    out
}

/// The texts of the values `v`, one after another.
fn show_all<T: std::fmt::Display>(v: &Vec<T>) -> (r: Vec<String>)
    ensures
        shows(v@, r@),
{
    let mut out: Vec<String> = Vec::new();
    let mut k: usize = 0;
    while k < v.len()
        invariant
            k <= v@.len(),
            out@.len() == k,
            forall|i: int| 0 <= i < k ==> to_string_from_display_ensures::<T>(&v@[i], #[trigger] out@[i]),
        decreases v@.len() - k,
    {
        out.push(v[k].to_string());
        k += 1;
    }
    out
}

/// The texts of `start` and of the following values at the given stride, `count` of them.
fn show_strided<T: std::fmt::Display>(v: &Vec<T>, start: usize, stride: usize, count: usize) -> (r: Vec<String>)
    requires
        count == 0 || start + stride * (count - 1) < v@.len(),
    ensures
        shows(Seq::new(count as nat, |j: int| v@[start + stride * j]), r@),
{
    let mut out: Vec<String> = Vec::new();
    let mut k: usize = 0;
    let len = v.len();
    while k < count
        invariant
            len == v@.len(),
            count == 0 || start + stride * (count - 1) < v@.len(),
            k <= count,
            out@.len() == k,
            forall|i: int|
                0 <= i < k ==> to_string_from_display_ensures::<T>(&v@[start + stride * i], #[trigger] out@[i]),
        decreases count - k,
    {
        proof {
            assert(count != 0);
            assert(start + stride * (count - 1) < v@.len());
            assert(stride * k <= stride * (count - 1)) by (nonlinear_arith)
                requires
                    k <= count - 1,
            ;
        }
        let at = start + stride * k;
        out.push(v[at].to_string());
        k += 1;
    }
    proof {
        let vals = Seq::new(count as nat, |j: int| v@[start + stride * j]);
        assert forall|i: int| 0 <= i < vals.len() implies to_string_from_display_ensures::<T>(
            &vals[i],
            #[trigger] out@[i],
        ) by {}
    }
    out
}

impl<T: std::fmt::Display, const N: usize> NDArrayWrapper<T, N> {
    /// The elements of a one-dimensional array as `r@` shows them: `[a, b, c]`.
    pub open spec fn is_text_1d(&self, r: Seq<char>) -> bool {
        exists|s: Seq<String>| #[trigger] shows(self@.take(self.dims()[0] as int), s) && r == bracketed(texts(s))
    }

    /// The elements of a two-dimensional array as `r@` shows them: a line `[`, a line
    /// ` [a, b, c]` for each value of the first index, and a line `]`.
    pub open spec fn is_text_2d(&self, r: Seq<char>) -> bool {
        exists|g: Seq<Seq<String>>| {
            &&& g.len() == self.dims()[0]
            &&& forall|i: int| 0 <= i < g.len() ==> shows(
                Seq::new(self.dims()[1] as nat, |j: int| self@[i + self.dims()[0] * j]),
                #[trigger] g[i],
            )
            &&& r == seq!['[', '\n'] + #[trigger] rows_text(g) + seq![']', '\n']
        }
    }

    /// The elements of an array of three or more dimensions as `r@` shows them: a line
    /// `[i, j, k]: value` for each element, in the order of the flat storage.
    pub open spec fn is_text_nd(&self, r: Seq<char>) -> bool {
        exists|g: Seq<Seq<String>>, c: Seq<String>| {
            &&& shows(self@.take(self.size()), c)
            &&& g.len() == c.len()
            &&& forall|i: int| 0 <= i < g.len() ==> shows(
                Seq::new(N as nat, |k: int| tuple_of(i, self.dims(), k) as usize),
                #[trigger] g[i],
            )
            &&& r == #[trigger] elements_text(g, c)
        }
    }

    /// Number of elements that the dimensions address.
    pub open spec fn size(&self) -> int {
        dims_prod(self.dims(), N as int)
    }

    /// The array as text, laid out by its number of dimensions.
    pub fn to_text(&self) -> (r: String)
        requires
            self.wf(),
            N > 0,
        ensures
            N == 1 ==> self.is_text_1d(r@),
            N == 2 ==> self.is_text_2d(r@),
            N > 2 ==> self.is_text_nd(r@),
    {
        if N == 1 {
            self.text_1d()
        } else if N == 2 {
            self.text_2d()
        } else {
            self.text_nd()
        }
    }

    fn text_1d(&self) -> (r: String)
        requires
            self.wf(),
            N == 1,
        ensures
            self.is_text_1d(r@),
    {
        proof {
            reveal_strlit("[");
            reveal_strlit("]");
            lemma_prod_positive(self.dims(), 1);
            assert(dims_prod(self.dims(), 0) == 1);
        }
        let n = self.idx_helper.dims[0];
        let cells = show_strided(&self.data, 0, 1, n);
        let mut out = String::from_str("[");
        let body = join_texts(&cells);
        out.append(body.as_str());
        out.append("]");
        proof {
            let vals = Seq::new(n as nat, |j: int| self.data@[0 + 1 * j]);
            assert(vals =~= self@.take(self.dims()[0] as int));
            assert(shows(self@.take(self.dims()[0] as int), cells@));
            assert(out@ =~= bracketed(texts(cells@)));
        }
        out
    }
    fn text_2d(&self) -> (r: String)
        requires
            self.wf(),
            N == 2,
        ensures
            self.is_text_2d(r@),
    {
        proof {
            reveal_strlit("[\n");
            reveal_strlit(" [");
            reveal_strlit("]\n");
            lemma_prod_positive(self.dims(), 2);
            assert(dims_prod(self.dims(), 0) == 1);
            assert(dims_prod(self.dims(), 1) == self.dims()[0]);
            assert(dims_prod(self.dims(), 2) == self.dims()[0] * self.dims()[1]);
        }
        let rows = self.idx_helper.dims[0];
        let cols = self.idx_helper.dims[1];
        let mut out = String::from_str("[\n");
        let ghost mut g: Seq<Seq<String>> = Seq::empty();
        let mut i: usize = 0;
        while i < rows
            invariant
                self.wf(),
                N == 2,
                rows == self.dims()[0],
                cols == self.dims()[1],
                rows * cols <= self@.len(),
                i <= rows,
                g.len() == i,
                forall|a: int| 0 <= a < g.len() ==> shows(
                    Seq::new(cols as nat, |j: int| self@[a + rows * j]),
                    #[trigger] g[a],
                ),
                out@ == seq!['[', '\n'] + rows_text(g),
                "[\n"@ == seq!['[', '\n'],
                " ["@ == seq![' ', '['],
                "]\n"@ == seq![']', '\n'],
            decreases rows - i,
        {
            proof {
                assert(i + rows * (cols - 1) < rows * cols) by (nonlinear_arith)
                    requires
                        i < rows,
                        cols > 0,
                ;
            }
            let cells = show_strided(&self.data, i, rows, cols);
            let body = join_texts(&cells);
            out.append(" [");
            out.append(body.as_str());
            out.append("]\n");
            proof {
                let g2 = g.push(cells@);
                assert(g2.drop_last() =~= g);
                assert(row_line(cells@) =~= seq![' '] + bracketed(texts(cells@)) + seq!['\n']);
                assert(out@ =~= seq!['[', '\n'] + rows_text(g2));
                g = g2;
            }
            i += 1;
        }
        out.append("]\n");
        proof {
            assert(self.dims()[1] == cols);
            assert(out@ == seq!['[', '\n'] + rows_text(g) + seq![']', '\n']);
        }
        out
    }

    fn text_nd(&self) -> (r: String)
        requires
            self.wf(),
            N > 2,
        ensures
            self.is_text_nd(r@),
    {
        proof {
            reveal_strlit("[");
            reveal_strlit("]: ");
            reveal_strlit("\n");
        }
        let size = self.idx_helper.tuple_helper[N - 1];
        let mut out = String::new();
        let ghost mut g: Seq<Seq<String>> = Seq::empty();
        let ghost mut c: Seq<String> = Seq::empty();
        let mut i: usize = 0;
        while i < size
            invariant
                self.wf(),
                N > 2,
                size == self.size(),
                size <= self@.len(),
                i <= size,
                g.len() == i,
                c.len() == i,
                shows(self@.take(i as int), c),
                forall|a: int| 0 <= a < g.len() ==> shows(
                    Seq::new(N as nat, |k: int| tuple_of(a, self.dims(), k) as usize),
                    #[trigger] g[a],
                ),
                out@ == elements_text(g, c),
                "["@ == seq!['['],
                "]: "@ == seq![']', ':', ' '],
                "\n"@ == seq!['\n'],
            decreases size - i,
        {
            let t = self.idx_helper.tuple_index(i);
            let tv = vec_of(&t);
            let index_cells = show_all(&tv);
            let body = join_texts(&index_cells);
            let value = self.data[i].to_string();
            out.append("[");
            out.append(body.as_str());
            out.append("]: ");
            out.append(value.as_str());
            out.append("\n");
            proof {
                let g2 = g.push(index_cells@);
                let c2 = c.push(value);
                assert(g2.take(c2.len() - 1) =~= g);
                assert(c2.drop_last() =~= c);
                assert(tv@ =~= Seq::new(N as nat, |k: int| tuple_of(i as int, self.dims(), k) as usize));
                assert(out@ =~= elements_text(g2, c2));
                assert(self@.take(i + 1) =~= self@.take(i as int).push(self@[i as int]));
                g = g2;
                c = c2;
            }
            i += 1;
        }
        proof {
            assert(self.idx_helper.tuple_helper@[N - 1] == dims_prod(self.dims(), N as int));
        }
        out
    }
}

/// The entries of an array, in order, in a vector.
fn vec_of<const N: usize>(a: &[usize; N]) -> (r: Vec<usize>)
    ensures
        r@ == a@,
{
    let mut out: Vec<usize> = Vec::new();
    let mut k: usize = 0;
    while k < N
        invariant
            k <= N,
            out@ == a@.take(k as int),
        decreases N - k,
    {
        out.push(a[k]);
        proof {
            assert(out@ =~= a@.take(k + 1));
        }
        k += 1;
    }
    proof {
        assert(a@.take(N as int) =~= a@);
    }
    out
}

/// Every partial product of positive dimensions is positive.
pub proof fn lemma_prod_positive(dims: Seq<usize>, k: int)
    requires
        0 <= k <= dims.len(),
        forall|i: int| 0 <= i < k ==> #[trigger] dims[i] > 0,
    ensures
        dims_prod(dims, k) > 0,
    decreases k,
{
    if k > 0 {
        lemma_prod_positive(dims, k - 1);
        lemma_mul_strictly_positive(dims_prod(dims, k - 1), dims[k - 1] as int);
    }
}

proof fn lemma_prod_nonneg(dims: Seq<usize>, k: int)
    ensures
        dims_prod(dims, k) >= 0,
    decreases k,
{
    if k > 0 {
        lemma_prod_nonneg(dims, k - 1);
        lemma_mul_nonnegative(dims_prod(dims, k - 1), dims[k - 1] as int);
    }
}

proof fn lemma_prod_monotone(dims: Seq<usize>, j: int, k: int)
    requires
        0 <= j <= k <= dims.len(),
        dims_prod(dims, k) > 0,
    ensures
        dims_prod(dims, j) <= dims_prod(dims, k),
    decreases k - j,
{
    if j < k {
        lemma_prod_nonneg(dims, k - 1);
        let a = dims_prod(dims, k - 1);
        let b = dims[k - 1] as int;
        assert(0 < a <= a * b) by (nonlinear_arith)
            requires
                a >= 0,
                b >= 0,
                a * b > 0,
        ;
        lemma_prod_monotone(dims, j, k - 1);
    }
}

proof fn lemma_prod_prefix(a: Seq<usize>, b: Seq<usize>, k: int)
    requires
        0 <= k <= a.len(),
        k <= b.len(),
        forall|i: int| 0 <= i < k ==> a[i] == b[i],
    ensures
        dims_prod(a, k) == dims_prod(b, k),
    decreases k,
{
    if k > 0 {
        lemma_prod_prefix(a, b, k - 1);
    }
}

proof fn lemma_lin_monotone(idx: Seq<usize>, dims: Seq<usize>, j: int, k: int)
    requires
        0 <= j <= k,
    ensures
        lin_of(idx, dims, j) <= lin_of(idx, dims, k),
    decreases k - j,
{
    if j < k {
        lemma_lin_monotone(idx, dims, j, k - 1);
        lemma_prod_nonneg(dims, k - 1);
        lemma_mul_nonnegative(idx[k - 1] as int, dims_prod(dims, k - 1));
    }
}

/// Converting an in-range multi-dimensional index to its linear index and back gives the
/// same multi-dimensional index; the linear index lies below the array size.
pub proof fn lemma_tuple_of_lin(idx: Seq<usize>, dims: Seq<usize>)
    requires
        dims_positive(dims),
        in_range(idx, dims),
    ensures
        0 <= lin_of(idx, dims, dims.len() as int) < dims_prod(dims, dims.len() as int),
        forall|k: int|
            0 <= k < dims.len() ==> #[trigger] tuple_of(lin_of(idx, dims, dims.len() as int), dims, k)
                == idx[k],
{
    let n = dims.len() as int;
    lemma_lin_bound(idx, dims, n);
    lemma_lin_nonneg(idx, dims, n);
    assert forall|k: int| 0 <= k < n implies #[trigger] tuple_of(lin_of(idx, dims, n), dims, k)
        == idx[k] by {
        lemma_lin_bound(idx, dims, k);
        lemma_lin_bound(idx, dims, k + 1);
        lemma_lin_nonneg(idx, dims, k);
        lemma_lin_nonneg(idx, dims, k + 1);
        lemma_prod_positive(dims, k);
        lemma_prod_positive(dims, k + 1);
        lemma_lin_mod(idx, dims, k + 1, n);
        lemma_small_mod(lin_of(idx, dims, k + 1) as nat, dims_prod(dims, k + 1) as nat);
        lemma_fundamental_div_mod_converse(
            lin_of(idx, dims, k + 1),
            dims_prod(dims, k),
            idx[k] as int,
            lin_of(idx, dims, k),
        );
    }
}

/// Converting a linear index below the array size to its multi-dimensional index and back
/// gives the same linear index.
pub proof fn lemma_lin_of_tuple(t: Seq<usize>, dims: Seq<usize>, j: int)
    requires
        dims_positive(dims),
        0 <= j < dims_prod(dims, dims.len() as int),
        t.len() >= dims.len(),
        forall|k: int| 0 <= k < dims.len() ==> #[trigger] t[k] == tuple_of(j, dims, k),
    ensures
        lin_of(t, dims, dims.len() as int) == j,
{
    let n = dims.len() as int;
    lemma_lin_of_tuple_prefix(t, dims, j, n);
    lemma_small_mod(j as nat, dims_prod(dims, n) as nat);
}

proof fn lemma_lin_of_tuple_prefix(t: Seq<usize>, dims: Seq<usize>, j: int, k: int)
    requires
        dims_positive(dims),
        0 <= j,
        0 <= k <= dims.len(),
        t.len() >= dims.len(),
        forall|i: int| 0 <= i < dims.len() ==> #[trigger] t[i] == tuple_of(j, dims, i),
    ensures
        lin_of(t, dims, k) == j % dims_prod(dims, k),
    decreases k,
{
    if k == 0 {
        lemma_small_mod(0, 1);
        assert(j % 1 == 0) by (nonlinear_arith);
    } else {
        lemma_lin_of_tuple_prefix(t, dims, j, k - 1);
        lemma_prod_positive(dims, k - 1);
        lemma_prod_positive(dims, k);
        let p = dims_prod(dims, k - 1);
        let x = j % dims_prod(dims, k);
        lemma_fundamental_div_mod(x, p);
        lemma_mod_mod(j, p, dims[k - 1] as int);
        assert(dims_prod(dims, k) == p * dims[k - 1]);
        assert(t[k - 1] == x / p);
        assert(x % p == j % p);
        assert(lin_of(t, dims, k) == lin_of(t, dims, k - 1) + t[k - 1] * p);
        assert((x / p) * p == p * (x / p)) by (nonlinear_arith);
    }
}

proof fn lemma_lin_nonneg(idx: Seq<usize>, dims: Seq<usize>, k: int)
    ensures
        lin_of(idx, dims, k) >= 0,
    decreases k,
{
    if k > 0 {
        lemma_lin_nonneg(idx, dims, k - 1);
        lemma_prod_nonneg(dims, k - 1);
        lemma_mul_nonnegative(idx[k - 1] as int, dims_prod(dims, k - 1));
    }
}

proof fn lemma_lin_bound(idx: Seq<usize>, dims: Seq<usize>, k: int)
    requires
        0 <= k <= dims.len(),
        dims_positive(dims),
        in_range(idx, dims),
    ensures
        lin_of(idx, dims, k) < dims_prod(dims, k),
    decreases k,
{
    if k > 0 {
        lemma_lin_bound(idx, dims, k - 1);
        lemma_prod_positive(dims, k - 1);
        let l = lin_of(idx, dims, k - 1);
        let p = dims_prod(dims, k - 1);
        let i = idx[k - 1] as int;
        let d = dims[k - 1] as int;
        assert(i * p <= (d - 1) * p) by (nonlinear_arith)
            requires
                p > 0,
                0 <= i < d,
        ;
        assert((d - 1) * p == p * d - p) by (nonlinear_arith);
    }
}

/// The components after `k` add multiples of the product of the first `k` dimensions.
proof fn lemma_lin_mod(idx: Seq<usize>, dims: Seq<usize>, k: int, m: int)
    requires
        0 <= k <= m <= dims.len(),
        dims_positive(dims),
        in_range(idx, dims),
    ensures
        lin_of(idx, dims, m) % dims_prod(dims, k) == lin_of(idx, dims, k),
    decreases m - k,
{
    lemma_prod_positive(dims, k);
    if m == k {
        lemma_lin_bound(idx, dims, k);
        lemma_lin_nonneg(idx, dims, k);
        lemma_small_mod(lin_of(idx, dims, k) as nat, dims_prod(dims, k) as nat);
    } else {
        lemma_lin_mod(idx, dims, k, m - 1);
        let pk = dims_prod(dims, k);
        lemma_prod_divides(dims, k, m - 1);
        let q = prod_between(dims, k, m - 1);
        let rest = lin_of(idx, dims, m - 1);
        assert(idx[m - 1] * dims_prod(dims, m - 1) == pk * (idx[m - 1] * q)) by (nonlinear_arith)
            requires
                dims_prod(dims, m - 1) == pk * q,
        ;
        lemma_mod_multiples_vanish(idx[m - 1] * q, rest, pk);
    }
}

/// Product of the entries of `dims` from `k` up to, not including, `m`.
spec fn prod_between(dims: Seq<usize>, k: int, m: int) -> int
    decreases m - k,
{
    if m <= k {
        1
    } else {
        prod_between(dims, k, m - 1) * dims[m - 1]
    }
}

proof fn lemma_prod_divides(dims: Seq<usize>, k: int, m: int)
    requires
        0 <= k <= m <= dims.len(),
    ensures
        dims_prod(dims, m) == dims_prod(dims, k) * prod_between(dims, k, m),
    decreases m - k,
{
    if m > k {
        lemma_prod_divides(dims, k, m - 1);
        lemma_mul_is_associative(dims_prod(dims, k), prod_between(dims, k, m - 1), dims[m - 1] as int);
    }
}

} // verus!
