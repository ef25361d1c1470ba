//! The memory-compact genotype matrix: an immutable matrix of minor-allele
//! counts in {0, 1, 2}, stored column-major with two bits per entry.  The
//! verified accessors recover exactly the entries the matrix was built
//! from, so the dense products computed over them are deterministic
//! functions of the logical matrix.
use vstd::prelude::*;

verus! {

/// Number of bytes that one packed column of `n_rows` entries occupies.
pub open spec fn bytes_per_col(n_rows: int) -> int {
    (n_rows + 3) / 4
}

/// The entry at row `i` of column `j` as the packed bytes encode it: two
/// bits per entry, four entries per byte, least-significant bits first.
pub open spec fn packed_entry(data: Seq<u8>, n_rows: int, i: int, j: int) -> u8 {
    (data[j * bytes_per_col(n_rows) + i / 4] >> ((2 * (i % 4)) as u8)) & 3u8
}

/// An immutable two-bit-packed genotype matrix of shape
/// (`n_rows` individuals x `n_cols` markers), column-major.
pub struct GenotypeMatrix {
    /// The packed bytes, one column after another.
    pub data: Vec<u8>,
    /// N: the number of individuals.
    pub n_rows: usize,
    /// M: the number of markers.
    pub n_cols: usize,
    /// The logical matrix, one sequence of entries per column.
    pub entries: Ghost<Seq<Seq<u8>>>,
}

impl GenotypeMatrix {
    /// The logical entry at row `i` of column `j`.
    pub open spec fn entry(self, i: int, j: int) -> u8 {
        self.entries@[j][i]
    }

    /// Well-formed: the logical matrix has the stated shape, every entry is
    /// a genotype in {0, 1, 2}, and the packed bytes encode exactly the
    /// logical entries.
    pub open spec fn wf(self) -> bool {
        &&& self.entries@.len() == self.n_cols
        &&& (forall|j: int| 0 <= j < self.n_cols ==> (#[trigger] self.entries@[j]).len()
            == self.n_rows)
        &&& (forall|j: int, i: int|
            0 <= j < self.n_cols && 0 <= i < self.n_rows ==> #[trigger] self.entries@[j][i] <= 2)
        &&& self.n_rows + 3 <= usize::MAX
        &&& self.n_cols * bytes_per_col(self.n_rows as int) <= usize::MAX
        &&& self.data@.len() == self.n_cols * bytes_per_col(self.n_rows as int)
        &&& (forall|j: int, i: int|
            0 <= j < self.n_cols && 0 <= i < self.n_rows ==> packed_entry(
                self.data@,
                self.n_rows as int,
                i,
                j,
            ) == #[trigger] self.entries@[j][i])
    }

    /// N: the number of individuals (rows).
    pub fn rows(&self) -> (n: usize)
        ensures
            n == self.n_rows,
    {
        self.n_rows
    }

    /// M: the number of markers (columns).
    pub fn cols(&self) -> (m: usize)
        ensures
            m == self.n_cols,
    {
        self.n_cols
    }

    /// Pack a column-major matrix of genotypes.  Each inner vector is one
    /// column of `n_rows` entries in {0, 1, 2}.
    pub fn from_columns(n_rows: usize, cols: &Vec<Vec<u8>>) -> (m: GenotypeMatrix)
        requires
            n_rows + 3 <= usize::MAX,
            cols@.len() * bytes_per_col(n_rows as int) <= usize::MAX,
            forall|j: int| 0 <= j < cols@.len() ==> (#[trigger] cols@[j])@.len() == n_rows,
            forall|j: int, i: int|
                0 <= j < cols@.len() && 0 <= i < n_rows ==> #[trigger] cols@[j]@[i] <= 2,
        ensures
            m.wf(),
            m.n_rows == n_rows,
            m.n_cols == cols@.len(),
            forall|j: int, i: int|
                0 <= j < cols@.len() && 0 <= i < n_rows ==> #[trigger] m.entry(i, j) == cols@[j]@[i],
    {
        let bpc = (n_rows + 3) / 4;
        let n_cols = cols.len();
        let mut data: Vec<u8> = Vec::new();
        let mut j: usize = 0;
        while j < n_cols
            invariant
                j <= n_cols,
                n_cols == cols@.len(),
                n_rows + 3 <= usize::MAX,
                bpc == bytes_per_col(n_rows as int),
                n_cols * bpc <= usize::MAX,
                forall|jj: int| 0 <= jj < n_cols ==> (#[trigger] cols@[jj])@.len() == n_rows,
                forall|jj: int, i: int|
                    0 <= jj < n_cols && 0 <= i < n_rows ==> #[trigger] cols@[jj]@[i] <= 2,
                data@.len() == j * bpc,
                forall|jj: int, i: int|
                    0 <= jj < j && 0 <= i < n_rows ==> #[trigger] packed_entry(
                        data@,
                        n_rows as int,
                        i,
                        jj,
                    ) == cols@[jj]@[i],
            decreases n_cols - j,
        {
            proof {
                assert((j + 1) * bpc == j * bpc + bpc) by (nonlinear_arith);
                assert((j + 1) * bpc <= n_cols * bpc) by (nonlinear_arith)
                    requires
                        j + 1 <= n_cols,
                        bpc >= 0,
                ;
            }
            let col = &cols[j];
            let mut b: usize = 0;
            while b < bpc
                invariant
                    b <= bpc,
                    j < n_cols,
                    n_cols == cols@.len(),
                    n_rows + 3 <= usize::MAX,
                    bpc == bytes_per_col(n_rows as int),
                    n_cols * bpc <= usize::MAX,
                    (j + 1) * bpc <= n_cols * bpc,
                    (j + 1) * bpc == j * bpc + bpc,
                    col == cols@[j as int],
                    col@.len() == n_rows,
                    forall|jj: int| 0 <= jj < n_cols ==> (#[trigger] cols@[jj])@.len() == n_rows,
                    forall|jj: int, i: int|
                        0 <= jj < n_cols && 0 <= i < n_rows ==> #[trigger] cols@[jj]@[i] <= 2,
                    data@.len() == j * bpc + b,
                    forall|jj: int, i: int|
                        0 <= jj < j && 0 <= i < n_rows ==> #[trigger] packed_entry(
                            data@,
                            n_rows as int,
                            i,
                            jj,
                        ) == cols@[jj]@[i],
                    forall|i: int|
                        0 <= i < 4 * b && i < n_rows ==> packed_entry(data@, n_rows as int, i, j as int)
                            == col@[i],
                decreases bpc - b,
            {
                let base = 4 * b;
                proof {
                    assert(4 * b < 4 * bpc) by (nonlinear_arith)
                        requires
                            b < bpc,
                    ;
                    assert(4 * bytes_per_col(n_rows as int) <= n_rows + 3);
                }
                let e0 = col[base];
                let e1 = if base + 1 < n_rows { col[base + 1] } else { 0 };
                let e2 = if base + 2 < n_rows { col[base + 2] } else { 0 };
                let e3 = if base + 3 < n_rows { col[base + 3] } else { 0 };
                let byte = e0 | (e1 << 2u8) | (e2 << 4u8) | (e3 << 6u8);
                proof {
                    lemma_pack_byte(e0, e1, e2, e3);
                }
                let ghost od = data@;
                data.push(byte);
                proof {
                    let nd = data@;
                    let n = n_rows as int;
                    assert(nd == od.push(byte));
                    assert forall|jj: int, i: int| 0 <= jj < j && 0 <= i < n implies
                        #[trigger] packed_entry(nd, n, i, jj) == cols@[jj]@[i] by {
                        lemma_entry_index_bound(n, bpc as int, jj, j as int, i);
                        let idx = jj * bytes_per_col(n) + i / 4;
                        assert(idx < j * bpc);
                        assert(nd[idx] == od[idx]);
                        assert(packed_entry(nd, n, i, jj) == packed_entry(od, n, i, jj));
                    }
                    assert forall|i: int| 0 <= i < 4 * (b + 1) && i < n implies packed_entry(
                        nd,
                        n,
                        i,
                        j as int,
                    ) == col@[i] by {
                        if i < 4 * b {
                            lemma_entry_index_bound2(n, bpc as int, b as int, j as int, i);
                            let idx = j * bytes_per_col(n) + i / 4;
                            assert(idx < od.len());
                            assert(nd[idx] == od[idx]);
                            assert(packed_entry(nd, n, i, j as int) == packed_entry(
                                od,
                                n,
                                i,
                                j as int,
                            ));
                        } else {
                            assert(i / 4 == b) by (nonlinear_arith)
                                requires
                                    4 * b <= i < 4 * b + 4,
                                    b >= 0,
                            ;
                            assert(i % 4 == i - 4 * b) by (nonlinear_arith)
                                requires
                                    4 * b <= i < 4 * b + 4,
                                    b >= 0,
                            ;
                            assert(j * bytes_per_col(n) + i / 4 == od.len());
                            assert(nd[j * bytes_per_col(n) + i / 4] == byte);
                            if i == 4 * b {
                                assert(packed_entry(nd, n, i, j as int) == (byte >> 0u8) & 3u8);
                            } else if i == 4 * b + 1 {
                                assert(packed_entry(nd, n, i, j as int) == (byte >> 2u8) & 3u8);
                            } else if i == 4 * b + 2 {
                                assert(packed_entry(nd, n, i, j as int) == (byte >> 4u8) & 3u8);
                            } else {
                                assert(packed_entry(nd, n, i, j as int) == (byte >> 6u8) & 3u8);
                            }
                        }
                    }
                }
                b += 1;
            }
            j += 1;
        }
        let m = GenotypeMatrix {
            data,
            n_rows,
            n_cols,
            entries: Ghost(cols@.map_values(|c: Vec<u8>| c@)),
        };
        proof {
            assert(m.entries@.len() == n_cols);
            assert forall|jj: int| 0 <= jj < n_cols implies (#[trigger] m.entries@[jj]).len()
                == n_rows by {
                assert(m.entries@[jj] == cols@[jj]@);
            }
        }
        m
    }

    /// Read the entry at row `i` of column `j`.
    pub fn get(&self, i: usize, j: usize) -> (g: u8)
        requires
            self.wf(),
            i < self.n_rows,
            j < self.n_cols,
        ensures
            g == self.entry(i as int, j as int),
            g <= 2,
    {
        let bpc = (self.n_rows + 3) / 4;
        proof {
            lemma_entry_index_bound(
                self.n_rows as int,
                bpc as int,
                j as int,
                self.n_cols as int,
                i as int,
            );
        }
        let idx = j * bpc + i / 4;
        let byte = self.data[idx];
        let shift = 2 * ((i % 4) as u8);
        (byte >> shift) & 3
    }

    /// Copy out row `i` as plain entries, in column order: what the dense
    /// product X . w walks for one individual.
    pub fn row(&self, i: usize) -> (row: Vec<u8>)
        requires
            self.wf(),
            i < self.n_rows,
        ensures
            row@.len() == self.n_cols,
            forall|j: int| 0 <= j < self.n_cols ==> row@[j] == self.entry(i as int, j),
    {
        let m = self.n_cols;
        let mut row: Vec<u8> = Vec::new();
        let mut j: usize = 0;
        while j < m
            invariant
                j <= m,
                m == self.n_cols,
                i < self.n_rows,
                self.wf(),
                row@.len() == j,
                forall|k: int| 0 <= k < j ==> row@[k] == self.entry(i as int, k),
            decreases m - j,
        {
            let g = self.get(i, j);
            row.push(g);
            j += 1;
        }
        row
    }

    /// Copy out column `j` as plain entries, in row order.
    pub fn column(&self, j: usize) -> (col: Vec<u8>)
        requires
            self.wf(),
            j < self.n_cols,
        ensures
            col@ == self.entries@[j as int],
    {
        let n = self.n_rows;
        let mut col: Vec<u8> = Vec::new();
        let mut i: usize = 0;
        while i < n
            invariant
                i <= n,
                n == self.n_rows,
                j < self.n_cols,
                self.wf(),
                col@.len() == i,
                forall|k: int| 0 <= k < i ==> col@[k] == self.entry(k, j as int),
            decreases n - i,
        {
            let g = self.get(i, j);
            col.push(g);
            i += 1;
        }
        proof {
            assert(col@ =~= self.entries@[j as int]);
        }
        col
    }
}

/// Each two-bit lane of a byte packed from four genotypes holds exactly the
/// genotype it was packed from.
proof fn lemma_pack_byte(e0: u8, e1: u8, e2: u8, e3: u8)
    requires
        e0 <= 2,
        e1 <= 2,
        e2 <= 2,
        e3 <= 2,
    ensures
        ((e0 | (e1 << 2u8) | (e2 << 4u8) | (e3 << 6u8)) >> 0u8) & 3u8 == e0,
        ((e0 | (e1 << 2u8) | (e2 << 4u8) | (e3 << 6u8)) >> 2u8) & 3u8 == e1,
        ((e0 | (e1 << 2u8) | (e2 << 4u8) | (e3 << 6u8)) >> 4u8) & 3u8 == e2,
        ((e0 | (e1 << 2u8) | (e2 << 4u8) | (e3 << 6u8)) >> 6u8) & 3u8 == e3,
{
    assert(((e0 | (e1 << 2u8) | (e2 << 4u8) | (e3 << 6u8)) >> 0u8) & 3u8 == e0) by (bit_vector)
        requires
            e0 <= 2,
            e1 <= 2,
            e2 <= 2,
            e3 <= 2,
    ;
    assert(((e0 | (e1 << 2u8) | (e2 << 4u8) | (e3 << 6u8)) >> 2u8) & 3u8 == e1) by (bit_vector)
        requires
            e0 <= 2,
            e1 <= 2,
            e2 <= 2,
            e3 <= 2,
    ;
    assert(((e0 | (e1 << 2u8) | (e2 << 4u8) | (e3 << 6u8)) >> 4u8) & 3u8 == e2) by (bit_vector)
        requires
            e0 <= 2,
            e1 <= 2,
            e2 <= 2,
            e3 <= 2,
    ;
    assert(((e0 | (e1 << 2u8) | (e2 << 4u8) | (e3 << 6u8)) >> 6u8) & 3u8 == e3) by (bit_vector)
        requires
            e0 <= 2,
            e1 <= 2,
            e2 <= 2,
            e3 <= 2,
    ;
}

/// The byte that holds row `i` of column `jj` lies strictly inside the
/// first `jn` packed columns.
proof fn lemma_entry_index_bound(n: int, bpc: int, jj: int, jn: int, i: int)
    requires
        n >= 0,
        bpc == bytes_per_col(n),
        0 <= jj < jn,
        0 <= i < n,
    ensures
        jj * bpc + i / 4 < jn * bpc,
        jj * bpc + i / 4 >= 0,
{
    assert(4 * bpc >= n);
    assert(i / 4 < bpc);
    assert(jj * bpc + bpc <= jn * bpc) by (nonlinear_arith)
        requires
            jj + 1 <= jn,
            bpc >= 0,
    ;
    assert(jj * bpc >= 0) by (nonlinear_arith)
        requires
            jj >= 0,
            bpc >= 0,
    ;
}

/// The byte that holds row `i < 4 * b` of column `j` lies strictly below
/// the `b` bytes of that column already written.
proof fn lemma_entry_index_bound2(n: int, bpc: int, b: int, j: int, i: int)
    requires
        n >= 0,
        bpc == bytes_per_col(n),
        0 <= b,
        0 <= j,
        0 <= i < 4 * b,
        i < n,
    ensures
        j * bpc + i / 4 < j * bpc + b,
        j * bpc + i / 4 >= 0,
{
    assert(i / 4 < b);
    assert(j * bpc >= 0) by (nonlinear_arith)
        requires
            j >= 0,
            bpc >= 0,
    ;
}

} // verus!
