//! The indexed geometry builder: turns a flat, possibly redundant vertex
//! stream into a compact pair of buffers, a table of unique vertices in
//! first-seen order and a list of indices into it, one per input vertex.
//!
//! The stream is an ordered sequence of scalar components, read as
//! consecutive chunks of a fixed size (one chunk = one vertex).  A
//! trailing partial chunk is dropped, mirroring the builder's documented
//! policy on malformed lengths.

use vstd::prelude::*;

verus! {

use vstd::arithmetic::div_mod::lemma_fundamental_div_mod;
use vstd::arithmetic::mul::lemma_mul_inequality;

/// Scalars whose executable equality decides mathematical equality
/// exactly, componentwise equality of chunks rests on it.
pub trait ExactEq: Sized {
    /// Decides whether two scalars are the same value.
    fn eq_val(&self, other: &Self) -> (r: bool)
        ensures
            r == (self == other),
    ;
}

impl ExactEq for i32 {
    fn eq_val(&self, other: &i32) -> bool {
        *self == *other
    }
}

/// How many whole chunks of size `k` the stream `s` holds; a trailing
/// partial chunk does not count.
pub open spec fn num_chunks<T>(s: Seq<T>, k: nat) -> nat {
    s.len() / k
}

/// The `i`-th chunk of the stream: components `i*k` up to `(i+1)*k`.
pub open spec fn chunk_of<T>(s: Seq<T>, k: nat, i: int) -> Seq<T> {
    s.subrange(i * k, i * k + k)
}

/// The table of unique chunks after reading the first `n` chunks of the
/// stream: chunks are appended in first-seen order, repeats are skipped.
pub open spec fn dedup_table<T>(s: Seq<T>, k: nat, n: nat) -> Seq<Seq<T>>
    decreases n,
{
    if n == 0 {
        Seq::empty()
    } else {
        let prev = dedup_table(s, k, (n - 1) as nat);
        let c = chunk_of(s, k, n - 1);
        if prev.contains(c) {
            prev
        } else {
            prev.push(c)
        }
    }
}

/// The position of chunk `c` in table `t`.  The tables built above never
/// hold a chunk twice, so the position is unique where it exists.
pub open spec fn position_of<T>(t: Seq<Seq<T>>, c: Seq<T>) -> int {
    choose|j: int| 0 <= j < t.len() && t[j] == c
}

/// The indices recorded for the first `n` chunks: for each chunk, its
/// position in the table as it stood once that chunk was read.
pub open spec fn dedup_indices<T>(s: Seq<T>, k: nat, n: nat) -> Seq<int>
    decreases n,
{
    if n == 0 {
        Seq::empty()
    } else {
        dedup_indices(s, k, (n - 1) as nat).push(
            position_of(dedup_table(s, k, n), chunk_of(s, k, n - 1)),
        )
    }
}

/// Decides whether two chunks hold the same components.
fn chunks_equal<T: ExactEq>(a: &Vec<T>, b: &Vec<T>) -> (r: bool)
    ensures
        r == (a@ == b@),
{
    if a.len() != b.len() {
        return false;
    }
    for i in 0..a.len()
        invariant
            a@.len() == b@.len(),
            forall|j: int| 0 <= j < i ==> a@[j] == b@[j],
    {
        if !a[i].eq_val(&b[i]) {
            return false;
        }
    }
    proof {
        assert(a@ =~= b@);
    }
    true
}

/// The table never holds the same chunk twice.
pub proof fn lemma_table_no_dups<T>(s: Seq<T>, k: nat, n: nat)
    ensures
        forall|p: int, q: int|
            0 <= p < q < dedup_table(s, k, n).len()
                ==> dedup_table(s, k, n)[p] != dedup_table(s, k, n)[q],
    decreases n,
{
    if n > 0 {
        lemma_table_no_dups(s, k, (n - 1) as nat);
        let prev = dedup_table(s, k, (n - 1) as nat);
        let c = chunk_of(s, k, n - 1);
        let t = dedup_table(s, k, n);
        if !prev.contains(c) {
            assert forall|p: int, q: int| 0 <= p < q < t.len() implies t[p] != t[q] by {
                if q == prev.len() {
                    if t[p] == c {
                        assert(0 <= p < prev.len() && prev[p] == c);
                        assert(prev.contains(c));
                    }
                }
            }
        }
    }
}

/// The table holds at most one entry per chunk read.
proof fn lemma_table_len<T>(s: Seq<T>, k: nat, n: nat)
    ensures
        dedup_table(s, k, n).len() <= n,
    decreases n,
{
    if n > 0 {
        lemma_table_len(s, k, (n - 1) as nat);
    }
}

/// Reading further chunks only appends to the table: an earlier table is
/// a prefix of every later one.
proof fn lemma_table_prefix<T>(s: Seq<T>, k: nat, a: nat, b: nat)
    requires
        a <= b,
    ensures
        dedup_table(s, k, a).len() <= dedup_table(s, k, b).len(),
        forall|j: int|
            0 <= j < dedup_table(s, k, a).len()
                ==> dedup_table(s, k, b)[j] == dedup_table(s, k, a)[j],
    decreases b,
{
    if a < b {
        lemma_table_prefix(s, k, a, (b - 1) as nat);
    }
}

/// Every chunk that has been read is in the table.
proof fn lemma_table_has_chunk<T>(s: Seq<T>, k: nat, n: nat, i: int)
    requires
        0 <= i < n,
    ensures
        dedup_table(s, k, n).contains(chunk_of(s, k, i)),
    decreases n,
{
    let c = chunk_of(s, k, i);
    let prev = dedup_table(s, k, (n - 1) as nat);
    if i == n - 1 {
        if !prev.contains(c) {
            assert(dedup_table(s, k, n)[prev.len() as int] == c);
            assert(dedup_table(s, k, n).contains(c));
        }
    } else {
        lemma_table_has_chunk(s, k, (n - 1) as nat, i);
        let j = choose|j: int| 0 <= j < prev.len() && prev[j] == c;
        lemma_table_prefix(s, k, (n - 1) as nat, n);
        assert(dedup_table(s, k, n)[j] == c);
        assert(dedup_table(s, k, n).contains(c));
    }
}

/// Every table entry is one of the chunks that has been read.
proof fn lemma_table_elem_is_chunk<T>(s: Seq<T>, k: nat, n: nat, j: int)
    requires
        0 <= j < dedup_table(s, k, n).len(),
    ensures
        exists|i: int| 0 <= i < n && chunk_of(s, k, i) == dedup_table(s, k, n)[j],
    decreases n,
{
    if n > 0 {
        let prev = dedup_table(s, k, (n - 1) as nat);
        if j < prev.len() {
            lemma_table_elem_is_chunk(s, k, (n - 1) as nat, j);
            let i = choose|i: int| 0 <= i < n - 1 && chunk_of(s, k, i) == prev[j];
            assert(0 <= i < n && chunk_of(s, k, i) == dedup_table(s, k, n)[j]);
        } else {
            assert(chunk_of(s, k, n - 1) == dedup_table(s, k, n)[j]);
        }
    }
}

/// The table grows by at most one entry per chunk read.
proof fn lemma_table_growth<T>(s: Seq<T>, k: nat, a: nat, b: nat)
    requires
        a <= b,
    ensures
        dedup_table(s, k, b).len() <= dedup_table(s, k, a).len() + (b - a),
    decreases b,
{
    if a < b {
        lemma_table_growth(s, k, a, (b - 1) as nat);
    }
}

/// One index is recorded per chunk read.
proof fn lemma_indices_len<T>(s: Seq<T>, k: nat, n: nat)
    ensures
        dedup_indices(s, k, n).len() == n,
    decreases n,
{
    if n > 0 {
        lemma_indices_len(s, k, (n - 1) as nat);
    }
}

/// An index, once recorded, never changes as further chunks are read.
proof fn lemma_indices_prefix<T>(s: Seq<T>, k: nat, a: nat, b: nat, i: int)
    requires
        a <= b,
        0 <= i < a,
    ensures
        dedup_indices(s, k, b)[i] == dedup_indices(s, k, a)[i],
    decreases b,
{
    lemma_indices_len(s, k, a);
    lemma_indices_len(s, k, b);
    if a < b {
        lemma_indices_len(s, k, (b - 1) as nat);
        lemma_indices_prefix(s, k, a, (b - 1) as nat, i);
    }
}

/// Every recorded index points into the table, at exactly the chunk it
/// was recorded for.
pub proof fn lemma_index_valid<T>(s: Seq<T>, k: nat, n: nat, i: int)
    requires
        0 <= i < n,
    ensures
        0 <= dedup_indices(s, k, n)[i] < dedup_table(s, k, n).len(),
        dedup_table(s, k, n)[dedup_indices(s, k, n)[i]] == chunk_of(s, k, i),
    decreases n,
{
    lemma_indices_len(s, k, n);
    lemma_indices_len(s, k, (n - 1) as nat);
    if i == n - 1 {
        let t = dedup_table(s, k, n);
        let c = chunk_of(s, k, n - 1);
        lemma_table_has_chunk(s, k, n, i);
        assert(exists|j: int| 0 <= j < t.len() && t[j] == c);
        assert(dedup_indices(s, k, n)[i] == position_of(t, c));
        assert(0 <= position_of(t, c) < t.len() && t[position_of(t, c)] == c);
    } else {
        lemma_index_valid(s, k, (n - 1) as nat, i);
        lemma_indices_prefix(s, k, (n - 1) as nat, n, i);
        lemma_table_prefix(s, k, (n - 1) as nat, n);
    }
}

/// The stream a `(table, indices)` pair stands for: the table entries
/// listed in index order, concatenated.
pub open spec fn replay<T>(t: Seq<Seq<T>>, idx: Seq<int>) -> Seq<T>
    decreases idx.len(),
{
    if idx.len() == 0 {
        Seq::empty()
    } else {
        replay(t, idx.drop_last()) + t[idx.last()]
    }
}

/// Replaying the first `j` indices reconstructs the first `j` chunks of
/// the stream.
proof fn lemma_replay_prefix<T>(s: Seq<T>, k: nat, n: nat, j: nat)
    requires
        k > 0,
        j <= n,
        n == num_chunks(s, k),
    ensures
        replay(dedup_table(s, k, n), dedup_indices(s, k, j)) == s.subrange(0, j * k as int),
    decreases j,
{
    let t = dedup_table(s, k, n);
    lemma_fundamental_div_mod(s.len() as int, k as int);
    lemma_mul_inequality(j as int, n as int, k as int);
    if j == 0 {
        lemma_indices_len(s, k, 0);
        assert(replay(t, dedup_indices(s, k, 0)) =~= s.subrange(0, 0));
    } else {
        lemma_replay_prefix(s, k, n, (j - 1) as nat);
        lemma_indices_len(s, k, j);
        lemma_indices_len(s, k, (j - 1) as nat);
        let idxj = dedup_indices(s, k, j);
        assert(idxj.drop_last() =~= dedup_indices(s, k, (j - 1) as nat));
        lemma_index_valid(s, k, n, j - 1);
        lemma_indices_prefix(s, k, j, n, j - 1);
        assert(t[idxj.last()] == chunk_of(s, k, j - 1));
        assert((j - 1) * k == j * k - k) by (nonlinear_arith);
        lemma_mul_inequality(j - 1, n as int, k as int);
        assert(s.subrange(0, (j - 1) * k) + s.subrange((j - 1) * k, (j - 1) * k + k)
            =~= s.subrange(0, j * k as int));
    }
}

/// Round trip: replaying the index buffer against the vertex table
/// reconstructs the input stream exactly, whenever the stream's length
/// is a whole number of chunks.
pub proof fn lemma_round_trip<T>(s: Seq<T>, k: nat)
    requires
        k > 0,
        s.len() % k == 0,
    ensures
        replay(
            dedup_table(s, k, num_chunks(s, k)),
            dedup_indices(s, k, num_chunks(s, k)),
        ) == s,
{
    let n = num_chunks(s, k);
    lemma_replay_prefix(s, k, n, n);
    lemma_fundamental_div_mod(s.len() as int, k as int);
    assert(s.subrange(0, (n * k) as int) =~= s);
}

/// A stream that repeats a chunk dedups to a strictly smaller table.
pub proof fn lemma_repeat_shrinks<T>(s: Seq<T>, k: nat, n: nat, i: int, j: int)
    requires
        0 <= i < j < n,
        chunk_of(s, k, i) == chunk_of(s, k, j),
    ensures
        dedup_table(s, k, n).len() < n,
{
    lemma_table_has_chunk(s, k, j as nat, i);
    assert(dedup_table(s, k, (j + 1) as nat) == dedup_table(s, k, j as nat));
    lemma_table_len(s, k, j as nat);
    lemma_table_growth(s, k, (j + 1) as nat, n);
}

/// A stream of pairwise distinct chunks keeps them all: the table holds
/// exactly one entry per chunk.
pub proof fn lemma_distinct_keeps_all<T>(s: Seq<T>, k: nat, n: nat)
    requires
        forall|i: int, j: int| 0 <= i < j < n ==> chunk_of(s, k, i) != chunk_of(s, k, j),
    ensures
        dedup_table(s, k, n).len() == n,
    decreases n,
{
    if n > 0 {
        lemma_distinct_keeps_all(s, k, (n - 1) as nat);
        let prev = dedup_table(s, k, (n - 1) as nat);
        let c = chunk_of(s, k, n - 1);
        if prev.contains(c) {
            let j = choose|j: int| 0 <= j < prev.len() && prev[j] == c;
            lemma_table_elem_is_chunk(s, k, (n - 1) as nat, j);
            let i = choose|i: int| 0 <= i < n - 1 && chunk_of(s, k, i) == prev[j];
            assert(chunk_of(s, k, i) == chunk_of(s, k, n - 1));
            assert(false);
        }
    }
}

/// Scans the table for the first chunk equal to `c`.
fn find_chunk<T: ExactEq>(table: &Vec<Vec<T>>, c: &Vec<T>) -> (r: Option<usize>)
    ensures
        match r {
            Some(j) => {
                &&& j < table@.len()
                &&& table@[j as int]@ == c@
                &&& forall|p: int| 0 <= p < j ==> table@[p]@ != c@
            },
            None => forall|p: int| 0 <= p < table@.len() ==> table@[p]@ != c@,
        },
{
    for j in 0..table.len()
        invariant
            forall|p: int| 0 <= p < j ==> table@[p]@ != c@,
    {
        if chunks_equal(&table[j], c) {
            return Some(j);
        }
    }
    None
}

/// The pair of buffers the builder emits: the table of unique vertices,
/// each entry one chunk of components, and one index into the table per
/// input vertex, in input order.
pub struct GenBufferArrays<T> {
    /// Unique chunks in first-seen order, no entry repeated.
    pub vertex_buffer: Vec<Vec<T>>,
    /// For each input vertex, the position of its chunk in `vertex_buffer`.
    pub index_buffer: Vec<usize>,
}

/// Builds the deduplicated vertex table and index list for a flat
/// stream, read as consecutive chunks of `chunk` components.  A trailing
/// partial chunk is dropped.  Every input vertex scans the accepted
/// table for a structurally equal entry; a repeat records the entry's
/// index, a new vertex is appended and records its fresh index.
pub fn gen_indices<T: ExactEq + Copy>(data: &Vec<T>, chunk: usize) -> (r: GenBufferArrays<T>)
    requires
        chunk != 0,
    ensures
        r.vertex_buffer@.len() == dedup_table(
            data@,
            chunk as nat,
            num_chunks(data@, chunk as nat),
        ).len(),
        forall|j: int|
            0 <= j < r.vertex_buffer@.len() ==> r.vertex_buffer@[j]@ == dedup_table(
                data@,
                chunk as nat,
                num_chunks(data@, chunk as nat),
            )[j],
        r.index_buffer@.len() == num_chunks(data@, chunk as nat),
        forall|i: int|
            0 <= i < r.index_buffer@.len() ==> r.index_buffer@[i] as int == dedup_indices(
                data@,
                chunk as nat,
                num_chunks(data@, chunk as nat),
            )[i],
        forall|i: int|
            0 <= i < r.index_buffer@.len() ==> #[trigger] r.index_buffer@[i]
                < r.vertex_buffer@.len(),
        forall|i: int|
            0 <= i < r.index_buffer@.len() ==> r.vertex_buffer@[r.index_buffer@[i] as int]@
                == #[trigger] chunk_of(data@, chunk as nat, i),
        forall|p: int, q: int|
            0 <= p < q < r.vertex_buffer@.len() ==> #[trigger] r.vertex_buffer@[p]@
                != #[trigger] r.vertex_buffer@[q]@,
{
    let ghost s = data@;
    let ghost k = chunk as nat;
    let m: usize = data.len() / chunk;
    let mut vertex_buffer: Vec<Vec<T>> = Vec::new();
    let mut index_buffer: Vec<usize> = Vec::new();
    let mut pos: usize = 0;
    let mut c: usize = 0;
    while c < m
        invariant
            chunk != 0,
            k == chunk as nat,
            s == data@,
            m == num_chunks(s, k),
            c <= m,
            pos == c * chunk,
            vertex_buffer@.len() == dedup_table(s, k, c as nat).len(),
            forall|j: int|
                0 <= j < vertex_buffer@.len() ==> vertex_buffer@[j]@ == dedup_table(
                    s,
                    k,
                    c as nat,
                )[j],
            index_buffer@.len() == c,
            forall|i: int|
                0 <= i < c ==> index_buffer@[i] as int == dedup_indices(s, k, c as nat)[i],
            forall|i: int|
                0 <= i < c ==> #[trigger] index_buffer@[i] < vertex_buffer@.len(),
        decreases m - c,
    {
        proof {
            lemma_fundamental_div_mod(s.len() as int, k as int);
            lemma_mul_inequality((c + 1) as int, m as int, k as int);
            assert((c + 1) * k == c * k + k) by (nonlinear_arith);
        }
        let mut cur: Vec<T> = Vec::new();
        let mut t: usize = 0;
        while t < chunk
            invariant
                t <= chunk,
                pos + chunk <= data.len(),
                cur@.len() == t,
                forall|j: int| 0 <= j < t ==> cur@[j] == data@[pos + j],
            decreases chunk - t,
        {
            cur.push(data[pos + t]);
            t = t + 1;
        }
        proof {
            assert(cur@ =~= chunk_of(s, k, c as int));
        }
        let found = find_chunk(&vertex_buffer, &cur);
        match found {
            Some(j) => {
                proof {
                    let prev = dedup_table(s, k, c as nat);
                    let cc = chunk_of(s, k, c as int);
                    assert(prev[j as int] == cc);
                    assert(prev.contains(cc));
                    assert(dedup_table(s, k, (c + 1) as nat) == prev);
                    lemma_table_no_dups(s, k, c as nat);
                    let pj = position_of(prev, cc);
                    assert(0 <= pj < prev.len() && prev[pj] == cc);
                    assert(pj == j);
                    lemma_indices_len(s, k, c as nat);
                    assert(dedup_indices(s, k, (c + 1) as nat) == dedup_indices(
                        s,
                        k,
                        c as nat,
                    ).push(pj));
                }
                index_buffer.push(j);
            },
            None => {
                proof {
                    let prev = dedup_table(s, k, c as nat);
                    let cc = chunk_of(s, k, c as int);
                    assert forall|p: int| 0 <= p < prev.len() implies prev[p] != cc by {
                        assert(vertex_buffer@[p]@ != cur@);
                    }
                    assert(!prev.contains(cc));
                    let t1 = dedup_table(s, k, (c + 1) as nat);
                    assert(t1 == prev.push(cc));
                    lemma_table_no_dups(s, k, (c + 1) as nat);
                    assert(t1[prev.len() as int] == cc);
                    assert(t1.contains(cc));
                    let pj = position_of(t1, cc);
                    assert(0 <= pj < t1.len() && t1[pj] == cc);
                    assert(pj == prev.len());
                    lemma_indices_len(s, k, c as nat);
                    assert(dedup_indices(s, k, (c + 1) as nat) == dedup_indices(
                        s,
                        k,
                        c as nat,
                    ).push(pj));
                }
                index_buffer.push(vertex_buffer.len());
                vertex_buffer.push(cur);
            },
        }
        pos = pos + chunk;
        c = c + 1;
    }
    let out = GenBufferArrays { vertex_buffer, index_buffer };
    proof {
        assert forall|i: int| 0 <= i < out.index_buffer@.len() implies out.vertex_buffer@[
            out.index_buffer@[i] as int]@ == #[trigger] chunk_of(data@, chunk as nat, i) by {
            lemma_index_valid(s, k, m as nat, i);
            let idx = dedup_indices(s, k, m as nat)[i];
            assert(out.index_buffer@[i] as int == idx);
            assert(out.vertex_buffer@[idx]@ == dedup_table(s, k, m as nat)[idx]);
            assert(chunk_of(data@, chunk as nat, i) == chunk_of(s, k, i));
        }
        lemma_table_no_dups(s, k, m as nat);
        assert forall|p: int, q: int| 0 <= p < q < out.vertex_buffer@.len() implies #[trigger] out.vertex_buffer@[p]@ != #[trigger] out.vertex_buffer@[q]@ by {
            assert(out.vertex_buffer@[p]@ == dedup_table(s, k, m as nat)[p]);
            assert(out.vertex_buffer@[q]@ == dedup_table(s, k, m as nat)[q]);
        }
    }
    out
}

} // verus!
