//! Structural checks on a database image: every value the reader can be
//! made to decode lies inside the image, pointer chains are bounded, and the
//! search tree fits the image and points only at such values. An image that
//! passes can be opened and searched without reading out of bounds.
use vstd::prelude::*;

verus! {

/// How deep values may nest, counting each pointer followed.
pub const MAX_DEPTH: u64 = 32;

/// Big-endian value of the `n` bytes at `p`, on top of `base`.
pub open spec fn be_from(base: int, b: Seq<u8>, p: int, n: nat) -> int
    decreases n,
{
    if n == 0 {
        base
    } else {
        be_from(base, b, p, (n - 1) as nat) * 256 + b[p + n - 1]
    }
}

pub open spec fn be(b: Seq<u8>, p: int, n: nat) -> int {
    be_from(0, b, p, n)
}

/// Whether an extended type byte names a type the decoder knows.
pub open spec fn extended_ok(e: u8) -> bool {
    e == 1 || e == 2 || e == 3 || e == 4 || e == 7 || e == 8
}

/// The control header of the value at `p`: its type, its size and where its
/// payload starts, as the decoder reads them.
pub open spec fn header(b: Seq<u8>, p: int) -> Option<(int, int, int)> {
    if !(0 <= p < b.len()) {
        None
    } else {
        let c = b[p] as int;
        let t0 = c / 32;
        let s = c % 32;
        if t0 == 0 && !(p + 1 < b.len() && extended_ok(b[p + 1])) {
            None
        } else {
            let t = if t0 == 0 { b[p + 1] + 7 } else { t0 };
            let q = if t0 == 0 { p + 2 } else { p + 1 };
            if t == 1 {
                if s < 29 { Some((1, s, q)) } else { None }
            } else if s < 29 {
                Some((t, s, q))
            } else if s == 29 {
                if q + 1 <= b.len() { Some((t, 29 + b[q], q + 1)) } else { None }
            } else if s == 30 {
                if q + 2 <= b.len() { Some((t, 285 + be(b, q, 2), q + 2)) } else { None }
            } else {
                if q + 3 <= b.len() { Some((t, 65821 + be(b, q, 3), q + 3)) } else { None }
            }
        }
    }
}

/// Where a pointer whose header has size bits `s` and whose `n` bytes start
/// at `q` points.
pub open spec fn pointer_target(b: Seq<u8>, s: int, q: int, n: nat) -> int {
    let base = if n == 4 { 0 } else { s % 8 };
    let offset = if n == 2 { 2048int } else if n == 3 { 526336int } else { 0int };
    be_from(base, b, q, n) + offset
}

/// Whether a scalar of type `t` may have `s` payload bytes.
pub open spec fn scalar_ok(t: int, s: int) -> bool {
    ||| t == 2 || t == 3 || t == 4 || t == 15
    ||| t == 5 && s <= 2
    ||| t == 6 && s <= 4
    ||| t == 8 && s <= 4
    ||| t == 9 && s <= 8
    ||| t == 10 && s <= 16
}

/// The end of the value at `p` if it decodes within `b` with at most `d`
/// levels of nesting and pointers.
pub open spec fn value_end(b: Seq<u8>, p: int, d: nat) -> Option<int>
    decreases d, 0nat,
{
    if d == 0 {
        None
    } else {
        match header(b, p) {
            None => None,
            Some((t, s, q)) => if t == 1 {
                let n = ((s / 8) % 4 + 1) as nat;
                if q + n <= b.len() && value_end(b, pointer_target(b, s, q, n), (d - 1) as nat) is Some {
                    Some(q + n)
                } else {
                    None
                }
            } else if t == 7 {
                entries_end(b, q, (2 * s) as nat, (d - 1) as nat)
            } else if t == 11 {
                entries_end(b, q, s as nat, (d - 1) as nat)
            } else if t == 14 {
                if s <= 1 { Some(q) } else { None }
            } else if scalar_ok(t, s) && q + s <= b.len() {
                Some(q + s)
            } else {
                None
            },
        }
    }
}

/// The end of `n` consecutive values starting at `p`.
pub open spec fn entries_end(b: Seq<u8>, p: int, n: nat, d: nat) -> Option<int>
    decreases d, n + 1,
{
    if n == 0 {
        Some(p)
    } else {
        match value_end(b, p, d) {
            None => None,
            Some(e) => entries_end(b, e, (n - 1) as nat, d),
        }
    }
}

/// The `n` big-endian bytes at `lo + p`, on top of `base`.
fn read_be(v: &Vec<u8>, lo: usize, p: u64, n: u64, base: u64) -> (r: u64)
    requires
        n <= 4,
        base < 256,
        lo <= v@.len(),
        p + n <= v@.len() - lo,
    ensures
        r == be_from(base as int, v@.subrange(lo as int, v@.len() as int), p as int, n as nat),
        r < 1099511627776,
{
    let ghost b = v@.subrange(lo as int, v@.len() as int);
    let len = v.len();
    let mut acc: u64 = base;
    let mut i: u64 = 0;
    while i < n
        invariant
            i <= n,
            n <= 4,
            len == v@.len(),
            lo <= v@.len(),
            p + n <= v@.len() - lo,
            b == v@.subrange(lo as int, v@.len() as int),
            acc == be_from(base as int, b, p as int, i as nat),
            acc < 256 * pow256(i as nat),
        decreases n - i,
    {
        assert(p + i < v@.len() - lo);
        let off: usize = (p + i) as usize;
        let x = v[lo + off];
        assert(b[off as int] == x);
        assert(pow256((i + 1) as nat) == 256 * pow256(i as nat));
        assert(pow256(i as nat) <= pow256(4)) by {
            lemma_pow256_mono(i as nat, 4);
        }
        assert(acc * 256 + x < 256 * pow256((i + 1) as nat)) by (nonlinear_arith)
            requires
                acc < 256 * pow256(i as nat),
                x < 256,
                pow256((i + 1) as nat) == 256 * pow256(i as nat),
        ;
        assert(pow256((i + 1) as nat) <= pow256(4)) by {
            lemma_pow256_mono((i + 1) as nat, 4);
        }
        assert(pow256(4) == 4294967296) by {
            reveal_with_fuel(pow256, 5);
        }
        acc = acc * 256 + x as u64;
        i = i + 1;
    }
    proof {
        lemma_pow256_mono(n as nat, 4);
        reveal_with_fuel(pow256, 5);
    }
    acc
}

pub open spec fn pow256(n: nat) -> int
    decreases n,
{
    if n == 0 { 1 } else { 256 * pow256((n - 1) as nat) }
}

proof fn lemma_pow256_mono(i: nat, j: nat)
    requires
        i <= j,
    ensures
        1 <= pow256(i) <= pow256(j),
    decreases j,
{
    if i < j {
        lemma_pow256_mono(i, (j - 1) as nat);
    } else if j > 0 {
        lemma_pow256_mono((j - 1) as nat, (j - 1) as nat);
    }
}

/// The header of the value at `p` of the slice that starts at `lo`.
fn read_header(v: &Vec<u8>, lo: usize, p: u64) -> (r: Option<(u64, u64, u64)>)
    requires
        lo <= v@.len(),
    ensures
        ({
            let b = v@.subrange(lo as int, v@.len() as int);
            match r {
                None => header(b, p as int) is None,
                Some((t, s, q)) => header(b, p as int) == Some((t as int, s as int, q as int)) && q
                    <= b.len() && s < 2000000000000,
            }
        }),
{
    let ghost b = v@.subrange(lo as int, v@.len() as int);
    let len = v.len();
    let blen: u64 = (len - lo) as u64;
    if p >= blen {
        return None;
    }
    let c = v[lo + p as usize];
    assert(b[p as int] == c);
    let t0: u64 = (c / 32) as u64;
    let s: u64 = (c % 32) as u64;
    let mut t: u64 = t0;
    let mut q: u64 = p + 1;
    if t0 == 0 {
        if p + 1 >= blen {
            return None;
        }
        let e = v[lo + (p + 1) as usize];
        assert(b[p + 1] == e);
        if !(e == 1 || e == 2 || e == 3 || e == 4 || e == 7 || e == 8) {
            return None;
        }
        t = e as u64 + 7;
        q = p + 2;
    }
    if t == 1 {
        if s < 29 {
            return Some((1, s, q));
        } else {
            return None;
        }
    }
    if s < 29 {
        Some((t, s, q))
    } else if s == 29 {
        if q < blen {
            let x = v[lo + q as usize];
            assert(b[q as int] == x);
            Some((t, 29 + x as u64, q + 1))
        } else {
            None
        }
    } else if s == 30 {
        if 2 <= blen - q {
            let x = read_be(v, lo, q, 2, 0);
            Some((t, 285 + x, q + 2))
        } else {
            None
        }
    } else {
        if 3 <= blen - q {
            let x = read_be(v, lo, q, 3, 0);
            Some((t, 65821 + x, q + 3))
        } else {
            None
        }
    }
}

/// The end of the value at `p` of the slice that starts at `lo`, if it
/// decodes within the slice with at most `d` levels.
pub fn check_value(v: &Vec<u8>, lo: usize, p: u64, d: u64) -> (r: Option<u64>)
    requires
        lo <= v@.len(),
    ensures
        ({
            let b = v@.subrange(lo as int, v@.len() as int);
            &&& r is Some == value_end(b, p as int, d as nat) is Some
            &&& r is Some ==> r->0 as int == value_end(b, p as int, d as nat)->0
        }),
    decreases d,
{
    let ghost b = v@.subrange(lo as int, v@.len() as int);
    if d == 0 {
        return None;
    }
    let len = v.len();
    let blen: u64 = (len - lo) as u64;
    match read_header(v, lo, p) {
        None => None,
        Some((t, s, q)) => {
            if t == 1 {
                let n: u64 = (s / 8) % 4 + 1;
                if n > blen - q {
                    return None;
                }
                let base: u64 = if n == 4 { 0 } else { s % 8 };
                let offset: u64 = if n == 2 { 2048 } else if n == 3 { 526336 } else { 0 };
                let target = read_be(v, lo, q, n, base) + offset;
                match check_value(v, lo, target, d - 1) {
                    None => None,
                    Some(_) => Some(q + n),
                }
            } else if t == 7 || t == 11 {
                let count: u64 = if t == 7 { 2 * s } else { s };
                assert(value_end(b, p as int, d as nat) == entries_end(
                    b,
                    q as int,
                    count as nat,
                    (d - 1) as nat,
                ));
                let mut cur: u64 = q;
                let mut k: u64 = count;
                while k > 0
                    invariant
                        lo <= v@.len(),
                        b == v@.subrange(lo as int, v@.len() as int),
                        d >= 1,
                        value_end(b, p as int, d as nat) == entries_end(
                            b,
                            q as int,
                            count as nat,
                            (d - 1) as nat,
                        ),
                        entries_end(b, q as int, count as nat, (d - 1) as nat) == entries_end(
                            b,
                            cur as int,
                            k as nat,
                            (d - 1) as nat,
                        ),
                    decreases k,
                {
                    match check_value(v, lo, cur, d - 1) {
                        None => {
                            assert(value_end(b, cur as int, (d - 1) as nat) is None);
                            assert(entries_end(b, cur as int, k as nat, (d - 1) as nat) is None);
                            return None;
                        },
                        Some(e) => {
                            cur = e;
                            k = k - 1;
                        },
                    }
                }
                Some(cur)
            } else if t == 14 {
                if s <= 1 {
                    Some(q)
                } else {
                    None
                }
            } else {
                let scalar = t == 2 || t == 3 || t == 4 || t == 15 || (t == 5 && s <= 2) || (t == 6
                    && s <= 4) || (t == 8 && s <= 4) || (t == 9 && s <= 8) || (t == 10 && s <= 16);
                if scalar && s <= blen - q {
                    Some(q + s)
                } else {
                    None
                }
            }
        },
    }
}

/// Whether the metadata marker `\xab\xcd\xefMaxMind.com` starts at `i`.
pub open spec fn marker_at(b: Seq<u8>, i: int) -> bool {
    &&& 0 <= i
    &&& i + 14 <= b.len()
    &&& b[i] == 0xab && b[i + 1] == 0xcd && b[i + 2] == 0xef
    &&& b[i + 3] == 77 && b[i + 4] == 97 && b[i + 5] == 120 && b[i + 6] == 77
    &&& b[i + 7] == 105 && b[i + 8] == 110 && b[i + 9] == 100 && b[i + 10] == 46
    &&& b[i + 11] == 99 && b[i + 12] == 111 && b[i + 13] == 109
}

/// The start of the last marker that starts before `k`.
pub open spec fn last_marker_before(b: Seq<u8>, k: int) -> Option<int>
    decreases k,
{
    if k <= 0 {
        None
    } else if marker_at(b, k - 1) {
        Some(k - 1)
    } else {
        last_marker_before(b, k - 1)
    }
}

/// Where the metadata section starts: just past the last marker.
pub open spec fn metadata_start(b: Seq<u8>) -> Option<int> {
    match last_marker_before(b, b.len() as int) {
        Some(i) => Some(i + 14),
        None => None,
    }
}

fn marker_at_exec(v: &Vec<u8>, i: usize) -> (r: bool)
    ensures
        r == marker_at(v@, i as int),
{
    if i > v.len() || v.len() - i < 14 {
        return false;
    }
    v[i] == 0xab && v[i + 1] == 0xcd && v[i + 2] == 0xef && v[i + 3] == 77 && v[i + 4] == 97
        && v[i + 5] == 120 && v[i + 6] == 77 && v[i + 7] == 105 && v[i + 8] == 110 && v[i + 9]
        == 100 && v[i + 10] == 46 && v[i + 11] == 99 && v[i + 12] == 111 && v[i + 13] == 109
}

fn find_metadata(v: &Vec<u8>) -> (r: Option<usize>)
    ensures
        match metadata_start(v@) {
            None => r is None,
            Some(m) => r is Some && r->0 == m && m <= v@.len(),
        },
{
    let len = v.len();
    let mut k: usize = len;
    while k > 0
        invariant
            len == v@.len(),
            k <= v@.len(),
            last_marker_before(v@, v@.len() as int) == last_marker_before(v@, k as int),
        decreases k,
    {
        if marker_at_exec(v, k - 1) {
            return Some(k - 1 + 14);
        }
        k = k - 1;
    }
    None
}

/// The metadata keys that the search tree's layout depends on.
pub open spec fn node_count_key() -> Seq<u8> {
    seq![110u8, 111, 100, 101, 95, 99, 111, 117, 110, 116]
}

pub open spec fn record_size_key() -> Seq<u8> {
    seq![114u8, 101, 99, 111, 114, 100, 95, 115, 105, 122, 101]
}

/// Whether the value at `p` is a string written in place with bytes `key`.
pub open spec fn key_is(b: Seq<u8>, p: int, key: Seq<u8>) -> bool {
    match header(b, p) {
        Some((t, s, q)) => t == 2 && s == key.len() && q + s <= b.len() && b.subrange(q, q + s)
            == key,
        None => false,
    }
}

/// The unsigned integer written in place at `p`, of at most four bytes.
pub open spec fn uint_at(b: Seq<u8>, p: int) -> Option<int> {
    match header(b, p) {
        Some((t, s, q)) => if ((t == 5 && s <= 2) || (t == 6 && s <= 4)) && q + s <= b.len() {
            Some(be(b, q, s as nat))
        } else {
            None
        },
        None => None,
    }
}

/// The integer under `key` among the `k` map entries that start at `p`.
pub open spec fn find_field(b: Seq<u8>, p: int, k: nat, key: Seq<u8>) -> Option<int>
    decreases k,
{
    if k == 0 {
        None
    } else {
        match value_end(b, p, MAX_DEPTH as nat) {
            None => None,
            Some(ke) => if key_is(b, p, key) {
                uint_at(b, ke)
            } else {
                match value_end(b, ke, MAX_DEPTH as nat) {
                    None => None,
                    Some(ve) => find_field(b, ve, (k - 1) as nat, key),
                }
            },
        }
    }
}

/// The integer under `key` in the metadata map `m`.
pub open spec fn metadata_field(m: Seq<u8>, key: Seq<u8>) -> Option<int> {
    match header(m, 0) {
        Some((t, s, q)) => if t == 7 { find_field(m, q, s as nat, key) } else { None },
        None => None,
    }
}

fn key_is_exec(v: &Vec<u8>, lo: usize, p: u64, key: &Vec<u8>) -> (r: bool)
    requires
        lo <= v@.len(),
    ensures
        r == key_is(v@.subrange(lo as int, v@.len() as int), p as int, key@),
{
    let ghost b = v@.subrange(lo as int, v@.len() as int);
    let blen: u64 = (v.len() - lo) as u64;
    match read_header(v, lo, p) {
        None => false,
        Some((t, s, q)) => {
            assert(header(b, p as int) == Some((t as int, s as int, q as int)));
            if t != 2 || s != key.len() as u64 || s > blen - q {
                return false;
            }
            let len = v.len();
            let mut j: usize = 0;
            while j < key.len()
                invariant
                    len == v@.len(),
                    lo <= v@.len(),
                    b == v@.subrange(lo as int, v@.len() as int),
                    s == key@.len(),
                    t == 2,
                    header(b, p as int) == Some((t as int, s as int, q as int)),
                    q + s <= b.len(),
                    j <= key@.len(),
                    forall|i: int| 0 <= i < j ==> b[q + i] == key@[i],
                decreases key.len() - j,
            {
                let off: usize = (q + j as u64) as usize;
                let x = v[lo + off];
                assert(b[q + j] == x);
                if x != key[j] {
                    assert(b.subrange(q as int, q + s)[j as int] != key@[j as int]);
                    assert(b.subrange(q as int, q + s) != key@);
                    assert(!key_is(b, p as int, key@));
                    return false;
                }
                j = j + 1;
            }
            assert(b.subrange(q as int, q + s) =~= key@);
            true
        },
    }
}

fn uint_at_exec(v: &Vec<u8>, lo: usize, p: u64) -> (r: Option<u64>)
    requires
        lo <= v@.len(),
    ensures
        ({
            let b = v@.subrange(lo as int, v@.len() as int);
            &&& r is Some == uint_at(b, p as int) is Some
            &&& r is Some ==> r->0 as int == uint_at(b, p as int)->0
        }),
{
    let blen: u64 = (v.len() - lo) as u64;
    match read_header(v, lo, p) {
        None => None,
        Some((t, s, q)) => {
            if ((t == 5 && s <= 2) || (t == 6 && s <= 4)) && s <= blen - q {
                Some(read_be(v, lo, q, s, 0))
            } else {
                None
            }
        },
    }
}

fn metadata_field_exec(v: &Vec<u8>, lo: usize, key: &Vec<u8>) -> (r: Option<u64>)
    requires
        lo <= v@.len(),
    ensures
        ({
            let m = v@.subrange(lo as int, v@.len() as int);
            &&& r is Some == metadata_field(m, key@) is Some
            &&& r is Some ==> r->0 as int == metadata_field(m, key@)->0
        }),
{
    let ghost b = v@.subrange(lo as int, v@.len() as int);
    match read_header(v, lo, 0) {
        None => None,
        Some((t, s, q)) => {
            if t != 7 {
                return None;
            }
            let mut p: u64 = q;
            let mut k: u64 = s;
            while k > 0
                invariant
                    lo <= v@.len(),
                    b == v@.subrange(lo as int, v@.len() as int),
                    metadata_field(b, key@) == find_field(b, p as int, k as nat, key@),
                decreases k,
            {
                let ke = match check_value(v, lo, p, MAX_DEPTH) {
                    None => {
                        return None;
                    },
                    Some(e) => e,
                };
                if key_is_exec(v, lo, p, key) {
                    return uint_at_exec(v, lo, ke);
                }
                match check_value(v, lo, ke, MAX_DEPTH) {
                    None => {
                        return None;
                    },
                    Some(e) => {
                        p = e;
                    },
                }
                k = k - 1;
            }
            None
        },
    }
}

/// Record `idx` of search tree node `node`, for a record size of `rs` bits.
pub open spec fn read_record(b: Seq<u8>, rs: int, node: int, idx: int) -> int {
    if rs == 24 {
        be(b, node * 6 + idx * 3, 3)
    } else if rs == 28 {
        let base = node * 7;
        let mid = if idx == 0 { b[base + 3] / 16 } else { b[base + 3] % 16 };
        be_from(mid as int, b, base + idx * 4, 3)
    } else {
        be(b, node * 8 + idx * 4, 4)
    }
}

/// A tree record is another node, "not found", or a pointer past the
/// separator to a value that decodes within the data section.
pub open spec fn record_ok(b: Seq<u8>, n: int, data_start: int, r: int) -> bool {
    ||| r <= n
    ||| r >= n + 16 && value_end(b.subrange(data_start, b.len() as int), r - n - 16, MAX_DEPTH as nat) is Some
}

/// Every record of the `n` nodes of the tree is sound.
pub open spec fn tree_ok(b: Seq<u8>, n: int, rs: int) -> bool {
    forall|node: int, idx: int|
        0 <= node < n && 0 <= idx < 2 ==> record_ok(
            b,
            n,
            n * (rs / 4) + 16,
            #[trigger] read_record(b, rs, node, idx),
        )
}

/// An image the reader can open and search without reading out of bounds:
/// its metadata decodes within the metadata section and names a record size
/// the reader knows, and its search tree fits the image and points only at
/// values that decode within the data section.
pub open spec fn sound_image(b: Seq<u8>) -> bool {
    match metadata_start(b) {
        None => false,
        Some(ms) => {
            let m = b.subrange(ms, b.len() as int);
            let n = metadata_field(m, node_count_key());
            let rs = metadata_field(m, record_size_key());
            &&& value_end(m, 0, MAX_DEPTH as nat) is Some
            &&& n is Some
            &&& rs is Some
            &&& rs->0 == 24 || rs->0 == 28 || rs->0 == 32
            &&& n->0 * (rs->0 / 4) + 16 <= b.len()
            &&& tree_ok(b, n->0, rs->0)
        },
    }
}

fn read_record_exec(v: &Vec<u8>, rs: u64, n: u64, node: u64, idx: u64) -> (r: u64)
    requires
        rs == 24 || rs == 28 || rs == 32,
        node < n,
        idx < 2,
        n * (rs / 4) + 16 <= v@.len(),
    ensures
        r == read_record(v@, rs as int, node as int, idx as int),
{
    let len = v.len();
    let nb: u64 = rs / 4;
    assert((node + 1) * nb <= n * nb) by (nonlinear_arith)
        requires
            node < n,
    ;
    assert(node * nb + nb == (node + 1) * nb) by (nonlinear_arith);
    assert(node * nb + nb <= len);
    assert(v@.subrange(0, v@.len() as int) =~= v@);
    if rs == 24 {
        assert(nb == 6);
        read_be(v, 0, node * 6 + idx * 3, 3, 0)
    } else if rs == 28 {
        assert(nb == 7);
        let base: u64 = node * 7;
        let x = v[(base + 3) as usize];
        let mid: u64 = if idx == 0 { (x / 16) as u64 } else { (x % 16) as u64 };
        read_be(v, 0, base + idx * 4, 3, mid)
    } else {
        assert(nb == 8);
        read_be(v, 0, node * 8 + idx * 4, 4, 0)
    }
}

fn record_ok_exec(v: &Vec<u8>, n: u64, data_start: usize, r: u64) -> (ok: bool)
    requires
        data_start <= v@.len(),
    ensures
        ok == record_ok(v@, n as int, data_start as int, r as int),
{
    if r <= n {
        true
    } else if r - n < 16 {
        false
    } else {
        check_value(v, data_start, r - n - 16, MAX_DEPTH).is_some()
    }
}

fn check_tree(v: &Vec<u8>, n: u64, rs: u64) -> (r: bool)
    requires
        rs == 24 || rs == 28 || rs == 32,
        n * (rs / 4) + 16 <= v@.len(),
    ensures
        r == tree_ok(v@, n as int, rs as int),
{
    let len = v.len();
    assert(n * (rs / 4) + 16 <= len);
    let data_start: usize = (n * (rs / 4) + 16) as usize;
    let mut node: u64 = 0;
    while node < n
        invariant
            rs == 24 || rs == 28 || rs == 32,
            n * (rs / 4) + 16 <= v@.len(),
            data_start == n * (rs / 4) + 16,
            node <= n,
            forall|nd: int, i: int|
                0 <= nd < node && 0 <= i < 2 ==> record_ok(
                    v@,
                    n as int,
                    n * (rs / 4) + 16,
                    #[trigger] read_record(v@, rs as int, nd, i),
                ),
        decreases n - node,
    {
        let mut idx: u64 = 0;
        while idx < 2
            invariant
                rs == 24 || rs == 28 || rs == 32,
                n * (rs / 4) + 16 <= v@.len(),
                data_start == n * (rs / 4) + 16,
                node < n,
                idx <= 2,
                forall|nd: int, i: int|
                    0 <= nd < node && 0 <= i < 2 ==> record_ok(
                        v@,
                        n as int,
                        n * (rs / 4) + 16,
                        #[trigger] read_record(v@, rs as int, nd, i),
                    ),
                forall|i: int|
                    0 <= i < idx ==> record_ok(
                        v@,
                        n as int,
                        n * (rs / 4) + 16,
                        #[trigger] read_record(v@, rs as int, node as int, i),
                    ),
            decreases 2 - idx,
        {
            let rec = read_record_exec(v, rs, n, node, idx);
            if !record_ok_exec(v, n, data_start, rec) {
                assert(!record_ok(
                    v@,
                    n as int,
                    n * (rs / 4) + 16,
                    read_record(v@, rs as int, node as int, idx as int),
                ));
                return false;
            }
            idx = idx + 1;
        }
        node = node + 1;
    }
    true
}

/// Whether the image passes the structural checks of `sound_image`.
#[verifier::rlimit(50)]
pub fn image_is_sound(v: &Vec<u8>) -> (r: bool)
    ensures
        r == sound_image(v@),
{
    let len0 = v.len();
    let ms = match find_metadata(v) {
        None => {
            return false;
        },
        Some(m) => m,
    };
    if check_value(v, ms, 0, MAX_DEPTH).is_none() {
        return false;
    }
    let node_count: Vec<u8> = vec![110u8, 111, 100, 101, 95, 99, 111, 117, 110, 116];
    let record_size: Vec<u8> = vec![114u8, 101, 99, 111, 114, 100, 95, 115, 105, 122, 101];
    assert(node_count@ =~= node_count_key());
    assert(record_size@ =~= record_size_key());
    let n = match metadata_field_exec(v, ms, &node_count) {
        None => {
            return false;
        },
        Some(x) => x,
    };
    let rs = match metadata_field_exec(v, ms, &record_size) {
        None => {
            return false;
        },
        Some(x) => x,
    };
    if !(rs == 24 || rs == 28 || rs == 32) {
        return false;
    }
    let len = v.len() as u64;
    let nb: u64 = rs / 4;
    if len < 16 {
        return false;
    }
    let room: u64 = (len - 16) / nb;
    if n > room {
        assert(n as int * nb as int + 16 > len as int) by (nonlinear_arith)
            requires
                n as int > room as int,
                room as int == (len as int - 16) / nb as int,
                nb as int >= 6,
                len as int >= 16,
        ;
        return false;
    }
    assert(n as int * nb as int + 16 <= len as int) by (nonlinear_arith)
        requires
            n as int <= room as int,
            room as int == (len as int - 16) / nb as int,
            nb as int >= 6,
            len as int >= 16,
    ;
    check_tree(v, n, rs)
}

} // verus!
