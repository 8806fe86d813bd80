use vstd::prelude::*;

verus! {

/// Number of fixed-point steps in one full axis: each axis value is held as a
/// count of `2^-30` parts of that axis.
pub const UNIT: u64 = 1073741824;

/// Largest number of characters a geohash can have here.
pub const MAX_K: usize = 12;

/// `UNIT` as a mathematical integer.
pub open spec fn unit() -> nat {
    1073741824
}

/// The 32 geohash characters, as a 4x8 table laid out row by row: a 2-bit
/// index picks the row, a 3-bit index picks the column.
pub open spec fn alphabet() -> Seq<char> {
    seq![
        '0', '1', '4', '5', 'h', 'j', 'n', 'p',
        '2', '3', '6', '7', 'k', 'm', 'q', 'r',
        '8', '9', 'd', 'e', 's', 't', 'w', 'x',
        'b', 'c', 'f', 'g', 'u', 'v', 'y', 'z',
    ]
}

/// A point on the globe in fixed-point form.
///
/// `x` is the longitude, in `UNIT` parts of a full turn counted eastward from
/// the antimeridian (-180 degrees); whole turns are ignored, so any `x` is a
/// valid longitude. `y` is the latitude, in `UNIT` parts of the half-turn
/// counted northward from the south pole; it must be below `UNIT` to be
/// encoded.
#[derive(Clone, Copy, Debug, PartialEq, Eq, Structural)]
pub struct CellPoint {
    pub x: u64,
    pub y: u64,
}

/// Why a point could not be encoded.
#[derive(Clone, Copy, Debug, PartialEq, Eq, Structural)]
pub enum EncodeError {
    /// The latitude lies at or beyond the north pole.
    LatitudeOutOfRange,
    /// The requested length is not within `1 ..= MAX_K`.
    PrecisionOutOfRange,
}

/// Whether `k` is a length that can be encoded.
pub open spec fn valid_precision(k: int) -> bool {
    1 <= k <= MAX_K
}

/// Whether `pt` can be encoded.
pub open spec fn valid_point(pt: CellPoint) -> bool {
    pt.y < unit()
}

/// Width of the range that the longitude is split into at step `p`: the
/// longitude takes 3 bits on even steps and 2 bits on odd steps, the
/// latitude the other way round.
pub open spec fn x_split(p: nat) -> nat {
    if p % 2 == 0 { 8 } else { 4 }
}

/// Width of the range that the latitude is split into at step `p`.
pub open spec fn y_split(p: nat) -> nat {
    if p % 2 == 0 { 4 } else { 8 }
}

/// Table position of the symbol for sub-indices `xi`, `yi` at step `p`: the
/// 2-bit index is the row, the 3-bit index the column.
pub open spec fn symbol(p: nat, xi: nat, yi: nat) -> nat {
    if p % 2 == 0 { yi * 8 + xi } else { xi * 8 + yi }
}

/// The characters of steps `p .. k`, starting from the positions `zx`, `zy`
/// (in `UNIT` parts of the current cell). Each step splits the cell on both
/// axes, emits the character of the sub-cell that holds the point, and goes on
/// with the point's position inside that sub-cell.
pub open spec fn subdivide(zx: nat, zy: nat, p: nat, k: nat) -> Seq<char>
    decreases k - p,
{
    if p >= k {
        Seq::empty()
    } else {
        let sx = zx * x_split(p);
        let sy = zy * y_split(p);
        seq![alphabet()[symbol(p, sx / unit(), sy / unit()) as int]] + subdivide(
            sx % unit(),
            sy % unit(),
            p + 1,
            k,
        )
    }
}

/// The geohash of length `k` of `pt`.
pub open spec fn cell_code(pt: CellPoint, k: nat) -> Seq<char> {
    subdivide(pt.x as nat % unit(), pt.y as nat, 0, k)
}

/// Splitting a position below `UNIT` into `w` parts gives a sub-index below `w`.
proof fn lemma_sub_index(z: nat, w: nat)
    requires
        z < unit(),
        w > 0,
    ensures
        (z * w) / unit() < w,
{
    let u = unit() as int;
    let q = (z * w) as int / u;
    vstd::arithmetic::div_mod::lemma_fundamental_div_mod((z * w) as int, u);
    assert(u * q <= z * w);
    assert(z * w < w * u) by (nonlinear_arith)
        requires
            z < u,
            w > 0,
    ;
    assert(q < w) by (nonlinear_arith)
        requires
            u * q < w * u,
            u > 0,
    ;
}

/// Appends the table character at position `sym`.
fn push_symbol(out: &mut String, sym: usize)
    requires
        sym < 32,
    ensures
        final(out)@ == old(out)@.push(alphabet()[sym as int]),
{
    let table = "0145hjnp2367kmqr89destwxbcfguvyz";
    proof {
        reveal_strlit("0145hjnp2367kmqr89destwxbcfguvyz");
        assert(table@ =~= alphabet());
    }
    let piece = table.substring_char(sym, sym + 1);
    out.append(piece);
    proof {
        assert(piece@ =~= seq![alphabet()[sym as int]]);
        assert(final(out)@ =~= old(out)@.push(alphabet()[sym as int]));
    }
}

/// Encodes `pt` as a geohash of `k` characters.
///
/// Fails with `LatitudeOutOfRange` when the latitude is not below `UNIT`, and
/// otherwise with `PrecisionOutOfRange` when `k` is not within `1 ..= MAX_K`.
pub fn encode_single_gh(pt: CellPoint, k: usize) -> (r: Result<String, EncodeError>)
    ensures
        !valid_point(pt) ==> r == Err::<String, EncodeError>(EncodeError::LatitudeOutOfRange),
        valid_point(pt) && !valid_precision(k as int) ==> r == Err::<String, EncodeError>(
            EncodeError::PrecisionOutOfRange,
        ),
        valid_point(pt) && valid_precision(k as int) ==> r is Ok && r->Ok_0@ == cell_code(
            pt,
            k as nat,
        ),
        r is Ok ==> r->Ok_0@.len() == k,
{
    proof {
        lemma_code_len(pt, k as nat);
    }
    if pt.y >= UNIT {
        return Err(EncodeError::LatitudeOutOfRange);
    }
    if k < 1 || k > MAX_K {
        return Err(EncodeError::PrecisionOutOfRange);
    }
    let mut zx: u64 = pt.x % UNIT;
    let mut zy: u64 = pt.y;
    let mut out = String::new();
    let mut p: usize = 0;
    while p < k
        invariant
            p <= k <= MAX_K,
            zx < unit(),
            zy < unit(),
            out@ + subdivide(zx as nat, zy as nat, p as nat, k as nat) == cell_code(pt, k as nat),
        decreases k - p,
    {
        let wx: u64 = if p % 2 == 0 { 8 } else { 4 };
        let wy: u64 = if p % 2 == 0 { 4 } else { 8 };
        let sx: u64 = zx * wx;
        let sy: u64 = zy * wy;
        let xi: u64 = sx / UNIT;
        let yi: u64 = sy / UNIT;
        proof {
            lemma_sub_index(zx as nat, wx as nat);
            lemma_sub_index(zy as nat, wy as nat);
        }
        let sym: u64 = if p % 2 == 0 { yi * 8 + xi } else { xi * 8 + yi };
        let ghost before = out@;
        push_symbol(&mut out, sym as usize);
        zx = sx % UNIT;
        zy = sy % UNIT;
        proof {
            let rest = subdivide(zx as nat, zy as nat, (p + 1) as nat, k as nat);
            assert(out@ + rest =~= before + (seq![alphabet()[sym as int]] + rest));
        }
        p = p + 1;
    }
    proof {
        assert(out@ + Seq::<char>::empty() =~= out@);
    }
    Ok(out)
}

/// Steps `p .. k` emit one character each.
proof fn lemma_subdivide_len(zx: nat, zy: nat, p: nat, k: nat)
    ensures
        subdivide(zx, zy, p, k).len() == if p <= k { k - p } else { 0 },
    decreases k - p,
{
    if p < k {
        lemma_subdivide_len(zx * x_split(p) % unit(), zy * y_split(p) % unit(), p + 1, k);
    }
}

/// A geohash of length `k` has exactly `k` characters.
pub proof fn lemma_code_len(pt: CellPoint, k: nat)
    ensures
        cell_code(pt, k).len() == k,
{
    lemma_subdivide_len(pt.x as nat % unit(), pt.y as nat, 0, k);
}

/// Running the subdivision one step further only appends characters.
proof fn lemma_subdivide_prefix(zx: nat, zy: nat, p: nat, k: nat)
    requires
        p <= k,
    ensures
        subdivide(zx, zy, p, k) == subdivide(zx, zy, p, k + 1).subrange(0, k - p),
    decreases k - p,
{
    lemma_subdivide_len(zx, zy, p, k + 1);
    if p < k {
        let nx = zx * x_split(p) % unit();
        let ny = zy * y_split(p) % unit();
        lemma_subdivide_prefix(nx, ny, p + 1, k);
        lemma_subdivide_len(nx, ny, p + 1, k + 1);
        assert(subdivide(zx, zy, p, k) =~= subdivide(zx, zy, p, k + 1).subrange(0, k - p));
    } else {
        assert(subdivide(zx, zy, p, k) =~= subdivide(zx, zy, p, k + 1).subrange(0, k - p));
    }
}

/// Each added character refines the cell and never rewrites it: the geohash
/// of length `k` is a prefix of the geohash of length `k + 1`.
pub proof fn lemma_refinement(pt: CellPoint, k: nat)
    ensures
        cell_code(pt, k) == cell_code(pt, k + 1).subrange(0, k as int),
{
    lemma_subdivide_prefix(pt.x as nat % unit(), pt.y as nat, 0, k);
}

/// Encoding is deterministic: two encodings of one point at one length give
/// the same characters.
pub proof fn lemma_deterministic(pt: CellPoint, k: nat, a: Seq<char>, b: Seq<char>)
    requires
        a == cell_code(pt, k),
        b == cell_code(pt, k),
    ensures
        a == b,
{
}

/// Longitude wraps around: adding a whole turn to the longitude leaves the
/// geohash unchanged.
pub proof fn lemma_longitude_turn(pt: CellPoint, k: nat)
    requires
        pt.x + unit() <= u64::MAX,
    ensures
        cell_code(CellPoint { x: (pt.x + unit()) as u64, y: pt.y }, k) == cell_code(pt, k),
{
    vstd::arithmetic::div_mod::lemma_mod_add_multiples_vanish(pt.x as int, unit() as int);
}

} // verus!
