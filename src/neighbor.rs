use vstd::prelude::*;

use crate::direction::{direction_of, handle_dirs, Direction, DirectionError};

verus! {

/// The geohash of the cell next to `hash` in direction `d`, as
/// `geohash::neighbor` computes it, or `None` where it fails.
pub uninterp spec fn neighbor_of(hash: Seq<char>, d: Direction) -> Option<Seq<char>>;

#[verifier::external_type_specification]
#[verifier::external_body]
pub struct ExGeohashError(geohash::GeohashError);

#[verifier::external_type_specification]
pub struct ExNeighbors(geohash::Neighbors);

/// Relies on `geohash::neighbor`, whose result depends on the hash and the
/// direction alone. It is given a non-empty hash: on an empty one it shifts a
/// `u64` by 64 bits.
#[verifier::external_body]
fn geohash_neighbor(hash: &str, d: Direction) -> (r: Result<String, geohash::GeohashError>)
    requires
        hash@.len() > 0,
    ensures
        match r {
            Ok(s) => neighbor_of(hash@, d) == Some(s@),
            Err(_) => neighbor_of(hash@, d) is None,
        },
{
    let direction = match d {
        Direction::N => geohash::Direction::N,
        Direction::NE => geohash::Direction::NE,
        Direction::E => geohash::Direction::E,
        Direction::SE => geohash::Direction::SE,
        Direction::S => geohash::Direction::S,
        Direction::SW => geohash::Direction::SW,
        Direction::W => geohash::Direction::W,
        Direction::NW => geohash::Direction::NW,
    };
    geohash::neighbor(hash, direction)
}

/// Whether every one of the eight neighbours of `hash` can be computed.
pub open spec fn all_neighbors_exist(hash: Seq<char>) -> bool {
    &&& neighbor_of(hash, Direction::N) is Some
    &&& neighbor_of(hash, Direction::NE) is Some
    &&& neighbor_of(hash, Direction::E) is Some
    &&& neighbor_of(hash, Direction::SE) is Some
    &&& neighbor_of(hash, Direction::S) is Some
    &&& neighbor_of(hash, Direction::SW) is Some
    &&& neighbor_of(hash, Direction::W) is Some
    &&& neighbor_of(hash, Direction::NW) is Some
}

/// Relies on `geohash::neighbors`, which calls `geohash::neighbor` once for
/// each of the eight directions and fails if any of those calls fails.
#[verifier::external_body]
fn geohash_neighbors(hash: &str) -> (r: Result<geohash::Neighbors, geohash::GeohashError>)
    requires
        hash@.len() > 0,
    ensures
        r is Ok <==> all_neighbors_exist(hash@),
        r is Ok ==> {
            let v = r->Ok_0;
            &&& neighbor_of(hash@, Direction::N) == Some(v.n@)
            &&& neighbor_of(hash@, Direction::NE) == Some(v.ne@)
            &&& neighbor_of(hash@, Direction::E) == Some(v.e@)
            &&& neighbor_of(hash@, Direction::SE) == Some(v.se@)
            &&& neighbor_of(hash@, Direction::S) == Some(v.s@)
            &&& neighbor_of(hash@, Direction::SW) == Some(v.sw@)
            &&& neighbor_of(hash@, Direction::W) == Some(v.w@)
            &&& neighbor_of(hash@, Direction::NW) == Some(v.nw@)
        },
{
    geohash::neighbors(hash)
}

/// The eight neighbours of one geohash, each one missing where it could not
/// be computed.
#[derive(Clone, Debug)]
pub struct RNeighbors {
    pub n: Option<String>,
    pub ne: Option<String>,
    pub e: Option<String>,
    pub se: Option<String>,
    pub s: Option<String>,
    pub sw: Option<String>,
    pub w: Option<String>,
    pub nw: Option<String>,
}

/// What an optional string holds, as characters.
pub open spec fn chars_of(o: Option<String>) -> Option<Seq<char>> {
    match o {
        Some(s) => Some(s@),
        None => None,
    }
}

impl View for RNeighbors {
    /// The neighbours in the order N, NE, E, SE, S, SW, W, NW.
    type V = Seq<Option<Seq<char>>>;

    open spec fn view(&self) -> Seq<Option<Seq<char>>> {
        seq![
            chars_of(self.n),
            chars_of(self.ne),
            chars_of(self.e),
            chars_of(self.se),
            chars_of(self.s),
            chars_of(self.sw),
            chars_of(self.w),
            chars_of(self.nw),
        ]
    }
}

/// The eight directions, in the order of `RNeighbors`'s view.
pub open spec fn compass() -> Seq<Direction> {
    seq![
        Direction::N,
        Direction::NE,
        Direction::E,
        Direction::SE,
        Direction::S,
        Direction::SW,
        Direction::W,
        Direction::NW,
    ]
}

/// The neighbours row for an optional geohash: all eight when every one can
/// be computed, and none otherwise.
pub open spec fn neighbors_row(hash: Option<String>) -> Seq<Option<Seq<char>>> {
    match hash {
        Some(h) => if h@.len() > 0 && all_neighbors_exist(h@) {
            Seq::new(8, |i: int| neighbor_of(h@, compass()[i]))
        } else {
            Seq::new(8, |i: int| None)
        },
        None => Seq::new(8, |i: int| None),
    }
}

impl Default for RNeighbors {
    fn default() -> (r: Self)
        ensures
            r@ == Seq::new(8, |i: int| None::<Seq<char>>),
    {
        let r = Self { n: None, ne: None, e: None, se: None, s: None, sw: None, w: None, nw: None };
        proof {
            assert(r@ =~= Seq::new(8, |i: int| None::<Seq<char>>));
        }
        r
    }
}

impl From<geohash::Neighbors> for RNeighbors {
    fn from(value: geohash::Neighbors) -> (r: Self) {
        RNeighbors {
            n: Some(value.n),
            ne: Some(value.ne),
            e: Some(value.e),
            se: Some(value.se),
            s: Some(value.s),
            sw: Some(value.sw),
            w: Some(value.w),
            nw: Some(value.nw),
        }
    }
}

impl vstd::std_specs::convert::FromSpecImpl<geohash::Neighbors> for RNeighbors {
    open spec fn obeys_from_spec() -> bool {
        true
    }

    open spec fn from_spec(value: geohash::Neighbors) -> Self {
        RNeighbors {
            n: Some(value.n),
            ne: Some(value.ne),
            e: Some(value.e),
            se: Some(value.se),
            s: Some(value.s),
            sw: Some(value.sw),
            w: Some(value.w),
            nw: Some(value.nw),
        }
    }
}

/// The neighbour of an optional geohash in an optional direction: missing
/// when either is missing, when the geohash is empty, or where it cannot be
/// computed.
pub open spec fn neighbor_cell(hash: Option<String>, d: Option<Direction>) -> Option<Seq<char>> {
    match (hash, d) {
        (Some(h), Some(d)) => if h@.len() > 0 {
            neighbor_of(h@, d)
        } else {
            None
        },
        _ => None,
    }
}

/// The neighbour of one geohash in one direction.
fn neighbor_one(hash: &Option<String>, d: Option<Direction>) -> (r: Option<String>)
    ensures
        chars_of(r) == neighbor_cell(*hash, d),
{
    match (hash, d) {
        (Some(h), Some(d)) => {
            if h.as_str().unicode_len() == 0 {
                return None;
            }
            match geohash_neighbor(h.as_str(), d) {
                Ok(s) => Some(s),
                Err(_) => None,
            }
        },
        _ => None,
    }
}

/// The neighbour of each geohash in its direction.
///
/// `direction` holds either one name for all geohashes or one per geohash,
/// in any letter case; any other count fails with `LengthMismatch`. Element
/// `i` of the result is missing where the geohash or its direction is
/// missing, unknown or empty, or where the neighbour cannot be computed.
pub fn neighbor(geohash: &Vec<Option<String>>, direction: &Vec<Option<String>>) -> (r: Result<
    Vec<Option<String>>,
    DirectionError,
>)
    ensures
        direction@.len() != 1 && direction@.len() != geohash@.len() <==> r == Err::<
            Vec<Option<String>>,
            DirectionError,
        >(DirectionError::LengthMismatch),
        r is Ok ==> r->Ok_0@.len() == geohash@.len(),
        r is Ok ==> forall|i: int|
            0 <= i < geohash@.len() ==> chars_of(#[trigger] r->Ok_0@[i]) == neighbor_cell(
                geohash@[i],
                direction_of(if direction@.len() == 1 { direction@[0] } else { direction@[i] }),
            ),
{
    let n = geohash.len();
    let dirs = match handle_dirs(direction, n) {
        Ok(d) => d,
        Err(e) => return Err(e),
    };
    let mut out: Vec<Option<String>> = Vec::with_capacity(n);
    let mut i: usize = 0;
    while i < n
        invariant
            n == geohash@.len() == dirs@.len(),
            direction@.len() == 1 || direction@.len() == n,
            forall|j: int|
                0 <= j < n ==> #[trigger] dirs@[j] == direction_of(
                    if direction@.len() == 1 { direction@[0] } else { direction@[j] },
                ),
            i <= n,
            out@.len() == i,
            forall|j: int|
                0 <= j < i ==> chars_of(#[trigger] out@[j]) == neighbor_cell(geohash@[j], dirs@[j]),
        decreases n - i,
    {
        out.push(neighbor_one(&geohash[i], dirs[i]));
        i = i + 1;
    }
    Ok(out)
}

/// All eight neighbours of one geohash.
fn neighbors_one(hash: &Option<String>) -> (r: RNeighbors)
    ensures
        r@ == neighbors_row(*hash),
{
    match hash {
        Some(h) => {
            if h.as_str().unicode_len() == 0 {
                return RNeighbors::default();
            }
            match geohash_neighbors(h.as_str()) {
                Ok(v) => {
                    let r = RNeighbors::from(v);
                    proof {
                        assert(r@ =~= neighbors_row(*hash));
                    }
                    r
                },
                Err(_) => RNeighbors::default(),
            }
        },
        None => RNeighbors::default(),
    }
}

/// The eight neighbours of each geohash. A row is all missing where the
/// geohash is missing or empty, or where any of its neighbours cannot be
/// computed.
pub fn neighbors(geohash: &Vec<Option<String>>) -> (r: Vec<RNeighbors>)
    ensures
        r@.len() == geohash@.len(),
        forall|i: int| 0 <= i < r@.len() ==> (#[trigger] r@[i])@ == neighbors_row(geohash@[i]),
{
    let n = geohash.len();
    let mut out: Vec<RNeighbors> = Vec::with_capacity(n);
    let mut i: usize = 0;
    while i < n
        invariant
            n == geohash@.len(),
            i <= n,
            out@.len() == i,
            forall|j: int| 0 <= j < i ==> (#[trigger] out@[j])@ == neighbors_row(geohash@[j]),
        decreases n - i,
    {
        out.push(neighbors_one(&geohash[i]));
        i = i + 1;
    }
    out
}

} // verus!
