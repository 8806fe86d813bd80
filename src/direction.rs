use vstd::prelude::*;

verus! {

/// A compass direction from a geohash cell to one of its eight neighbours.
#[derive(Clone, Copy, Debug, PartialEq, Eq, Structural)]
pub enum Direction {
    N,
    NE,
    E,
    SE,
    S,
    SW,
    W,
    NW,
}

/// Why a set of directions does not fit a set of geohashes.
#[derive(Clone, Copy, Debug, PartialEq, Eq, Structural)]
pub enum DirectionError {
    /// There is neither one direction for all geohashes nor one per geohash.
    LengthMismatch,
}

/// The upper-case form of `s`, as `str::to_uppercase` gives it.
pub uninterp spec fn upper_of(s: Seq<char>) -> Seq<char>;

/// The direction that an upper-case name stands for.
pub open spec fn direction_named(s: Seq<char>) -> Option<Direction> {
    if s == seq!['N'] {
        Some(Direction::N)
    } else if s == seq!['N', 'E'] {
        Some(Direction::NE)
    } else if s == seq!['E'] {
        Some(Direction::E)
    } else if s == seq!['S', 'E'] {
        Some(Direction::SE)
    } else if s == seq!['S'] {
        Some(Direction::S)
    } else if s == seq!['S', 'W'] {
        Some(Direction::SW)
    } else if s == seq!['W'] {
        Some(Direction::W)
    } else if s == seq!['N', 'W'] {
        Some(Direction::NW)
    } else {
        None
    }
}

/// The direction that an optional name stands for, in any letter case.
pub open spec fn direction_of(name: Option<String>) -> Option<Direction> {
    match name {
        Some(s) => direction_named(upper_of(s@)),
        None => None,
    }
}

/// Relies on `str::to_uppercase`, whose result depends on the characters
/// alone.
#[verifier::external_body]
fn uppercase(s: &str) -> (r: String)
    ensures
        r@ == upper_of(s@),
{
    s.to_uppercase()
}

/// Reads an upper-case direction name: one of `N`, `NE`, `E`, `SE`, `S`,
/// `SW`, `W`, `NW`.
pub fn direction_from_upper(name: &str) -> (r: Option<Direction>)
    ensures
        r == direction_named(name@),
{
    let n = name.unicode_len();
    if n == 1 {
        let c = name.get_char(0);
        proof {
            assert(name@ =~= seq![c]);
        }
        if c == 'N' {
            Some(Direction::N)
        } else if c == 'E' {
            Some(Direction::E)
        } else if c == 'S' {
            Some(Direction::S)
        } else if c == 'W' {
            Some(Direction::W)
        } else {
            None
        }
    } else if n == 2 {
        let c0 = name.get_char(0);
        let c1 = name.get_char(1);
        proof {
            assert(name@ =~= seq![c0, c1]);
        }
        if c0 == 'N' && c1 == 'E' {
            Some(Direction::NE)
        } else if c0 == 'S' && c1 == 'E' {
            Some(Direction::SE)
        } else if c0 == 'S' && c1 == 'W' {
            Some(Direction::SW)
        } else if c0 == 'N' && c1 == 'W' {
            Some(Direction::NW)
        } else {
            None
        }
    } else {
        None
    }
}

/// Reads a direction name in any letter case.
pub fn as_direction(direction: &str) -> (r: Option<Direction>)
    ensures
        r == direction_named(upper_of(direction@)),
{
    let upper = uppercase(direction);
    direction_from_upper(upper.as_str())
}

/// Reads an optional direction name; a missing name gives no direction.
fn direction_of_name(name: &Option<String>) -> (r: Option<Direction>)
    ensures
        r == direction_of(*name),
{
    match name {
        Some(s) => as_direction(s.as_str()),
        None => None,
    }
}

/// Gives one direction for each of `n` geohashes.
///
/// A single name applies to all `n` geohashes; otherwise there must be one
/// name per geohash, and any other count is a `LengthMismatch`. A missing or
/// unknown name gives no direction for its geohash.
pub fn handle_dirs(dirs: &Vec<Option<String>>, n: usize) -> (r: Result<
    Vec<Option<Direction>>,
    DirectionError,
>)
    ensures
        dirs@.len() != 1 && dirs@.len() != n <==> r == Err::<Vec<Option<Direction>>, DirectionError>(
            DirectionError::LengthMismatch,
        ),
        r is Ok ==> r->Ok_0@.len() == n,
        r is Ok && dirs@.len() == 1 ==> forall|i: int|
            0 <= i < n ==> #[trigger] r->Ok_0@[i] == direction_of(dirs@[0]),
        r is Ok && dirs@.len() != 1 ==> forall|i: int|
            0 <= i < n ==> #[trigger] r->Ok_0@[i] == direction_of(dirs@[i]),
{
    if dirs.len() == 1 {
        let d = direction_of_name(&dirs[0]);
        let mut res: Vec<Option<Direction>> = Vec::with_capacity(n);
        let mut i: usize = 0;
        while i < n
            invariant
                i <= n,
                d == direction_of(dirs@[0]),
                res@.len() == i,
                forall|j: int| 0 <= j < i ==> #[trigger] res@[j] == d,
            decreases n - i,
        {
            res.push(d);
            i = i + 1;
        }
        Ok(res)
    } else if dirs.len() != n {
        Err(DirectionError::LengthMismatch)
    } else {
        let mut res: Vec<Option<Direction>> = Vec::with_capacity(n);
        let mut i: usize = 0;
        while i < n
            invariant
                i <= n,
                n == dirs@.len(),
                res@.len() == i,
                forall|j: int| 0 <= j < i ==> #[trigger] res@[j] == direction_of(dirs@[j]),
            decreases n - i,
        {
            res.push(direction_of_name(&dirs[i]));
            i = i + 1;
        }
        Ok(res)
    }
}

} // verus!
