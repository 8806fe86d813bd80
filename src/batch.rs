use vstd::prelude::*;

use crate::cell::{
    cell_code, encode_single_gh, valid_point, valid_precision, CellPoint,
};
use rayon::iter::{IndexedParallelIterator, IntoParallelRefIterator, ParallelIterator};

verus! {

/// Smallest number of consecutive elements that one parallel task encodes.
pub const MIN_CHUNK: usize = 4096;

/// Why a whole batch was refused before any element was encoded.
#[derive(Clone, Copy, Debug, PartialEq, Eq, Structural)]
pub enum BatchError {
    /// The requested length is not within `1 ..= MAX_K`.
    PrecisionOutOfRange,
    /// The longitude and latitude sequences differ in length.
    LengthMismatch,
}

/// What an optional string holds, as characters.
pub open spec fn opt_chars(o: Option<String>) -> Option<Seq<char>> {
    match o {
        Some(s) => Some(s@),
        None => None,
    }
}

/// The result for one batch element: the geohash when both coordinates are
/// present and the point can be encoded, and nothing otherwise.
pub open spec fn element_code(x: Option<u64>, y: Option<u64>, k: nat) -> Option<Seq<char>> {
    match (x, y) {
        (Some(x), Some(y)) => if valid_point(CellPoint { x, y }) {
            Some(cell_code(CellPoint { x, y }, k))
        } else {
            None
        },
        _ => None,
    }
}

/// Whether `r` holds, in input order, the result of every element.
pub open spec fn batch_result(
    xs: Seq<Option<u64>>,
    ys: Seq<Option<u64>>,
    k: nat,
    r: Seq<Option<String>>,
) -> bool {
    &&& r.len() == xs.len()
    &&& forall|i: int| 0 <= i < r.len() ==> opt_chars(#[trigger] r[i]) == element_code(xs[i], ys[i], k)
}

/// The batch-wide error, if any, for the given lengths and precision. The
/// precision is checked first.
pub open spec fn batch_error(nx: nat, ny: nat, length: int) -> Option<BatchError> {
    if !valid_precision(length) {
        Some(BatchError::PrecisionOutOfRange)
    } else if nx != ny {
        Some(BatchError::LengthMismatch)
    } else {
        None
    }
}

/// Encodes one element; a missing coordinate or a point that cannot be
/// encoded gives `None`.
pub fn encode_element(x: Option<u64>, y: Option<u64>, k: usize) -> (r: Option<String>)
    requires
        valid_precision(k as int),
    ensures
        opt_chars(r) == element_code(x, y, k as nat),
{
    match (x, y) {
        (Some(x), Some(y)) => match encode_single_gh(CellPoint { x, y }, k) {
            Ok(s) => Some(s),
            Err(_) => None,
        },
        _ => None,
    }
}

/// Checks the shape of a batch call.
fn check_batch(nx: usize, ny: usize, length: i32) -> (r: Result<usize, BatchError>)
    ensures
        match batch_error(nx as nat, ny as nat, length as int) {
            Some(e) => r == Err::<usize, BatchError>(e),
            None => r == Ok::<usize, BatchError>(length as usize),
        },
{
    if length < 1 || length > 12 {
        Err(BatchError::PrecisionOutOfRange)
    } else if nx != ny {
        Err(BatchError::LengthMismatch)
    } else {
        Ok(length as usize)
    }
}

/// Encodes a batch one element after the other.
///
/// The whole call fails, before any element is encoded, when `length` is not
/// within `1 ..= MAX_K` or the two sequences differ in length. Otherwise
/// element `i` of the result is the geohash of `(longitude[i], latitude[i])`,
/// or `None` where that point cannot be encoded.
pub fn encode(longitude: &Vec<Option<u64>>, latitude: &Vec<Option<u64>>, length: i32) -> (r:
    Result<Vec<Option<String>>, BatchError>)
    ensures
        match batch_error(longitude@.len(), latitude@.len(), length as int) {
            Some(e) => r == Err::<Vec<Option<String>>, BatchError>(e),
            None => r is Ok && batch_result(longitude@, latitude@, length as nat, r->Ok_0@),
        },
{
    let k = match check_batch(longitude.len(), latitude.len(), length) {
        Ok(k) => k,
        Err(e) => return Err(e),
    };
    let n = latitude.len();
    let mut out: Vec<Option<String>> = Vec::with_capacity(n);
    let mut i: usize = 0;
    while i < n
        invariant
            n == longitude@.len() == latitude@.len(),
            k == length,
            valid_precision(k as int),
            i <= n,
            out@.len() == i,
            forall|j: int| 0 <= j < i ==> opt_chars(#[trigger] out@[j]) == element_code(
                longitude@[j],
                latitude@[j],
                k as nat,
            ),
        decreases n - i,
    {
        let code = encode_element(longitude[i], latitude[i], k);
        out.push(code);
        i = i + 1;
    }
    Ok(out)
}

/// Relies on rayon's indexed parallel iterators: `zip` pairs elements by
/// position, `with_min_len` only sets how many consecutive elements one task
/// takes, and `collect` into a `Vec` keeps the input order. Each element is
/// encoded by `encode_element`.
#[verifier::external_body]
fn par_encode_elements(xs: &Vec<Option<u64>>, ys: &Vec<Option<u64>>, k: usize) -> (r: Vec<
    Option<String>,
>)
    requires
        xs@.len() == ys@.len(),
        valid_precision(k as int),
    ensures
        batch_result(xs@, ys@, k as nat, r@),
{
    xs.par_iter().zip(ys.par_iter()).with_min_len(MIN_CHUNK).map(
        |(x, y)| encode_element(*x, *y, k),
    ).collect()
}

/// Encodes a batch across a pool of worker threads, each taking runs of at
/// least `MIN_CHUNK` consecutive elements.
///
/// Fails and succeeds exactly as `encode` does, and gives the same elements
/// in the same order.
pub fn encode_par(longitude: &Vec<Option<u64>>, latitude: &Vec<Option<u64>>, length: i32) -> (r:
    Result<Vec<Option<String>>, BatchError>)
    ensures
        match batch_error(longitude@.len(), latitude@.len(), length as int) {
            Some(e) => r == Err::<Vec<Option<String>>, BatchError>(e),
            None => r is Ok && batch_result(longitude@, latitude@, length as nat, r->Ok_0@),
        },
{
    let k = match check_batch(longitude.len(), latitude.len(), length) {
        Ok(k) => k,
        Err(e) => return Err(e),
    };
    Ok(par_encode_elements(longitude, latitude, k))
}

/// Both strategies give the same batch: two results that each hold every
/// element's geohash in input order are equal element by element.
pub proof fn lemma_strategies_agree(
    xs: Seq<Option<u64>>,
    ys: Seq<Option<u64>>,
    k: nat,
    a: Seq<Option<String>>,
    b: Seq<Option<String>>,
)
    requires
        batch_result(xs, ys, k, a),
        batch_result(xs, ys, k, b),
    ensures
        a.len() == b.len(),
        forall|i: int| 0 <= i < a.len() ==> opt_chars(#[trigger] a[i]) == opt_chars(b[i]),
{
}

} // verus!
