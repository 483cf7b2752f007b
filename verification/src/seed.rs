//! Initial row construction.
//!
//! A run starts from a row that is either all zeros with a single live cell
//! at the middle position, or filled with independent uniform random bits.
//! A row must hold at least one cell; asking for an empty row is a caller
//! error and is surfaced, never papered over.

use vstd::prelude::*;
use crate::random::random_below;
use crate::transition::binary_row;

verus! {

/// How the initial row is filled.
#[derive(Debug, Clone, Copy, PartialEq, Eq, Structural)]
pub enum SeedMode {
    /// All zeros except a single 1 at the integer floor of half the size.
    SingleCenter,
    /// Each cell drawn independently and uniformly from 0 and 1.
    RandomBinary,
}

/// Why an initial row could not be built.
#[derive(Debug, Clone, Copy, PartialEq, Eq, Structural)]
pub enum SeedError {
    /// A row must hold at least one cell.
    InvalidRowSize,
}

/// The single-center row of `size` cells: zeros everywhere but at the
/// integer floor of `size / 2`, which holds a 1.
pub open spec fn single_center_spec(size: nat) -> Seq<u32> {
    Seq::new(size, |i: int| if i == size as int / 2 { 1u32 } else { 0u32 })
}

/// Builds the initial row of a run: `size` cells filled as `mode` says.
/// Fails exactly when `size` is zero, since the transition function is
/// undefined for empty rows.
pub fn generate_starting_row(size: usize, mode: SeedMode) -> (row_result: Result<
    Vec<u32>,
    SeedError,
>)
    ensures
        row_result is Err <==> size == 0,
        row_result is Err ==> row_result == Err::<Vec<u32>, SeedError>(SeedError::InvalidRowSize),
        row_result is Ok ==> row_result->Ok_0@.len() == size,
        row_result is Ok ==> binary_row(row_result->Ok_0@),
        (row_result is Ok && mode == SeedMode::SingleCenter) ==> row_result->Ok_0@
            == single_center_spec(size as nat),
{
    if size == 0 {
        return Err(SeedError::InvalidRowSize);
    }
    let mut row: Vec<u32> = Vec::new();
    match mode {
        SeedMode::SingleCenter => {
            let midpoint: usize = size / 2;
            let mut k: usize = 0;
            while k < size
                invariant
                    k <= size,
                    midpoint == size as int / 2,
                    row@.len() == k as int,
                    forall|j: int| 0 <= j < k as int ==> row@[j] == single_center_spec(
                        size as nat,
                    )[j],
                decreases size - k,
            {
                if k == midpoint {
                    row.push(1);
                } else {
                    row.push(0);
                }
                k = k + 1;
            }
            proof {
                assert(row@ =~= single_center_spec(size as nat));
            }
        },
        SeedMode::RandomBinary => {
            let mut k: usize = 0;
            while k < size
                invariant
                    k <= size,
                    row@.len() == k as int,
                    forall|j: int| 0 <= j < k as int ==> row@[j] <= 1,
                decreases size - k,
            {
                let bit: u32 = random_below(2);
                row.push(bit);
                k = k + 1;
            }
        },
    }
    Ok(row)
}

} // verus!
