//! The per-generation transition function.
//!
//! Each position of a row is rewritten from the 3-cell neighborhood it sits
//! in; the row is logically circular, so the first and last cells are mutual
//! neighbors. All neighborhood reads are against the old row, so no
//! position's new value depends on another position's new value.

use vstd::prelude::*;
use crate::rules::RuleTable;

verus! {

/// Every cell of the row is a binary value.
pub open spec fn binary_row(row: Seq<u32>) -> bool {
    forall|i: int| 0 <= i < row.len() ==> row[i] <= 1
}

/// The 3-bit value of the neighborhood around position `i` of a circular
/// row: left neighbor (most significant), the cell itself, right neighbor
/// (least significant), wrapping around at both ends.
pub open spec fn neighborhood_value(row: Seq<u32>, i: int) -> int
    recommends
        0 <= i < row.len(),
{
    let n = row.len() as int;
    let left = if i == 0 { row[n - 1] } else { row[i - 1] };
    let right = if i == n - 1 { row[0] } else { row[i + 1] };
    4 * (left as int) + 2 * (center_of(row, i) as int) + (right as int)
}

/// The cell at position `i` itself; named so the neighborhood reads as
/// left, center, right.
pub open spec fn center_of(row: Seq<u32>, i: int) -> u32
    recommends
        0 <= i < row.len(),
{
    row[i]
}

/// The next generation of `row` under `table`: position `i` of the result is
/// the table's output for the neighborhood around position `i` of `row`.
pub open spec fn next_row_spec(row: Seq<u32>, table: Seq<u32>) -> Seq<u32>
    recommends
        binary_row(row),
        table.len() == 8,
{
    Seq::new(row.len(), |i: int| table[neighborhood_value(row, i)])
}

/// One transition step never changes the length of a row: every generation
/// of a run has the length the initial row had.
pub proof fn lemma_transition_preserves_length(row: Seq<u32>, table: Seq<u32>)
    requires
        row.len() >= 1,
    ensures
        next_row_spec(row, table).len() == row.len(),
{
}

/// The row is circular: at position 0 the left neighbor is the last cell,
/// and at the last position the right neighbor is cell 0.
pub proof fn lemma_wraparound(row: Seq<u32>)
    requires
        row.len() >= 2,
    ensures
        neighborhood_value(row, 0) == 4 * (row[row.len() - 1] as int) + 2 * (row[0] as int)
            + (row[1] as int),
        neighborhood_value(row, row.len() - 1) == 4 * (row[row.len() - 2] as int) + 2 * (row[
            row.len() - 1
        ] as int) + (row[0] as int),
{
}

/// A row of one cell is its own left and right neighbor: the neighborhood
/// degenerates to three copies of the single cell.
pub proof fn lemma_single_cell_neighborhood(row: Seq<u32>)
    requires
        row.len() == 1,
    ensures
        neighborhood_value(row, 0) == 7 * (row[0] as int),
{
}

/// Computes the next generation of `old_row` under the table `rule_set`,
/// with wraparound boundary handling at both ends. The result has the same
/// length as the input, which is left untouched.
pub fn calc_new_row(old_row: &Vec<u32>, rule_set: &RuleTable) -> (new_row: Vec<u32>)
    requires
        old_row@.len() >= 1,
        binary_row(old_row@),
        rule_set.well_formed(),
    ensures
        new_row@ == next_row_spec(old_row@, rule_set@),
        new_row@.len() == old_row@.len(),
        binary_row(new_row@),
{
    let n = old_row.len();
    let mut new_row: Vec<u32> = Vec::new();
    let mut i: usize = 0;
    while i < n
        invariant
            n == old_row@.len(),
            1 <= n,
            binary_row(old_row@),
            rule_set.well_formed(),
            i <= n,
            new_row@.len() == i as int,
            forall|j: int| 0 <= j < i as int ==> new_row@[j] == next_row_spec(
                old_row@,
                rule_set@,
            )[j],
            forall|j: int| 0 <= j < i as int ==> new_row@[j] <= 1,
        decreases n - i,
    {
        let left: u32 = if i == 0 {
            old_row[n - 1]
        } else {
            old_row[i - 1]
        };
        let center: u32 = old_row[i];
        let right: u32 = if i == n - 1 {
            old_row[0]
        } else {
            old_row[i + 1]
        };
        let neighborhood: usize = (4 * left + 2 * center + right) as usize;
        assert(neighborhood == neighborhood_value(old_row@, i as int));
        let out: u32 = rule_set.lookup(neighborhood);
        new_row.push(out);
        i = i + 1;
    }
    proof {
        assert(new_row@ =~= next_row_spec(old_row@, rule_set@));
    }
    new_row
}

} // verus!
