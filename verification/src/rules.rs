//! Transition tables for elementary cellular automata.
//!
//! A Wolfram rule number in [0, 255] encodes, one bit per neighborhood, the
//! next value of a cell given the values of its left neighbor, itself and its
//! right neighbor. Writing the rule number in 8-bit binary, the bit at
//! position `i` counting from the most significant end is the output for the
//! neighborhood whose 3-bit value (left cell most significant) equals
//! `7 - i`; equivalently, the output for the neighborhood with value `v` is
//! bit `v` of the rule number counting from the least significant end.

use vstd::prelude::*;
use vstd::string::StrSliceExecFns;

verus! {

/// The output cell that rule `rule` assigns to the neighborhood whose 3-bit
/// value is `v`: bit `v` of `rule`, counting from the least significant end.
pub open spec fn rule_bit(rule: u32, v: u32) -> u32 {
    (rule >> v) & 1
}

/// The full transition table of rule `rule`: entry `v` is the output for the
/// neighborhood whose 3-bit value (left cell most significant) equals `v`.
pub open spec fn table_spec(rule: u32) -> Seq<u32> {
    Seq::new(8, |v: int| rule_bit(rule, v as u32))
}

/// Every table entry is a binary cell value.
pub proof fn lemma_rule_bit_le_one(rule: u32, v: u32)
    ensures
        rule_bit(rule, v) <= 1,
{
    assert((rule >> v) & 1 <= 1) by (bit_vector);
}

/// A total mapping from all 8 three-cell neighborhoods to a binary output
/// value. Entry `v` of the view is the output for the neighborhood whose
/// 3-bit value (left cell most significant) equals `v`, so every lookup is
/// answered: a missing entry is unrepresentable.
#[derive(Debug, PartialEq, Eq)]
pub struct RuleTable {
    bits: Vec<u32>,
}

impl View for RuleTable {
    type V = Seq<u32>;

    closed spec fn view(&self) -> Seq<u32> {
        self.bits@
    }
}

impl RuleTable {
    /// Exactly one binary entry per neighborhood.
    pub open spec fn well_formed(&self) -> bool {
        &&& self@.len() == 8
        &&& forall|v: int| 0 <= v < 8 ==> self@[v] <= 1
    }

    /// The output cell for the neighborhood whose 3-bit value is
    /// `neighborhood`.
    pub fn lookup(&self, neighborhood: usize) -> (out: u32)
        requires
            self.well_formed(),
            neighborhood < 8,
        ensures
            out == self@[neighborhood as int],
            out <= 1,
    {
        self.bits[neighborhood]
    }
}

/// Builds the transition table of rule `rule_set`: entry `v` of the result is
/// bit `v` of the rule number, so in the 8-bit binary rendering of the rule
/// the most significant digit is the output for neighborhood 111 and the
/// least significant digit the output for neighborhood 000.
pub fn get_rule_set(rule_set: u32) -> (table: RuleTable)
    requires
        rule_set <= 255,
    ensures
        table@ == table_spec(rule_set),
        table.well_formed(),
{
    let mut bits: Vec<u32> = Vec::new();
    let mut v: u32 = 0;
    while v < 8
        invariant
            v <= 8,
            bits@.len() == v as int,
            forall|i: int| 0 <= i < v as int ==> bits@[i] == rule_bit(rule_set, i as u32),
            forall|i: int| 0 <= i < v as int ==> bits@[i] <= 1,
        decreases 8 - v,
    {
        let bit: u32 = (rule_set >> v) & 1;
        proof {
            lemma_rule_bit_le_one(rule_set, v);
        }
        bits.push(bit);
        v = v + 1;
    }
    let table = RuleTable { bits };
    proof {
        assert(table@ =~= table_spec(rule_set));
    }
    table
}

/// Two tables built from the same rule number are observably identical: the
/// table is a pure function of the rule number.
pub proof fn lemma_rule_table_idempotent(a: RuleTable, b: RuleTable, rule: u32)
    requires
        a@ == table_spec(rule),
        b@ == table_spec(rule),
    ensures
        a@ == b@,
{
}

/// `s` is the 8-character binary rendering of `rule`, most significant
/// digit first: character `i` is the digit of bit `7 - i` of the rule
/// number.
pub open spec fn is_binary_rendering(s: Seq<char>, rule: u32) -> bool {
    &&& s.len() == 8
    &&& forall|i: int|
        0 <= i < 8 ==> s[i] == (if rule_bit(rule, (7 - i) as u32) == 1 {
            '1'
        } else {
            '0'
        })
}

/// Reading the 8-digit binary rendering of a rule number digit by digit
/// gives its table: the digit at position `i` (most significant first),
/// read as a number, is the output for the neighborhood whose 3-bit value
/// is `7 - i`.
pub proof fn lemma_table_matches_binary_digits(s: Seq<char>, rule: u32, i: int)
    requires
        is_binary_rendering(s, rule),
        0 <= i < 8,
    ensures
        s[i] as u32 - 48 == table_spec(rule)[7 - i],
{
    lemma_rule_bit_le_one(rule, (7 - i) as u32);
    if rule_bit(rule, (7 - i) as u32) == 1 {
        assert(s[i] == '1');
    } else {
        assert(s[i] == '0');
    }
}

/// The decimal digit stored at position `index` of `binary_string`, read as a
/// number: for the strings of `0` and `1` characters this library deals in,
/// the bit at that position.
pub fn get_u32_at_binary_string_index(binary_string: &String, index: usize) -> (digit: u32)
    requires
        index < binary_string@.len(),
        48 <= binary_string@[index as int] as u32 <= 57,
    ensures
        digit == binary_string@[index as int] as u32 - 48,
{
    let c: char = binary_string.as_str().get_char(index);
    c as u32 - 48
}

} // verus!
