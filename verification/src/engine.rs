//! The automaton engine.
//!
//! A run holds the active transition table, the current row, and the
//! history of generations produced so far. A driver advances it one
//! generation at a time with `tick`, may swap the rule between ticks with
//! `set_rule` without disturbing what is already recorded, and restarts it
//! with `reset`, which empties the history and installs a fresh initial
//! row. Each generation is computed against one consistent table: the
//! table can only change between ticks.

use vstd::prelude::*;
use crate::history::GenerationHistory;
use crate::random::random_below;
use crate::rules::{get_rule_set, table_spec, RuleTable};
use crate::transition::{binary_row, calc_new_row, next_row_spec};

verus! {

/// The state of a run as the contracts speak of it: the active table, the
/// current row, and the recorded generations, oldest first.
#[verifier::ext_equal]
pub struct AutomatonModel {
    pub table: Seq<u32>,
    pub row: Seq<u32>,
    pub history: Seq<Seq<u32>>,
}

impl AutomatonModel {
    /// The run invariant: a total binary table, a non-empty binary current
    /// row, and every recorded generation of the current row's length.
    pub open spec fn well_formed(self) -> bool {
        &&& self.table.len() == 8
        &&& (forall|v: int| 0 <= v < 8 ==> self.table[v] <= 1)
        &&& self.row.len() >= 1
        &&& binary_row(self.row)
        &&& (forall|i: int|
            0 <= i < self.history.len() ==> (#[trigger] self.history[i]).len() == self.row.len())
    }
}

/// Advancing one generation: the new current row is the transition of the
/// old one under the active table, and exactly that row is appended to the
/// history; nothing else moves.
pub open spec fn tick_model(m: AutomatonModel) -> AutomatonModel {
    AutomatonModel {
        table: m.table,
        row: next_row_spec(m.row, m.table),
        history: m.history.push(next_row_spec(m.row, m.table)),
    }
}

/// A reset: the history is emptied and the new seed becomes the current
/// row; the active table is kept.
pub open spec fn reset_model(m: AutomatonModel, seed: Seq<u32>) -> AutomatonModel {
    AutomatonModel { table: m.table, row: seed, history: Seq::<Seq<u32>>::empty() }
}

/// A rule change: only the active table moves; the current row and the
/// recorded history stay as they are.
pub open spec fn set_rule_model(m: AutomatonModel, table: Seq<u32>) -> AutomatonModel {
    AutomatonModel { table: table, row: m.row, history: m.history }
}

/// One simulation run.
pub struct Automaton {
    rule_table: RuleTable,
    current_row: Vec<u32>,
    history: GenerationHistory,
}

impl View for Automaton {
    type V = AutomatonModel;

    closed spec fn view(&self) -> AutomatonModel {
        AutomatonModel {
            table: self.rule_table@,
            row: self.current_row@,
            history: self.history@,
        }
    }
}

impl Automaton {
    /// The run invariant, on the model of the state.
    pub open spec fn well_formed(&self) -> bool {
        self@.well_formed()
    }

    /// A fresh run: the table of `rule` is active, `initial_row` is the row
    /// the first tick will transition from, and no generation is recorded
    /// yet. An out-of-range rule number is recovered locally by falling
    /// back to a uniformly random valid rule, never propagated.
    pub fn new(rule: u32, initial_row: Vec<u32>) -> (automaton: Automaton)
        requires
            initial_row@.len() >= 1,
            binary_row(initial_row@),
        ensures
            rule <= 255 ==> automaton@.table == table_spec(rule),
            exists|chosen: u32| chosen <= 255 && automaton@.table == table_spec(chosen),
            automaton@.row == initial_row@,
            automaton@.history.len() == 0,
            automaton.well_formed(),
    {
        let chosen: u32 = if rule <= 255 {
            rule
        } else {
            random_below(256)
        };
        let automaton = Automaton {
            rule_table: get_rule_set(chosen),
            current_row: initial_row,
            history: GenerationHistory::new(),
        };
        proof {
            assert(chosen <= 255 && automaton@.table == table_spec(chosen));
        }
        automaton
    }

    /// Advances one generation: the transition of the current row under the
    /// active table becomes current and is appended to the history. The
    /// whole step is `tick_model` on the state: recorded generations keep
    /// their places, the table does not move, and the row keeps its length.
    pub fn tick(&mut self)
        requires
            old(self).well_formed(),
        ensures
            final(self)@ == tick_model(old(self)@),
            final(self).well_formed(),
    {
        let new_row = calc_new_row(&self.current_row, &self.rule_table);
        self.current_row = new_row;
        let row_copy = self.current_row.clone();
        proof {
            assert(row_copy@ =~= self.current_row@);
            if self@.history.len() > 0 {
                assert(old(self)@.history[old(self)@.history.len() - 1].len()
                    == old(self)@.row.len());
            }
        }
        self.history.append(row_copy);
        proof {
            assert(self@ =~= tick_model(old(self)@));
            assert forall|i: int|
                0 <= i < self@.history.len() implies (#[trigger] self@.history[i]).len()
                == self@.row.len() by {
                if i < old(self)@.history.len() {
                    assert(self@.history[i] == old(self)@.history[i]);
                } else {
                    assert(self@.history[i] == next_row_spec(old(self)@.row, old(self)@.table));
                }
            }
        }
    }

    /// Installs the table of `rule` if it is a valid rule number; an
    /// out-of-range number is recovered locally by falling back to a
    /// uniformly random valid rule, never propagated. The current row and
    /// the recorded history are untouched either way, so the change takes
    /// effect from the next tick on.
    pub fn set_rule(&mut self, rule: u32)
        requires
            old(self).well_formed(),
        ensures
            rule <= 255 ==> final(self)@ == set_rule_model(old(self)@, table_spec(rule)),
            final(self)@.row == old(self)@.row,
            final(self)@.history == old(self)@.history,
            exists|chosen: u32| chosen <= 255 && final(self)@.table == table_spec(chosen),
            final(self).well_formed(),
    {
        let chosen: u32 = if rule <= 255 {
            rule
        } else {
            random_below(256)
        };
        self.rule_table = get_rule_set(chosen);
        proof {
            assert(chosen <= 255 && self@.table == table_spec(chosen));
            if rule <= 255 {
                assert(self@ =~= set_rule_model(old(self)@, table_spec(rule)));
            }
            assert(self@.history == old(self)@.history);
            assert forall|i: int|
                0 <= i < self@.history.len() implies (#[trigger] self@.history[i]).len()
                == self@.row.len() by {
                assert(old(self)@.history[i].len() == old(self)@.row.len());
            }
        }
    }

    /// Clears the history atomically and installs `new_row` as the current
    /// row, so the next tick transitions from `new_row` and not from the
    /// row the run held before. The active table is kept.
    pub fn reset(&mut self, new_row: Vec<u32>)
        requires
            old(self).well_formed(),
            new_row@.len() >= 1,
            binary_row(new_row@),
        ensures
            final(self)@ == reset_model(old(self)@, new_row@),
            final(self)@.history.len() == 0,
            final(self).well_formed(),
    {
        self.history.clear();
        self.current_row = new_row;
        proof {
            assert(self@ =~= reset_model(old(self)@, new_row@));
        }
    }

    /// The row the next tick will transition from.
    pub fn current_row(&self) -> (row: &Vec<u32>)
        ensures
            row@ == self@.row,
    {
        &self.current_row
    }

    /// A read-only view of the recorded generations, oldest first, for a
    /// rendering collaborator.
    pub fn snapshot(&self) -> (rows: &Vec<Vec<u32>>)
        ensures
            rows.deep_view() == self@.history,
    {
        self.history.snapshot()
    }

    /// The active transition table.
    pub fn rule_table(&self) -> (table: &RuleTable)
        ensures
            table@ == self@.table,
    {
        &self.rule_table
    }
}

/// After a reset the history is empty, and the next tick computes from the
/// new seed under the kept table, not from the row the run held before:
/// the one generation then recorded is the transition of the seed.
pub proof fn lemma_reset_then_tick(m: AutomatonModel, seed: Seq<u32>)
    ensures
        reset_model(m, seed).history.len() == 0,
        tick_model(reset_model(m, seed)).row == next_row_spec(seed, m.table),
        tick_model(reset_model(m, seed)).history =~= seq![next_row_spec(seed, m.table)],
{
}

/// A rule change between ticks touches no generation already recorded and
/// takes effect from the next generation on: the next tick appends the
/// transition of the current row under the new table, and every earlier
/// entry of the history keeps its place and value.
pub proof fn lemma_set_rule_affects_next_tick_only(m: AutomatonModel, new_table: Seq<u32>)
    ensures
        set_rule_model(m, new_table).history == m.history,
        set_rule_model(m, new_table).row == m.row,
        tick_model(set_rule_model(m, new_table)).history == m.history.push(
            next_row_spec(m.row, new_table),
        ),
        forall|k: int|
            0 <= k < m.history.len() ==> #[trigger] tick_model(
                set_rule_model(m, new_table),
            ).history[k] == m.history[k],
{
}

} // verus!
