use cellular_automaton::engine::Automaton;
use cellular_automaton::history::GenerationHistory;
use cellular_automaton::rules::get_rule_set;
use cellular_automaton::transition::calc_new_row;

#[test]
fn ticks_accumulate_generations_oldest_first() {
    let mut automaton = Automaton::new(30, vec![0, 0, 0, 1, 0, 0, 0]);
    automaton.tick();
    automaton.tick();
    automaton.tick();
    let rows = automaton.snapshot();
    assert_eq!(rows.len(), 3);
    assert_eq!(rows[0], vec![0, 0, 1, 1, 1, 0, 0]);
    // Each later generation is the transition of the one before it, and the
    // current row is the most recent generation.
    let table = get_rule_set(30);
    assert_eq!(rows[1], calc_new_row(&rows[0], &table));
    assert_eq!(rows[2], calc_new_row(&rows[1], &table));
    assert_eq!(automaton.current_row(), &rows[2]);
}

#[test]
fn reset_empties_history_and_the_next_tick_uses_the_new_seed() {
    let mut automaton = Automaton::new(30, vec![0, 0, 0, 1, 0, 0, 0]);
    for _ in 0..4 {
        automaton.tick();
    }
    assert_eq!(automaton.snapshot().len(), 4);
    automaton.reset(vec![1, 0, 0, 0, 0]);
    assert_eq!(automaton.snapshot().len(), 0);
    assert_eq!(automaton.current_row(), &vec![1, 0, 0, 0, 0]);
    automaton.tick();
    // The first generation after the reset is the rule-30 transition of the
    // new seed, not of any row the run held before.
    assert_eq!(automaton.snapshot(), &vec![vec![1, 1, 0, 0, 1]]);
}

#[test]
fn rule_change_between_ticks_spares_recorded_generations() {
    let mut automaton = Automaton::new(30, vec![0, 0, 0, 1, 0, 0, 0]);
    automaton.tick();
    let generation_k = automaton.snapshot()[0].clone();
    assert_eq!(generation_k, vec![0, 0, 1, 1, 1, 0, 0]);
    // Rule 240 copies each position's left neighbor: a right rotation.
    automaton.set_rule(240);
    assert_eq!(automaton.snapshot()[0], generation_k);
    assert_eq!(automaton.current_row(), &generation_k);
    automaton.tick();
    let rows = automaton.snapshot();
    assert_eq!(rows[0], generation_k);
    assert_eq!(rows[1], vec![0, 0, 0, 1, 1, 1, 0]);
}

#[test]
fn out_of_range_rule_falls_back_to_some_valid_table() {
    let mut automaton = Automaton::new(30, vec![0, 1, 0]);
    automaton.tick();
    let recorded = automaton.snapshot().clone();
    let row = automaton.current_row().clone();
    automaton.set_rule(256);
    // The invalid number is recovered locally: row and history untouched,
    // and the active table is that of some valid rule, every entry binary.
    assert_eq!(automaton.snapshot(), &recorded);
    assert_eq!(automaton.current_row(), &row);
    let table = automaton.rule_table();
    for v in 0..8 {
        assert!(table.lookup(v) <= 1);
    }
    automaton.tick();
    assert_eq!(automaton.snapshot().len(), 2);
}

#[test]
fn construction_with_an_out_of_range_rule_falls_back_to_a_valid_one() {
    let mut automaton = Automaton::new(999, vec![0, 1, 0]);
    let table = automaton.rule_table();
    for v in 0..8 {
        assert!(table.lookup(v) <= 1);
    }
    automaton.tick();
    let rows = automaton.snapshot();
    assert_eq!(rows.len(), 1);
    assert_eq!(rows[0].len(), 3);
    for cell in &rows[0] {
        assert!(*cell == 0 || *cell == 1);
    }
}

#[test]
fn history_appends_in_order_and_clears_to_empty() {
    let mut history = GenerationHistory::new();
    assert_eq!(history.len(), 0);
    history.append(vec![0, 1, 0]);
    history.append(vec![1, 1, 1]);
    assert_eq!(history.len(), 2);
    assert_eq!(history.snapshot(), &vec![vec![0, 1, 0], vec![1, 1, 1]]);
    history.clear();
    assert_eq!(history.len(), 0);
    assert_eq!(history.snapshot(), &Vec::<Vec<u32>>::new());
}
