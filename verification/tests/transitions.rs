use cellular_automaton::rules::get_rule_set;
use cellular_automaton::transition::calc_new_row;

#[test]
fn rule_30_single_seed_first_step() {
    // The classic first step of rule 30 from a single live center cell.
    let table = get_rule_set(30);
    let row = vec![0, 0, 0, 1, 0, 0, 0];
    let next = calc_new_row(&row, &table);
    assert_eq!(next, vec![0, 0, 1, 1, 1, 0, 0]);
}

#[test]
fn transition_preserves_length() {
    for rule in [0u32, 30, 90, 110, 255] {
        let table = get_rule_set(rule);
        for n in 1..=20usize {
            let mut row: Vec<u32> = vec![0; n];
            row[n / 2] = 1;
            let next = calc_new_row(&row, &table);
            assert_eq!(next.len(), n);
        }
    }
}

#[test]
fn wraparound_left_neighbor_of_position_0_is_the_last_cell() {
    // Under rule 30, position 0 of [1,0,0,0,0] sees (left, center, right) =
    // (row[4], row[0], row[1]) = (0, 1, 0), neighborhood 010, whose rule-30
    // output is 1; an out-of-bounds read instead of row[4] could not produce
    // this row.
    let table = get_rule_set(30);
    let row = vec![1, 0, 0, 0, 0];
    let next = calc_new_row(&row, &table);
    assert_eq!(next, vec![1, 1, 0, 0, 1]);
}

#[test]
fn wraparound_shifts_under_rule_240() {
    // Rule 240 copies each position's left neighbor, so one step rotates the
    // row right by one; the wrapped cells land at the ends.
    let table = get_rule_set(240);
    let row = vec![1, 0, 0, 0, 0];
    let next = calc_new_row(&row, &table);
    assert_eq!(next, vec![0, 1, 0, 0, 0]);
    let again = calc_new_row(&next, &table);
    assert_eq!(again, vec![0, 0, 1, 0, 0]);
}

#[test]
fn single_cell_row_is_its_own_neighborhood() {
    // With one cell the neighborhood degenerates to (v, v, v): under rule 30
    // a lone 1 reads 111, whose output is 0, and a lone 0 reads 000.
    let table = get_rule_set(30);
    assert_eq!(calc_new_row(&vec![1], &table), vec![0]);
    assert_eq!(calc_new_row(&vec![0], &table), vec![0]);
}
