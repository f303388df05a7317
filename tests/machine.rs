use turing_machine::machine::{BuildError, TraceRecord, TuringMachine};
use turing_machine::rules::{Entry, Movement, TransitionRule, TransitionTable};

fn entry(symbol: char, state: char, write: char, movement: Movement, next: char) -> Entry {
    Entry { symbol, state, write, movement, next }
}

fn three_state_table() -> TransitionTable {
    TransitionTable::new(vec![
        entry('0', 'A', '1', Movement::Right, 'B'),
        entry('0', 'B', '1', Movement::Left, 'A'),
        entry('0', 'C', '1', Movement::Left, 'B'),
        entry('1', 'A', '1', Movement::Left, 'C'),
        entry('1', 'B', '1', Movement::Right, 'B'),
        entry('1', 'C', '1', Movement::Right, 'H'),
    ])
}

fn two_state_table() -> TransitionTable {
    TransitionTable::new(vec![
        entry('0', 'A', '1', Movement::Right, 'B'),
        entry('1', 'A', '1', Movement::Left, 'H'),
        entry('0', 'B', '1', Movement::Left, 'A'),
        entry('1', 'B', '1', Movement::Right, 'B'),
    ])
}

fn two_state_machine() -> TuringMachine<TransitionTable> {
    TuringMachine::new(
        vec!['A', 'B', 'H'],
        vec!['0', '1'],
        '0',
        'A',
        vec!['H'],
        two_state_table(),
        vec!['0'],
    )
    .unwrap()
}

/// Moves right forever, never reaching its final state.
fn runaway_machine() -> TuringMachine<TransitionTable> {
    let table = TransitionTable::new(vec![
        entry('0', 'A', '1', Movement::Right, 'A'),
        entry('1', 'A', '1', Movement::Right, 'A'),
    ]);
    TuringMachine::new(vec!['A', 'H'], vec!['0', '1'], '0', 'A', vec!['H'], table, vec!['0'])
        .unwrap()
}

#[test]
fn busy_beaver() {
    let mut turing_machine = TuringMachine::new(
        vec!['A', 'B', 'C', 'H'],
        vec!['0', '1'],
        '0',
        'A',
        vec!['H'],
        three_state_table(),
        vec!['0'],
    )
    .unwrap();
    let result = turing_machine.run(1000);
    println!("RESULT: {:?}", result);
    assert_eq!(result, Some(vec!['1', '1', '1', '1', '1', '1']));
    assert_eq!(turing_machine.current_state, 'H');
    assert_eq!(turing_machine.head, 4);
}

#[test]
fn two_state_trace() {
    let mut m = two_state_machine();
    assert!(m.step());
    assert_eq!(m.tape, vec!['1', '0']);
    assert_eq!((m.head, m.current_state), (1, 'B'));
    assert!(m.step());
    assert_eq!(m.tape, vec!['1', '1']);
    assert_eq!((m.head, m.current_state), (0, 'A'));
    assert!(m.step());
    assert_eq!(m.tape, vec!['0', '1', '1']);
    assert_eq!((m.head, m.current_state), (0, 'H'));
    assert!(!m.step());
}

#[test]
fn two_state_run() {
    let mut m = two_state_machine();
    assert_eq!(m.run(100), Some(vec!['0', '1', '1']));
    assert_eq!((m.head, m.current_state), (0, 'H'));
}

#[test]
fn run_stops_at_budget() {
    let mut m = two_state_machine();
    assert_eq!(m.run(2), None);
    assert_eq!(m.tape, vec!['1', '1']);
    assert_eq!((m.head, m.current_state), (0, 'A'));
    assert_eq!(m.run(1), Some(vec!['0', '1', '1']));
}

#[test]
fn run_with_zero_budget_on_halted_machine() {
    let mut m = two_state_machine();
    assert_eq!(m.run(3), Some(vec!['0', '1', '1']));
    assert_eq!(m.run(0), Some(vec!['0', '1', '1']));
}

#[test]
fn trace_record_of_a_step() {
    let mut m = two_state_machine();
    let record = m.step_traced();
    assert_eq!(
        record,
        Some(TraceRecord {
            old_state: 'A',
            old_symbol: '0',
            new_state: 'B',
            new_symbol: '1',
            movement: Movement::Right,
        })
    );
    m.run(10);
    assert_eq!(m.step_traced(), None);
}

#[test]
fn rejects_empty_state_set() {
    let r = TuringMachine::new(vec![], vec!['0'], '0', 'A', vec![], two_state_table(), vec![]);
    assert_eq!(r.err(), Some(BuildError::EmptyStateSet));
}

#[test]
fn rejects_unknown_initial_state() {
    let r = TuringMachine::new(vec!['B'], vec!['0'], '0', 'A', vec![], two_state_table(), vec![]);
    assert_eq!(r.err(), Some(BuildError::UnknownInitialState));
}

#[test]
fn rejects_empty_symbol_set() {
    let r = TuringMachine::new(vec!['A'], vec![], '0', 'A', vec![], two_state_table(), vec![]);
    assert_eq!(r.err(), Some(BuildError::EmptySymbolSet));
}

#[test]
fn rejects_unknown_blank_symbol() {
    let r = TuringMachine::new(vec!['A'], vec!['1'], '0', 'A', vec![], two_state_table(), vec![]);
    assert_eq!(r.err(), Some(BuildError::UnknownBlankSymbol));
}

#[test]
fn initial_configuration() {
    let m = TuringMachine::new(
        vec!['A', 'H'],
        vec!['0', '1'],
        '0',
        'A',
        vec![],
        two_state_table(),
        vec!['1', '0', '1'],
    )
    .unwrap();
    assert_eq!((m.head, m.current_state), (0, 'A'));
    assert_eq!(m.tape, vec!['1', '0', '1']);
}

#[test]
fn empty_tape_is_kept_as_given() {
    let m = TuringMachine::new(vec!['A'], vec!['0', '1'], '0', 'A', vec![], two_state_table(), vec![])
        .unwrap();
    assert_eq!(m.tape, Vec::<char>::new());
    assert_eq!((m.head, m.current_state), (0, 'A'));
}

#[test]
fn empty_tape_in_final_state_runs_to_empty_tape() {
    let mut m = TuringMachine::new(vec!['H'], vec!['0'], '0', 'H', vec!['H'], two_state_table(), vec![])
        .unwrap();
    assert!(m.is_halted());
    assert!(!m.step());
    assert_eq!(m.run(10), Some(Vec::<char>::new()));
    assert_eq!(m.head, 0);
}

#[test]
fn halted_machine_stays_put() {
    let mut m = two_state_machine();
    m.run(10);
    let tape = m.tape.clone();
    for _ in 0..5 {
        assert!(!m.step());
        assert_eq!(m.tape, tape);
        assert_eq!((m.head, m.current_state), (0, 'H'));
    }
    assert!(m.is_halted());
}

#[test]
fn new_cells_are_blank() {
    let table = TransitionTable::new(vec![entry('1', 'A', '1', Movement::Left, 'B')]);
    let mut m = TuringMachine::new(vec!['A', 'B'], vec!['0', '1', '_'], '_', 'A', vec![], table, vec!['1'])
        .unwrap();
    assert!(m.step());
    assert_eq!(m.tape, vec!['_', '1']);
    let table = TransitionTable::new(vec![entry('1', 'A', '0', Movement::Right, 'B')]);
    let mut m = TuringMachine::new(vec!['A', 'B'], vec!['0', '1', '_'], '_', 'A', vec![], table, vec!['1'])
        .unwrap();
    assert!(m.step());
    assert_eq!(m.tape, vec!['0', '_']);
    assert_eq!(m.head, 1);
}

#[test]
fn moving_inside_the_tape_does_not_grow_it() {
    let table = TransitionTable::new(vec![entry('1', 'A', '0', Movement::Right, 'A')]);
    let mut m = TuringMachine::new(vec!['A'], vec!['0', '1'], '0', 'A', vec![], table, vec!['1', '1', '1'])
        .unwrap();
    assert!(m.step());
    assert_eq!(m.tape, vec!['0', '1', '1']);
    assert_eq!(m.head, 1);
}

#[test]
fn tape_growth_is_bounded_by_steps() {
    let mut m = runaway_machine();
    for n in 1..=20usize {
        assert!(m.step());
        assert!(m.tape.len() <= 1 + n);
        assert!(m.head <= n);
    }
}

#[test]
fn run_is_deterministic() {
    let mut a = TuringMachine::new(
        vec!['A', 'B', 'C', 'H'],
        vec!['0', '1'],
        '0',
        'A',
        vec!['H'],
        three_state_table(),
        vec!['0'],
    )
    .unwrap();
    let mut b = TuringMachine::new(
        vec!['A', 'B', 'C', 'H'],
        vec!['0', '1'],
        '0',
        'A',
        vec!['H'],
        three_state_table(),
        vec!['0'],
    )
    .unwrap();
    assert_eq!(a.run(1000), b.run(500));
    assert_eq!((a.head, a.current_state), (b.head, b.current_state));
    // thirteen transitions: a budget of twelve is not enough
    let mut c = TuringMachine::new(
        vec!['A', 'B', 'C', 'H'],
        vec!['0', '1'],
        '0',
        'A',
        vec!['H'],
        three_state_table(),
        vec!['0'],
    )
    .unwrap();
    assert_eq!(c.run(12), None);
    assert_eq!(c.run(1), Some(vec!['1', '1', '1', '1', '1', '1']));
}

#[test]
fn unreachable_final_state_exhausts_any_budget() {
    let mut m = runaway_machine();
    assert_eq!(m.run(1000), None);
    assert_eq!(m.current_state, 'A');
    assert_eq!(m.head, 1000);
    assert_eq!(m.tape.len(), 1001);
}

#[test]
fn missing_rule_stops_the_machine() {
    let table = TransitionTable::new(vec![entry('0', 'A', '1', Movement::Right, 'B')]);
    let mut m = TuringMachine::new(vec!['A', 'B'], vec!['0', '1'], '0', 'A', vec![], table, vec!['0'])
        .unwrap();
    assert!(m.step());
    assert!(m.is_halted());
    assert!(!m.step());
    assert_eq!(m.run(5), Some(vec!['1', '0']));
}

#[test]
fn table_first_match_wins() {
    let table = TransitionTable::new(vec![
        entry('0', 'A', '1', Movement::Left, 'B'),
        entry('0', 'A', '0', Movement::Right, 'C'),
    ]);
    assert_eq!(table.apply('0', 'A'), Some(('1', Movement::Left, 'B')));
    assert_eq!(table.apply('1', 'A'), None);
    assert_eq!(table.apply('0', 'B'), None);
}
