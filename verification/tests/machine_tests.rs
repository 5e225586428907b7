use turing::machine::{execute, Action, Movement, Transition, VirtualMachine};
use turing::program::{build_simple_program, step, Observed, Program, StepError};
use turing::tape::{Cursor, Tape};

#[test]
fn machine_starts_running() {
    let vm = VirtualMachine::new('a');
    assert!(matches!(vm, VirtualMachine::Idle('a')));
}

#[test]
fn execute_writes_before_moving() {
    let mut tape = Tape::new();
    tape.set(0, Some('a'));
    let vm = VirtualMachine::new('s');
    let action = Action {
        set: Some('b'),
        movement: Movement::Left,
        transition: Transition::State('t'),
    };

    let (vm2, head) = execute(vm, &action, &mut tape, 0);

    // The write lands at the departed position, not the destination.
    assert_eq!(Some('b'), tape.value(0));
    assert_eq!(None, tape.value(-1));
    assert_eq!(-1, head);
    assert!(matches!(vm2, VirtualMachine::Idle('t')));
}

#[test]
fn execute_movements() {
    let action_right = Action {
        set: None,
        movement: Movement::Right,
        transition: Transition::State('s'),
    };
    let action_stay = Action {
        set: None,
        movement: Movement::Stay,
        transition: Transition::State('s'),
    };

    let mut tape: Tape<char> = Tape::new();
    let (_, head) = execute(VirtualMachine::new('s'), &action_right, &mut tape, 10);
    assert_eq!(11, head);
    let (_, head) = execute(VirtualMachine::new('s'), &action_stay, &mut tape, 10);
    assert_eq!(10, head);
}

#[test]
fn execute_halt_transition() {
    let mut tape: Tape<char> = Tape::new();
    let action = Action {
        set: Some('h'),
        movement: Movement::Stay,
        transition: Transition::Halt,
    };

    let (vm2, head) = execute(VirtualMachine::new('s'), &action, &mut tape, 5);

    assert!(matches!(vm2, VirtualMachine::Done));
    assert_eq!(5, head);
    assert_eq!(Some('h'), tape.value(5));
}

#[test]
fn execute_on_halted_machine_changes_nothing() {
    let mut tape = Tape::new();
    tape.set(0, Some('a'));
    let action = Action {
        set: Some('z'),
        movement: Movement::Right,
        transition: Transition::State('s'),
    };

    let (vm2, head) = execute(VirtualMachine::<char>::Done, &action, &mut tape, 0);

    assert!(matches!(vm2, VirtualMachine::Done));
    assert_eq!(0, head);
    assert_eq!(Some('a'), tape.value(0));
}

#[test]
fn program_lookup_finds_latest_entry() {
    let mut program: Program<u8, u8> = Program::new();
    let obs = Observed { symbol: Some(1), state: 9 };
    program.insert(
        obs,
        Action { set: Some(2), movement: Movement::Stay, transition: Transition::State(9) },
    );
    program.insert(
        obs,
        Action { set: Some(3), movement: Movement::Right, transition: Transition::Halt },
    );

    let action = program.lookup(Some(1), 9).expect("entry present");
    assert_eq!(Some(3), action.set);
    assert!(matches!(action.movement, Movement::Right));
    assert!(matches!(action.transition, Transition::Halt));

    assert!(program.lookup(Some(2), 9).is_none());
    assert!(program.lookup(None, 9).is_none());
    assert!(program.lookup(Some(1), 8).is_none());
}

#[test]
fn blank_symbol_is_its_own_key() {
    let mut program: Program<char, char> = Program::new();
    program.insert(
        Observed { symbol: None, state: 'q' },
        Action { set: Some('x'), movement: Movement::Stay, transition: Transition::Halt },
    );

    assert!(program.lookup(None, 'q').is_some());
    assert!(program.lookup(Some('x'), 'q').is_none());
}

#[test]
fn unhandled_input_is_fatal_and_mutates_nothing() {
    let program: Program<char, char> = Program::new();
    let mut tape = Tape::new();
    tape.set(0, Some('a'));

    let r = step(VirtualMachine::new('a'), &program, &mut tape, 0);

    assert_eq!(Err(StepError::UnhandledInput), r.map(|(_, head)| head));
    assert_eq!(Some('a'), tape.value(0));
}

#[test]
fn step_after_halt_is_noop() {
    let program: Program<char, char> = Program::new();
    let mut tape = Tape::new();
    tape.set(0, Some('a'));

    let (vm2, head) = step(VirtualMachine::Done, &program, &mut tape, 0).expect("no-op");

    assert!(matches!(vm2, VirtualMachine::Done));
    assert_eq!(0, head);
    assert_eq!(Some('a'), tape.value(0));
}

#[test]
fn halts_when_table_says_so() {
    let mut program: Program<char, char> = Program::new();
    program.insert(
        Observed { symbol: None, state: 'q' },
        Action { set: None, movement: Movement::Stay, transition: Transition::Halt },
    );
    let mut tape = Tape::new();

    let (vm2, head) = step(VirtualMachine::new('q'), &program, &mut tape, 0).expect("entry present");

    assert!(matches!(vm2, VirtualMachine::Done));
    assert_eq!(0, head);
}

fn trace_copy_and_erase() -> Vec<(String, i64, Vec<Option<char>>)> {
    let program = build_simple_program();
    let mut tape = Tape::new();
    tape.set(0, Some('a'));
    let mut vm = VirtualMachine::new('a');
    let mut head: i64 = 0;

    let mut trace = Vec::new();
    trace.push((format!("{:?}", vm), head, tape.window(&Cursor::new(head), 2, 3)));
    while matches!(vm, VirtualMachine::Idle(_)) {
        let (vm2, head2) = step(vm, &program, &mut tape, head).expect("table covers the run");
        vm = vm2;
        head = head2;
        trace.push((format!("{:?}", vm), head, tape.window(&Cursor::new(head), 2, 3)));
    }
    trace
}

#[test]
fn copy_and_erase_scenario() {
    let trace = trace_copy_and_erase();

    // Before any step: the window two cells left of the head reads _ _ a _ _.
    assert_eq!(
        ("Idle('a')".to_string(), 0, vec![None, None, Some('a'), None, None]),
        trace[0]
    );

    // After step 1 the written cell shows 'b' while the new head position,
    // left of it, is blank.
    assert_eq!(
        (
            "Idle('b')".to_string(),
            -1,
            vec![None, None, None, Some('b'), None]
        ),
        trace[1]
    );

    // The head now observes a blank in state 'b', so the machine writes 'a'
    // at the current position without moving and halts.
    assert_eq!(
        (
            "Done".to_string(),
            -1,
            vec![None, None, Some('a'), Some('b'), None]
        ),
        trace[2]
    );
    assert_eq!(3, trace.len());
}

#[test]
fn copy_and_erase_clears_a_seen_marker() {
    // The table's middle rule: a 'b' observed in state 'b' is erased and the
    // head moves right past it.
    let program = build_simple_program();
    let mut tape = Tape::new();
    tape.set(0, Some('b'));

    let (vm2, head) = step(VirtualMachine::new('b'), &program, &mut tape, 0).expect("entry present");

    assert_eq!(None, tape.value(0));
    assert_eq!(1, head);
    assert!(matches!(vm2, VirtualMachine::Idle('b')));
}

#[test]
fn determinism_identical_runs_produce_identical_traces() {
    let first = trace_copy_and_erase();
    let second = trace_copy_and_erase();
    assert_eq!(first, second);
}
