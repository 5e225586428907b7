use crate::machine::{applied, Action, Movement, Transition, VirtualMachine};
use crate::tape::{cell_at, Tape};
use vstd::laws_eq::obeys_concrete_eq;
use vstd::prelude::*;

verus! {

broadcast use vstd::laws_eq::group_laws_eq;

/// A lookup key of the transition table: the symbol currently under the head
/// (`None` for blank, a single distinguished key) together with the current
/// control-state.
#[derive(Clone, Copy, Debug)]
pub struct Observed<T, S> {
    pub symbol: Option<T>,
    pub state: S,
}

/// The single fault a step can raise: the table has no entry for the
/// observed (symbol, state) pair. It is surfaced loudly rather than guessed
/// around, so an authoring gap in a table cannot pass for a halt or a no-op.
#[derive(Clone, Copy, Debug, PartialEq, Eq, Structural)]
pub enum StepError {
    UnhandledInput,
}

/// The lookup a table performs, at spec level: the action for an observed
/// pair, or `None` where the table has no entry.
pub open spec fn table_lookup<T, S>(
    m: Map<Observed<T, S>, Action<T, S>>,
    obs: Observed<T, S>,
) -> Option<Action<T, S>> {
    if m.contains_key(obs) {
        Some(m[obs])
    } else {
        None
    }
}

/// A transition table: an immutable mapping from observed (symbol, state)
/// pairs to actions, consulted as a pure function during execution. Entries
/// are held in insertion order; a later entry for the same observation
/// overrides an earlier one, as its model — a map — says.
pub struct Program<T, S> {
    entries: Vec<(Observed<T, S>, Action<T, S>)>,
}

impl<T, S> Program<T, S> {
    /// The map described by a sequence of entries, later entries winning.
    spec fn entries_map(
        s: Seq<(Observed<T, S>, Action<T, S>)>,
    ) -> Map<Observed<T, S>, Action<T, S>>
        decreases s.len(),
    {
        if s.len() == 0 {
            Map::empty()
        } else {
            Self::entries_map(s.drop_last()).insert(s.last().0, s.last().1)
        }
    }
}

impl<T, S> View for Program<T, S> {
    type V = Map<Observed<T, S>, Action<T, S>>;

    /// A table is modelled as the map from observation to action.
    closed spec fn view(&self) -> Map<Observed<T, S>, Action<T, S>> {
        Self::entries_map(self.entries@)
    }
}

impl<T, S> Program<T, S> {
    /// An empty table: no observation has an action yet.
    pub fn new() -> (program: Program<T, S>)
        ensures
            program@ == Map::<Observed<T, S>, Action<T, S>>::empty(),
    {
        let program = Program { entries: Vec::new() };
        proof {
            assert(program@ =~= Map::<Observed<T, S>, Action<T, S>>::empty());
        }
        program
    }

    /// Adds an entry: from now on the table maps `observed` to `action`,
    /// and every other observation to whatever it mapped to before.
    pub fn insert(&mut self, observed: Observed<T, S>, action: Action<T, S>)
        ensures
            final(self)@ == old(self)@.insert(observed, action),
    {
        self.entries.push((observed, action));
        proof {
            assert(self.entries@.drop_last() =~= old(self).entries@);
        }
    }
}

impl<T: Copy + PartialEq, S: Copy + PartialEq> Program<T, S> {
    /// Looks the observed pair up: the action the table's model assigns to
    /// it, or `None` where the model has no entry.
    ///
    /// The symbol and state types must compare by `==` the way their spec
    /// equality does (`vstd::laws_eq::obeys_concrete_eq`); integer types, and
    /// options and tuples of them, carry that fact in
    /// `vstd::laws_eq::group_laws_eq`.
    #[verifier::loop_isolation(false)]
    pub fn lookup(&self, symbol: Option<T>, state: S) -> (r: Option<&Action<T, S>>)
        requires
            obeys_concrete_eq::<T>(),
            obeys_concrete_eq::<S>(),
        ensures
            (match r {
                Some(a) => table_lookup(self@, Observed { symbol, state }) == Some(*a),
                None => table_lookup(self@, Observed { symbol, state }) is None,
            }),
    {
        let ghost key = Observed::<T, S> { symbol, state };
        proof {
            assert(self.entries@.take(self.entries@.len() as int) =~= self.entries@);
        }
        let mut i: usize = self.entries.len();
        while i > 0
            invariant
                i <= self.entries.len(),
                table_lookup(self@, key) == table_lookup(
                    Self::entries_map(self.entries@.take(i as int)),
                    key,
                ),
            decreases i,
        {
            i = i - 1;
            let e = &self.entries[i];
            let symbol_matches = e.0.symbol == symbol;
            let state_matches = e.0.state == state;
            proof {
                assert(obeys_concrete_eq::<Option<T>>());
                reveal(obeys_concrete_eq);
                assert(self.entries@.take(i + 1).drop_last() =~= self.entries@.take(i as int));
                assert(self.entries@.take(i + 1).last() == self.entries@[i as int]);
            }
            if symbol_matches && state_matches {
                return Some(&e.1);
            }
        }
        proof {
            assert(self.entries@.take(0) =~= Seq::<(Observed<T, S>, Action<T, S>)>::empty());
        }
        None
    }
}

/// One step of the machine against a table, at spec level. A halted machine
/// is left untouched. A running machine observes the symbol under the head
/// and its control-state; if the table has no entry for that pair the step
/// faults (`None`) and nothing is mutated, otherwise the entry's action is
/// applied: write, then move, then transition.
pub open spec fn spec_step<T, S>(
    prog: Map<Observed<T, S>, Action<T, S>>,
    vm: VirtualMachine<S>,
    tape: Map<int, T>,
    head: int,
) -> Option<(VirtualMachine<S>, Map<int, T>, int)> {
    match vm {
        VirtualMachine::Done => Some((VirtualMachine::Done, tape, head)),
        VirtualMachine::Idle(s) => {
            let obs = Observed { symbol: cell_at(tape, head), state: s };
            match table_lookup(prog, obs) {
                Some(a) => Some(applied(vm, a, tape, head)),
                None => None,
            }
        },
    }
}

/// The head positions a step can move to fit in the machine word that
/// addresses the tape: only at the two extreme representable positions does
/// this exclude a move further outward.
pub open spec fn step_in_bounds<T, S>(
    prog: Map<Observed<T, S>, Action<T, S>>,
    vm: VirtualMachine<S>,
    tape: Map<int, T>,
    head: int,
) -> bool {
    match vm {
        VirtualMachine::Done => true,
        VirtualMachine::Idle(s) => {
            let obs = Observed { symbol: cell_at(tape, head), state: s };
            match table_lookup(prog, obs) {
                Some(a) => (a.movement is Left ==> head > i64::MIN) && (a.movement is Right
                    ==> head < i64::MAX),
                None => true,
            }
        },
    }
}

/// Executes one step of the machine against the table: reads the symbol
/// under the head, looks the (symbol, state) pair up, and applies the action
/// found — write first, then move, then transition. A missing entry is the
/// unhandled-input fault: it is reported and nothing is mutated. Stepping an
/// already halted machine is a harmless no-op, the documented policy here.
///
/// The symbol and state types must compare by `==` the way their spec
/// equality does (`vstd::laws_eq::obeys_concrete_eq`); integer types, and
/// options and tuples of them, carry that fact in
/// `vstd::laws_eq::group_laws_eq`.
pub fn step<T: Copy + PartialEq, S: Copy + PartialEq>(
    vm: VirtualMachine<S>,
    program: &Program<T, S>,
    tape: &mut Tape<T>,
    head: i64,
) -> (r: Result<(VirtualMachine<S>, i64), StepError>)
    requires
        obeys_concrete_eq::<T>(),
        obeys_concrete_eq::<S>(),
        step_in_bounds(program@, vm, old(tape)@, head as int),
    ensures
        (match r {
            Ok(next) => spec_step(program@, vm, old(tape)@, head as int) == Some(
                (next.0, final(tape)@, next.1 as int),
            ),
            Err(e) => {
                &&& e == StepError::UnhandledInput
                &&& spec_step(program@, vm, old(tape)@, head as int) is None
                &&& final(tape)@ == old(tape)@
            },
        }),
{
    match vm {
        VirtualMachine::Done => Ok((VirtualMachine::Done, head)),
        VirtualMachine::Idle(state) => {
            let symbol = tape.value(head);
            match program.lookup(symbol, state) {
                None => Err(StepError::UnhandledInput),
                Some(action) => {
                    let action = *action;
                    Ok(crate::machine::execute(vm, &action, tape, head))
                },
            }
        },
    }
}

/// The configuration reached after `n` steps, or `None` if some step along
/// the way found no table entry.
pub open spec fn run_steps<T, S>(
    prog: Map<Observed<T, S>, Action<T, S>>,
    vm: VirtualMachine<S>,
    tape: Map<int, T>,
    head: int,
    n: nat,
) -> Option<(VirtualMachine<S>, Map<int, T>, int)>
    decreases n,
{
    if n == 0 {
        Some((vm, tape, head))
    } else {
        match spec_step(prog, vm, tape, head) {
            None => None,
            Some(c) => run_steps(prog, c.0, c.1, c.2, (n - 1) as nat),
        }
    }
}

/// Determinism: a step's only inputs are the table, the machine state, the
/// tape and the head, and the table is consulted as a pure function, so two
/// runs from equal configurations agree after every number of steps — on
/// machine state, tape contents and head position alike.
pub proof fn lemma_run_deterministic<T, S>(
    prog1: Map<Observed<T, S>, Action<T, S>>,
    prog2: Map<Observed<T, S>, Action<T, S>>,
    vm1: VirtualMachine<S>,
    vm2: VirtualMachine<S>,
    tape1: Map<int, T>,
    tape2: Map<int, T>,
    head1: int,
    head2: int,
    n: nat,
)
    requires
        prog1 == prog2,
        vm1 == vm2,
        tape1 == tape2,
        head1 == head2,
    ensures
        run_steps(prog1, vm1, tape1, head1, n) == run_steps(prog2, vm2, tape2, head2, n),
{
}

/// A table entry that maps a reachable observation to `Halt` drives the
/// machine from that configuration to the terminal state in exactly one
/// step.
pub proof fn lemma_halt_entry_halts_in_one_step<T, S>(
    prog: Map<Observed<T, S>, Action<T, S>>,
    s: S,
    tape: Map<int, T>,
    head: int,
)
    requires
        prog.contains_key((Observed { symbol: cell_at(tape, head), state: s })),
        prog[(Observed { symbol: cell_at(tape, head), state: s })].transition is Halt,
    ensures
        (spec_step(prog, VirtualMachine::Idle(s), tape, head) matches Some(c) && c.0
            == VirtualMachine::<S>::Done),
{
}

/// Halted is terminal: however many further steps are taken, a halted
/// machine stays halted and neither the tape nor the head changes.
pub proof fn lemma_halted_is_terminal<T, S>(
    prog: Map<Observed<T, S>, Action<T, S>>,
    tape: Map<int, T>,
    head: int,
    n: nat,
)
    ensures
        run_steps(prog, VirtualMachine::<S>::Done, tape, head, n) == Some(
            (VirtualMachine::<S>::Done, tape, head),
        ),
    decreases n,
{
    if n > 0 {
        lemma_halted_is_terminal::<T, S>(prog, tape, head, (n - 1) as nat);
    }
}

/// The copy-and-erase demonstration table: on symbol `'a'` in state `'a'`,
/// write `'b'`, move left and enter state `'b'`; on `'b'` in state `'b'`,
/// clear the cell and move right; on blank in state `'b'`, write `'a'`,
/// stay, and halt.
pub fn build_simple_program() -> (program: Program<char, char>)
    ensures
        program@ == (Map::<Observed<char, char>, Action<char, char>>::empty().insert(
            Observed { symbol: Some('a'), state: 'a' },
            Action { set: Some('b'), movement: Movement::Left, transition: Transition::State('b') },
        ).insert(
            Observed { symbol: Some('b'), state: 'b' },
            Action { set: None, movement: Movement::Right, transition: Transition::State('b') },
        ).insert(
            Observed { symbol: None, state: 'b' },
            Action { set: Some('a'), movement: Movement::Stay, transition: Transition::Halt },
        )),
{
    let mut program = Program::new();

    program.insert(
        Observed { symbol: Some('a'), state: 'a' },
        Action { transition: Transition::State('b'), set: Some('b'), movement: Movement::Left },
    );

    program.insert(
        Observed { symbol: Some('b'), state: 'b' },
        Action { transition: Transition::State('b'), set: None, movement: Movement::Right },
    );

    program.insert(
        Observed { symbol: None, state: 'b' },
        Action { transition: Transition::Halt, set: Some('a'), movement: Movement::Stay },
    );

    program
}

} // verus!
