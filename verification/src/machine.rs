use crate::tape::{cell_at, written, Tape};
use vstd::prelude::*;

verus! {

/// How the head moves after a write: one cell left, one cell right, or not
/// at all.
#[derive(Clone, Copy, Debug)]
pub enum Movement {
    Left,
    Right,
    Stay,
}

/// What control-state a step leads to: another state, or the terminal halt.
#[derive(Clone, Copy, Debug)]
pub enum Transition<S> {
    State(S),
    Halt,
}

/// One entry of a transition table: the symbol to write (`None` clears the
/// cell), the movement to make after the write, and the transition to take.
#[derive(Clone, Copy, Debug)]
pub struct Action<T, S> {
    pub set: Option<T>,
    pub movement: Movement,
    pub transition: Transition<S>,
}

/// The execution state of the machine: either `Idle`, holding the current
/// control-state and ready to take a step, or `Done`, the sole terminal
/// state, out of which no transition leads.
#[derive(Clone, Copy, Debug)]
pub enum VirtualMachine<S> {
    Idle(S),
    Done,
}

impl<S: Copy> VirtualMachine<S> {
    /// A machine always starts running, in the caller-supplied control-state.
    pub fn new(state: S) -> (vm: VirtualMachine<S>)
        ensures
            vm == VirtualMachine::Idle(state),
    {
        VirtualMachine::Idle(state)
    }
}

/// The head position after a movement.
pub open spec fn moved(head: int, movement: Movement) -> int {
    match movement {
        Movement::Left => head - 1,
        Movement::Right => head + 1,
        Movement::Stay => head,
    }
}

/// The machine value a transition leads to.
pub open spec fn transitioned<S>(t: Transition<S>) -> VirtualMachine<S> {
    match t {
        Transition::State(s) => VirtualMachine::Idle(s),
        Transition::Halt => VirtualMachine::Done,
    }
}

/// What one application of an action does to the configuration: an already
/// halted machine is left untouched (stepping it is a harmless no-op, the
/// documented policy here); a running machine writes first, then moves, then
/// transitions.
pub open spec fn applied<T, S>(
    vm: VirtualMachine<S>,
    action: Action<T, S>,
    tape: Map<int, T>,
    head: int,
) -> (VirtualMachine<S>, Map<int, T>, int) {
    match vm {
        VirtualMachine::Done => (VirtualMachine::Done, tape, head),
        VirtualMachine::Idle(_) => (
            transitioned(action.transition),
            written(tape, head, action.set),
            moved(head, action.movement),
        ),
    }
}

/// Applies one action to a running machine: writes the action's symbol at
/// the head (before any move), then moves the head, then takes the
/// transition. On an already halted machine it changes nothing.
pub fn execute<T, S>(
    vm: VirtualMachine<S>,
    action: &Action<T, S>,
    tape: &mut Tape<T>,
    head: i64,
) -> (r: (VirtualMachine<S>, i64))
    where T: Copy, S: Copy
    requires
        vm is Idle && action.movement is Left ==> head > i64::MIN,
        vm is Idle && action.movement is Right ==> head < i64::MAX,
    ensures
        (r.0, final(tape)@, r.1 as int) == applied(vm, *action, old(tape)@, head as int),
{
    match vm {
        VirtualMachine::Done => (VirtualMachine::Done, head),
        VirtualMachine::Idle(_) => {
            tape.set(head, action.set);

            let new_head = match action.movement {
                Movement::Left => head - 1,
                Movement::Right => head + 1,
                Movement::Stay => head,
            };

            let vm_state = match action.transition {
                Transition::Halt => VirtualMachine::Done,
                Transition::State(state) => VirtualMachine::Idle(state),
            };

            (vm_state, new_head)
        },
    }
}

} // verus!
