//! Laws about machines beside each other, and about targets.
use crate::laws::steps_resume::{is_plain, resuming_keeps};
use crate::lifecycle::init_sys;
use crate::machine::{KontView, World};
use crate::protocol::{OutcomeView, Request, ValueView};
use crate::resume::resume_next;
use crate::runs::asks_for;
use crate::settings::InitParameter;
use vstd::prelude::*;

verus! {

/// Two machines, each with the heap that holds its objects.
pub ghost struct TwoMachines {
    pub first: World,
    pub second: World,
}

/// One of two machines does something: it goes on with an operation, or its host
/// changes it in any way.
pub ghost struct Turn {
    pub is_first: bool,
    pub change: spec_fn(World) -> World,
}

/// Two machines after turns, in the order in which they are taken.
pub open spec fn take_turns(both: TwoMachines, turns: Seq<Turn>) -> TwoMachines
    decreases turns.len(),
{
    if turns.len() == 0 {
        both
    } else {
        let before = take_turns(both, turns.drop_last());
        let turn = turns.last();
        if turn.is_first {
            TwoMachines { first: (turn.change)(before.first), second: before.second }
        } else {
            TwoMachines { first: before.first, second: (turn.change)(before.second) }
        }
    }
}

/// One machine after its own turns alone.
pub open spec fn take_own_turns(w: World, turns: Seq<Turn>, is_first: bool) -> World
    decreases turns.len(),
{
    if turns.len() == 0 {
        w
    } else {
        let before = take_own_turns(w, turns.drop_last(), is_first);
        if turns.last().is_first == is_first {
            (turns.last().change)(before)
        } else {
            before
        }
    }
}

/// Two machines operate in isolation: however their turns follow each other, each ends
/// up with the frames, exceptions, guards, settings and objects that it would have if
/// the other did not exist. What their atomic counters hold is not part of this: that
/// the counters are apart rests on each machine making its own.
pub proof fn machines_are_isolated(both: TwoMachines, turns: Seq<Turn>)
    ensures
        take_turns(both, turns) == (TwoMachines {
            first: take_own_turns(both.first, turns, true),
            second: take_own_turns(both.second, turns, false),
        }),
    decreases turns.len(),
{
    if turns.len() > 0 {
        machines_are_isolated(both, turns.drop_last());
    }
}

/// The turn in which a machine goes on with an operation.
pub open spec fn resuming_turn(is_first: bool, ks: Seq<KontView>, o: OutcomeView) -> Turn {
    Turn { is_first, change: |w: World| resume_next(w, ks, o).world }
}

/// When one of two machines goes on with an operation, the other stays as it is.
pub proof fn resuming_leaves_the_other(
    both: TwoMachines,
    is_first: bool,
    ks: Seq<KontView>,
    o: OutcomeView,
)
    ensures
        ({
            let after = take_turns(both, seq![resuming_turn(is_first, ks, o)]);
            if is_first {
                after.second == both.second && after.first == resume_next(both.first, ks, o).world
            } else {
                after.first == both.first && after.second == resume_next(both.second, ks, o).world
            }
        }),
{
    let turns = seq![resuming_turn(is_first, ks, o)];
    assert(turns.drop_last() =~= Seq::empty());
    assert(take_turns(both, turns.drop_last()) == both);
}

/// No plain operation replaces the state that the threads of an interpreter share.
pub proof fn shared_state_is_kept(w: World, ks: Seq<KontView>, o: OutcomeView)
    requires
        is_plain(ks),
    ensures
        resume_next(w, ks, o).world.vm.state == w.vm.state,
{
    resuming_keeps(w, ks, o);
}

/// A target without signals does not import `_signal`, and one without streams opens
/// none: it goes straight to the import machinery.
pub proof fn what_a_target_lacks_is_left_out(w: World, init: InitParameter, v: ValueView)
    ensures
        w.vm.state.has_signals ==> asks_for(
            init_sys(w, init, Ok(v)),
            Request::ImportBuiltin { name: "_signal"@ },
        ),
        !w.vm.state.has_signals && w.vm.state.has_system ==> asks_for(
            init_sys(w, init, Ok(v)),
            Request::ImportBuiltin { name: "_io"@ },
        ),
        !w.vm.state.has_signals && !w.vm.state.has_system ==> asks_for(
            init_sys(w, init, Ok(v)),
            Request::InitImportlib { init },
        ),
{
}

} // verus!
