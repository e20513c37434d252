use vstd::prelude::*;

use crate::dispatch::{Action, Input, Phase, emitted, halts, step, step_rel, vm_after};
use crate::error::DispatchOutcome;
use crate::event::{MoveEventArguments, RawEvent, move_event, spec_move_event};

verus! {

/// The pallet's state: the call it is serving, whether it has had the Move
/// VM, and the events it has deposited since it was created (the runtime's
/// own event store, which is cleared every block, is not kept here).
pub struct MovePallet {
    phase: Phase,
    vm_ready: bool,
    events: Vec<RawEvent>,
}

/// The pallet's state as the contracts speak of it.
pub struct PalletView {
    pub phase: Phase,
    pub vm_ready: bool,
    pub events: Seq<RawEvent>,
}

impl View for MovePallet {
    type V = PalletView;

    closed spec fn view(&self) -> PalletView {
        PalletView { phase: self.phase, vm_ready: self.vm_ready, events: self.events@ }
    }
}

impl MovePallet {
    /// A pallet that serves no call and has recorded nothing.
    pub fn new() -> (p: Self)
        ensures
            p@.phase == Phase::Idle,
            !p@.vm_ready,
            p@.events == Seq::<RawEvent>::empty(),
    {
        MovePallet { phase: Phase::Idle, vm_ready: false, events: Vec::new() }
    }

    /// Takes the next input and answers with the outside work to do next.
    /// The events recorded so far stay as they are; at most one is added.
    pub fn handle(&mut self, input: Input) -> (action: Action)
        requires
            !halts(old(self)@.phase, input),
        ensures
            step_rel(old(self)@.vm_ready, old(self)@.phase, input, final(self)@.phase, action),
            final(self)@.vm_ready == vm_after(old(self)@.vm_ready, old(self)@.phase, input),
            final(self)@.events == old(self)@.events + emitted(old(self)@.phase, input),
    {
        let mut phase = Phase::Idle;
        std::mem::swap(&mut phase, &mut self.phase);
        let (next, action, event, vm_ready) = step(self.vm_ready, phase, input);
        self.phase = next;
        self.vm_ready = vm_ready;
        match event {
            Some(ev) => self.events.push(ev),
            None => {},
        }
        action
    }

    /// Records an event that the Move VM emitted while running a script.
    pub fn deposit_move_event(&mut self, e: MoveEventArguments)
        ensures
            final(self)@.phase == old(self)@.phase,
            final(self)@.vm_ready == old(self)@.vm_ready,
            final(self)@.events == old(self)@.events.push(spec_move_event(e)),
    {
        let ev = move_event(e);
        self.events.push(ev);
    }

    /// Takes the outcome of a run of the VM together with the events that the
    /// VM emitted during it: records those events in order, then the pallet's
    /// own event for the outcome, if any, and answers with the next work.
    pub fn handle_run(
        &mut self,
        outcome: DispatchOutcome,
        run_events: Vec<MoveEventArguments>,
    ) -> (action: Action)
        ensures
            step_rel(
                old(self)@.vm_ready,
                old(self)@.phase,
                Input::Ran(outcome),
                final(self)@.phase,
                action,
            ),
            final(self)@.vm_ready == vm_after(old(self)@.vm_ready, old(self)@.phase, Input::Ran(outcome)),
            final(self)@.events == old(self)@.events + run_events@.map_values(
                |e: MoveEventArguments| spec_move_event(e),
            ) + emitted(old(self)@.phase, Input::Ran(outcome)),
    {
        let ghost start = self@;
        let ghost all = run_events@;
        let mut rest = run_events;
        let n = rest.len();
        let mut k: usize = 0;
        while k < n
            invariant
                0 <= k <= n,
                n == all.len(),
                rest@ == all.skip(k as int),
                self@.phase == start.phase,
                self@.vm_ready == start.vm_ready,
                self@.events == start.events + all.take(k as int).map_values(
                    |e: MoveEventArguments| spec_move_event(e),
                ),
            decreases n - k,
        {
            let e = rest.remove(0);
            proof {
                assert(all.skip(k as int)[0] == all[k as int]);
                assert(rest@ =~= all.skip(k + 1));
                assert(all.take(k + 1) =~= all.take(k as int).push(all[k as int]));
            }
            self.deposit_move_event(e);
            k = k + 1;
            proof {
                assert(all.take(k as int).map_values(|e: MoveEventArguments| spec_move_event(e))
                    =~= all.take(k - 1).map_values(|e: MoveEventArguments| spec_move_event(e)).push(
                    spec_move_event(all[k - 1])));
            }
        }
        proof {
            assert(all.take(n as int) =~= all);
        }
        self.handle(Input::Ran(outcome))
    }

    /// The events recorded so far, oldest first.
    pub fn events(&self) -> (r: &Vec<RawEvent>)
        ensures
            r@ == self@.events,
    {
        &self.events
    }

    /// Whether the pallet has had the Move VM.
    pub fn vm_ready(&self) -> (r: bool)
        ensures
            r == self@.vm_ready,
    {
        self.vm_ready
    }

    /// Where the pallet stands.
    pub fn phase(&self) -> (r: &Phase)
        ensures
            *r == self@.phase,
    {
        &self.phase
    }
}

} // verus!
