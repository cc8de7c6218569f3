//! Admission of runs. Every run that is let in gets an identifier that no other run has,
//! and no more runs are in flight at a time than the service has room for: a request
//! that finds no room is turned away, not queued behind the others' work.

use vstd::prelude::*;

verus! {

/// Who is let in, and under which identifier.
pub struct Admission {
    capacity: usize,
    in_flight: usize,
    next_run_id: u64,
}

/// The mathematical content of an [`Admission`].
pub struct AdmissionView {
    /// How many runs may be in flight at a time.
    pub capacity: nat,
    /// How many runs are in flight.
    pub in_flight: nat,
    /// The identifier that the next run gets.
    pub next_run_id: nat,
}

/// What can happen at the door.
pub enum Turn {
    /// A request asks to be let in.
    Enter,
    /// A run that was let in is over.
    Leave,
}

/// Whether a request is let in: there is room, and an identifier is left.
pub open spec fn has_room(state: AdmissionView) -> bool {
    state.in_flight < state.capacity && state.next_run_id < u64::MAX
}

/// The state after one turn.
pub open spec fn after_turn(state: AdmissionView, turn: Turn) -> AdmissionView {
    match turn {
        Turn::Enter => if has_room(state) {
            AdmissionView {
                in_flight: state.in_flight + 1,
                next_run_id: state.next_run_id + 1,
                ..state
            }
        } else {
            state
        },
        Turn::Leave => if state.in_flight > 0 {
            AdmissionView { in_flight: (state.in_flight - 1) as nat, ..state }
        } else {
            state
        },
    }
}

/// The state after several turns, in order.
pub open spec fn after_turns(state: AdmissionView, turns: Seq<Turn>) -> AdmissionView
    decreases turns.len(),
{
    if turns.len() == 0 {
        state
    } else {
        after_turn(after_turns(state, turns.drop_last()), turns.last())
    }
}

/// The identifiers handed out in the course of several turns, in order.
pub open spec fn run_ids_of(state: AdmissionView, turns: Seq<Turn>) -> Seq<nat>
    decreases turns.len(),
{
    if turns.len() == 0 {
        Seq::empty()
    } else {
        let before = after_turns(state, turns.drop_last());
        let earlier = run_ids_of(state, turns.drop_last());
        if turns.last() is Enter && has_room(before) {
            earlier.push(before.next_run_id)
        } else {
            earlier
        }
    }
}

/// Whatever happens at the door, no more runs are in flight than there is room for,
/// and the identifiers handed out rise strictly: no run gets the identifier of
/// another, earlier or later.
pub proof fn lemma_run_ids_are_never_reused(state: AdmissionView, turns: Seq<Turn>)
    requires
        state.in_flight <= state.capacity,
    ensures
        after_turns(state, turns).capacity == state.capacity,
        after_turns(state, turns).in_flight <= state.capacity,
        state.next_run_id <= after_turns(state, turns).next_run_id,
        forall|i: int|
            0 <= i < run_ids_of(state, turns).len() ==> state.next_run_id <= #[trigger] run_ids_of(
                state,
                turns,
            )[i] < after_turns(state, turns).next_run_id,
        forall|i: int, j: int|
            0 <= i < j < run_ids_of(state, turns).len() ==> #[trigger] run_ids_of(state, turns)[i]
                < #[trigger] run_ids_of(state, turns)[j],
    decreases turns.len(),
{
    if turns.len() > 0 {
        let shorter = turns.drop_last();
        lemma_run_ids_are_never_reused(state, shorter);
        let before = after_turns(state, shorter);
        let earlier = run_ids_of(state, shorter);
        let ids = run_ids_of(state, turns);
        let bound = after_turns(state, turns).next_run_id;
        if turns.last() is Enter && has_room(before) {
            assert(ids == earlier.push(before.next_run_id));
            assert forall|i: int| 0 <= i < ids.len() implies state.next_run_id <= #[trigger] ids[i]
                < bound by {
                if i < earlier.len() {
                    assert(ids[i] == earlier[i]);
                }
            }
            assert forall|i: int, j: int| 0 <= i < j < ids.len() implies #[trigger] ids[i]
                < #[trigger] ids[j] by {
                assert(ids[i] == earlier[i]);
                if j < earlier.len() {
                    assert(ids[j] == earlier[j]);
                }
            }
        } else {
            assert(ids == earlier);
            assert(before.next_run_id <= bound);
        }
    }
}

impl View for Admission {
    type V = AdmissionView;

    closed spec fn view(&self) -> AdmissionView {
        AdmissionView {
            capacity: self.capacity as nat,
            in_flight: self.in_flight as nat,
            next_run_id: self.next_run_id as nat,
        }
    }
}

impl Admission {
    #[verifier::type_invariant]
    spec fn within_capacity(&self) -> bool {
        self.in_flight <= self.capacity
    }

    /// A door with room for `capacity` runs at a time, at which the first run that
    /// is let in gets the identifier `first_run_id`.
    pub fn new(capacity: usize, first_run_id: u64) -> (admission: Admission)
        ensures
            admission@ == (AdmissionView {
                capacity: capacity as nat,
                in_flight: 0,
                next_run_id: first_run_id as nat,
            }),
    {
        Admission { capacity, in_flight: 0, next_run_id: first_run_id }
    }

    /// Lets a run in if there is room and gives it its identifier; turns it away
    /// otherwise. A run that was let in is in flight until it leaves.
    pub fn enter(&mut self) -> (run_id: Option<u64>)
        ensures
            final(self)@ == after_turn(old(self)@, Turn::Enter),
            final(self)@.in_flight <= final(self)@.capacity,
            match run_id {
                Some(id) => has_room(old(self)@) && id == old(self)@.next_run_id,
                None => !has_room(old(self)@),
            },
    {
        proof {
            use_type_invariant(&*self);
        }
        if self.in_flight < self.capacity && self.next_run_id < u64::MAX {
            let run_id = self.next_run_id;
            self.in_flight = self.in_flight + 1;
            self.next_run_id = self.next_run_id + 1;
            Some(run_id)
        } else {
            None
        }
    }

    /// Notes that a run that was let in is over, which makes room for another.
    pub fn leave(&mut self)
        ensures
            final(self)@ == after_turn(old(self)@, Turn::Leave),
            final(self)@.in_flight <= final(self)@.capacity,
    {
        proof {
            use_type_invariant(&*self);
        }
        if self.in_flight > 0 {
            self.in_flight = self.in_flight - 1;
        }
    }

    /// How many runs are in flight.
    pub fn in_flight(&self) -> (count: usize)
        ensures
            count == self@.in_flight,
            count <= self@.capacity,
    {
        proof {
            use_type_invariant(self);
        }
        self.in_flight
    }

    /// How many runs may be in flight at a time.
    pub fn capacity(&self) -> (capacity: usize)
        ensures
            capacity == self@.capacity,
    {
        self.capacity
    }
}

} // verus!
