//! What the lamp asks of its hardware, as a short list in the order in which it is
//! to be done.

use crate::dfplayer::Command;
use crate::gpio::PinOp;
use vstd::prelude::*;

verus! {

/// The most actions that one list holds.
pub const ACTION_CAPACITY: usize = 12;

/// One thing to do.
#[derive(Clone, Copy, Debug, PartialEq, Eq, Structural)]
pub enum Action {
    /// Operate the output port.
    Pin(PinOp),
    /// Send a command to the sound module.
    Send(Command),
    /// Send the first frame to the first strip.
    ShowA,
    /// Send the second frame to the second strip.
    ShowB,
}

/// A list of actions.
pub struct Actions {
    items: [Action; ACTION_CAPACITY],
    len: usize,
}

impl View for Actions {
    type V = Seq<Action>;

    closed spec fn view(&self) -> Seq<Action> {
        self.items@.take(self.len as int)
    }
}

impl Actions {
    #[verifier::type_invariant]
    spec fn within_capacity(self) -> bool {
        self.len <= ACTION_CAPACITY
    }

    /// An empty list.
    pub fn new() -> (actions: Self)
        ensures
            actions@ == Seq::<Action>::empty(),
    {
        Actions { items: [Action::ShowA; ACTION_CAPACITY], len: 0 }
    }

    /// Adds an action at the end.
    pub fn push(&mut self, action: Action)
        requires
            old(self)@.len() < ACTION_CAPACITY,
        ensures
            final(self)@ == old(self)@.push(action),
    {
        proof {
            use_type_invariant(&*self);
        }
        self.items[self.len] = action;
        self.len += 1;
        assert(self@ =~= old(self)@.push(action));
    }

    /// The number of actions.
    pub fn len(&self) -> (len: usize)
        ensures
            len == self@.len(),
            len <= ACTION_CAPACITY,
    {
        proof {
            use_type_invariant(self);
        }
        self.len
    }

    /// The action at `index`, if the list is that long.
    pub fn get(&self, index: usize) -> (action: Option<Action>)
        ensures
            action == (if index < self@.len() {
                Some(self@[index as int])
            } else {
                None
            }),
    {
        proof {
            use_type_invariant(self);
        }
        if index < self.len {
            Some(self.items[index])
        } else {
            None
        }
    }
}

} // verus!
