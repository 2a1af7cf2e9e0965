use vstd::prelude::*;

verus! {

/// How a host operation stands when it is polled.
#[derive(Debug, Clone, PartialEq, Eq)]
pub enum HostReply<V> {
    /// The operation has not settled yet.
    Running,
    /// The operation settled with a value.
    Fulfilled(V),
    /// The operation settled with a failure.
    Rejected,
}

impl<V: View> View for HostReply<V> {
    type V = HostReply<V::V>;

    open spec fn view(&self) -> HostReply<V::V> {
        match self {
            HostReply::Running => HostReply::Running,
            HostReply::Fulfilled(v) => HostReply::Fulfilled(v@),
            HostReply::Rejected => HostReply::Rejected,
        }
    }
}

/// What polling a [`PendingSlot`] observed.
#[derive(Debug, Clone, PartialEq, Eq)]
pub enum SlotPoll<T, V> {
    /// No operation was in flight.
    Idle,
    /// The operation in flight has not settled; it stays in the slot.
    Running,
    /// The operation settled with a value; the slot hands back the
    /// operation together with it and is empty again.
    Fulfilled(T, V),
    /// The operation settled with a failure; the slot hands back the
    /// operation and is empty again.
    Rejected(T),
}

/// The slot and the poll result after one poll of a slot holding `slot`,
/// when the host reports `reply` for the operation in it.
pub open spec fn slot_after<T, V>(slot: Option<T>, reply: HostReply<V>) -> (Option<T>, SlotPoll<T, V>) {
    match slot {
        None => (None, SlotPoll::Idle),
        Some(op) => match reply {
            HostReply::Running => (Some(op), SlotPoll::Running),
            HostReply::Fulfilled(v) => (None, SlotPoll::Fulfilled(op, v)),
            HostReply::Rejected => (None, SlotPoll::Rejected(op)),
        },
    }
}

/// Holds at most one operation that is in flight on the host.
///
/// An operation enters with `submit`, which is only allowed on an empty
/// slot, and leaves at the one poll that observes it settle.
pub struct PendingSlot<T> {
    op: Option<T>,
}

impl<T> View for PendingSlot<T> {
    type V = Option<T>;

    closed spec fn view(&self) -> Option<T> {
        self.op
    }
}

impl<T> PendingSlot<T> {
    /// An empty slot.
    pub fn new() -> (s: Self)
        ensures
            s@ is None,
    {
        PendingSlot { op: None }
    }

    /// Whether no operation is in flight.
    pub fn is_empty(&self) -> (r: bool)
        ensures
            r == (self@ is None),
    {
        self.op.is_none()
    }

    /// The operation in flight, if any.
    pub fn peek(&self) -> (r: Option<&T>)
        ensures
            r is None <==> self@ is None,
            r is Some ==> self@ == Some(*r->0),
    {
        match &self.op {
            Some(op) => Some(op),
            None => None,
        }
    }

    /// Records `op` as the operation in flight.
    pub fn submit(&mut self, op: T)
        requires
            old(self)@ is None,
        ensures
            final(self)@ == Some(op),
    {
        self.op = Some(op);
    }

    /// Observes the operation in flight, given how the host reports it.
    ///
    /// While it runs it stays in the slot, so polling again is harmless. When
    /// it settles it leaves the slot and is handed back, exactly once.
    pub fn poll<V>(&mut self, reply: HostReply<V>) -> (r: SlotPoll<T, V>)
        ensures
            (final(self)@, r) == slot_after(old(self)@, reply),
    {
        match reply {
            HostReply::Running => {
                if self.op.is_none() {
                    SlotPoll::Idle
                } else {
                    SlotPoll::Running
                }
            },
            HostReply::Fulfilled(v) => match self.op.take() {
                None => SlotPoll::Idle,
                Some(op) => SlotPoll::Fulfilled(op, v),
            },
            HostReply::Rejected => match self.op.take() {
                None => SlotPoll::Idle,
                Some(op) => SlotPoll::Rejected(op),
            },
        }
    }
}

} // verus!
