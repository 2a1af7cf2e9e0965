use vstd::prelude::*;
use vstd::slice::slice_to_vec;
use crate::error::{AdapterError, Progress};
use crate::pending::{HostReply, PendingSlot, SlotPoll};

verus! {

/// What a poll of a [`ByteSink`] asks of its caller.
#[derive(Debug, Clone, Copy, PartialEq, Eq, Structural)]
pub enum WriteStep {
    /// Hand the sink's snapshot (see [`ByteSink::in_flight`]) to the host's
    /// write operation, then report that nothing is ready yet.
    Submit,
    /// The write in flight has not settled: nothing is ready yet.
    Suspended,
    /// The write settled; this many bytes were accepted.
    Ready(usize),
    /// The write failed.
    Failed(AdapterError),
}

/// The snapshot in flight and the result after one poll of a sink whose
/// snapshot in flight is `v`, given buffer `buf`, when the host reports
/// `reply` for the write in flight (not consulted when none is).
pub open spec fn after_write(v: Option<Seq<u8>>, buf: Seq<u8>, reply: HostReply<()>) -> (
    Option<Seq<u8>>,
    WriteStep,
) {
    match v {
        None => (Some(buf), WriteStep::Submit),
        Some(snapshot) => match reply {
            HostReply::Running => (v, WriteStep::Suspended),
            HostReply::Fulfilled(_) => (None, WriteStep::Ready(snapshot.len() as usize)),
            HostReply::Rejected => (None, WriteStep::Failed(AdapterError::HostCall)),
        },
    }
}

/// At most one write is in flight: a poll hands a write to the host only
/// when none is in flight, and records a copy of the given bytes as the one in
/// flight; while it runs, polling again leaves the sink as it was and hands
/// over nothing.
pub proof fn lemma_sink_single_in_flight(v: Option<Seq<u8>>, buf: Seq<u8>, reply: HostReply<()>)
    ensures
        after_write(v, buf, reply).1 is Submit ==> v is None && after_write(v, buf, reply).0
            == Some(buf),
        v is Some && reply is Running ==> after_write(v, buf, reply) == (v, WriteStep::Suspended),
{
}

/// Accepted length: every poll that reports a write as accepted reports the
/// length of the bytes that were submitted, and a write submitted from `buf`
/// and later fulfilled is reported with the length of `buf`, whatever buffer
/// the later poll is given.
pub proof fn lemma_write_length(
    buf: Seq<u8>,
    first: HostReply<()>,
    later: Seq<u8>,
    v: Option<Seq<u8>>,
    any: Seq<u8>,
    reply: HostReply<()>,
)
    requires
        buf.len() <= usize::MAX,
    ensures
        after_write(None, buf, first).1 == WriteStep::Submit,
        after_write(after_write(None, buf, first).0, later, HostReply::Fulfilled(())).1
            == WriteStep::Ready(buf.len() as usize),
        after_write(v, any, reply).1 matches WriteStep::Ready(n) ==> v matches Some(s) && n == s.len() as usize,
{
}

/// A host "submit a buffer, settle later" write operation used as a
/// sequential sink.
///
/// At most one write is in flight, carrying its own copy of the bytes it was
/// given; flushing and closing have nothing to do.
pub struct ByteSink {
    pending: PendingSlot<Vec<u8>>,
}

impl View for ByteSink {
    type V = Option<Seq<u8>>;

    /// The bytes of the write in flight, if any.
    closed spec fn view(&self) -> Option<Seq<u8>> {
        match self.pending@ {
            Some(snapshot) => Some(snapshot@),
            None => None,
        }
    }
}

impl ByteSink {
    /// A sink over a host writer, given whether the writer exposes a callable
    /// write operation. Without one, construction fails with a configuration
    /// error.
    pub fn new(write_is_callable: bool) -> (r: Result<Self, AdapterError>)
        ensures
            write_is_callable <==> r is Ok,
            r matches Ok(s) ==> s@ is None,
            r matches Err(e) ==> e == AdapterError::Configuration,
    {
        if write_is_callable {
            Ok(ByteSink { pending: PendingSlot::new() })
        } else {
            Err(AdapterError::Configuration)
        }
    }

    /// The bytes of the write in flight, to hand to the host.
    pub fn in_flight(&self) -> (r: Option<&Vec<u8>>)
        ensures
            r is None <==> self@ is None,
            r matches Some(snapshot) ==> self@ == Some(snapshot@),
    {
        self.pending.peek()
    }

    /// Polls the sink with the source buffer `buf`.
    ///
    /// With no write in flight, it keeps a copy of `buf` as the write to
    /// submit. With a write in flight, `reply` says how it stands: running, it
    /// reports nothing ready; fulfilled, it reports the whole length of the
    /// submitted copy as accepted; rejected, it reports a host-call error.
    /// Either way a settled write leaves the sink idle.
    pub fn poll_write(&mut self, buf: &[u8], reply: HostReply<()>) -> (r: WriteStep)
        ensures
            (final(self)@, r) == after_write(old(self)@, buf@, reply),
    {
        if self.pending.is_empty() {
            let snapshot = slice_to_vec(buf);
            self.pending.submit(snapshot);
            return WriteStep::Submit;
        }
        match self.pending.poll(reply) {
            SlotPoll::Idle => WriteStep::Suspended,
            SlotPoll::Running => WriteStep::Suspended,
            SlotPoll::Fulfilled(snapshot, _) => WriteStep::Ready(snapshot.len()),
            SlotPoll::Rejected(_) => WriteStep::Failed(AdapterError::HostCall),
        }
    }

    /// Flushing is done at once: the sink buffers nothing of its own.
    pub fn poll_flush(&self) -> (r: Progress<()>)
        ensures
            r == Progress::Ready(()),
    {
        Progress::Ready(())
    }

    /// Closing is done at once: closing the host writer is the host's affair.
    pub fn poll_close(&self) -> (r: Progress<()>)
        ensures
            r == Progress::Ready(()),
    {
        Progress::Ready(())
    }
}

} // verus!
