use vstd::prelude::*;
use crate::error::AdapterError;
use crate::pending::{HostReply, PendingSlot, SlotPoll};

verus! {

/// A byte range `[start, end)` of the source, as asked of the host.
#[derive(Debug, Clone, Copy, PartialEq, Eq, Structural)]
pub struct ReadRange {
    pub start: u64,
    pub end: u64,
}

/// What a poll of a [`ByteSource`] asks of its caller.
#[derive(Debug, Clone, Copy, PartialEq, Eq, Structural)]
pub enum ReadStep {
    /// Start a slice read of this range on the host, then report that
    /// nothing is ready yet.
    Start(ReadRange),
    /// The slice read in flight has not settled: nothing is ready yet.
    Suspended,
    /// This many bytes were copied to the front of the buffer; zero marks the
    /// end of the stream.
    Ready(usize),
    /// The slice read failed.
    Failed(AdapterError),
}

/// The state of a [`ByteSource`]: its size, the next unread position, and
/// the range of the slice read in flight, if any.
pub struct SourceView {
    pub size: nat,
    pub offset: nat,
    pub pending: Option<ReadRange>,
}

/// The range that a poll with a buffer of `buf_len` bytes asks for.
pub open spec fn range_for(v: SourceView, buf_len: nat) -> ReadRange {
    let end = if v.offset + buf_len < v.size { v.offset + buf_len } else { v.size };
    ReadRange { start: v.offset as u64, end: end as u64 }
}

/// The source's state, the result, and the buffer after one poll from state
/// `v` with buffer `buf`, when the host reports `reply` for the slice read in
/// flight (not consulted when none is).
pub open spec fn after_poll(v: SourceView, buf: Seq<u8>, reply: HostReply<Seq<u8>>) -> (
    SourceView,
    ReadStep,
    Seq<u8>,
) {
    match v.pending {
        None => {
            let r = range_for(v, buf.len());
            if r.end == r.start {
                (v, ReadStep::Ready(0), buf)
            } else {
                (SourceView { pending: Some(r), ..v }, ReadStep::Start(r), buf)
            }
        },
        Some(r) => match reply {
            HostReply::Running => (v, ReadStep::Suspended, buf),
            HostReply::Rejected => (
                SourceView { pending: None, ..v },
                ReadStep::Failed(AdapterError::HostCall),
                buf,
            ),
            HostReply::Fulfilled(bytes) => {
                if bytes.len() != r.end - r.start {
                    (SourceView { pending: None, ..v }, ReadStep::Failed(AdapterError::HostCall), buf)
                } else {
                    let n: nat = if bytes.len() < buf.len() { bytes.len() } else { buf.len() };
                    (
                        SourceView { offset: v.offset + n, pending: None, ..v },
                        ReadStep::Ready(n as usize),
                        bytes.subrange(0, n as int) + buf.subrange(n as int, buf.len() as int),
                    )
                }
            },
        },
    }
}

/// The invariant of a source's state: the position lies within the
/// resource, and a read in flight starts there and covers a nonempty range
/// inside the resource.
pub open spec fn source_wf(v: SourceView) -> bool {
    &&& v.offset <= v.size
    &&& v.size <= u64::MAX
    &&& v.pending matches Some(r) ==> r.start == v.offset && v.offset < r.end && r.end <= v.size
}

/// The answer of a host that serves a read of `r` faithfully from a
/// resource holding `content`.
pub open spec fn served(content: Seq<u8>, r: ReadRange) -> HostReply<Seq<u8>> {
    HostReply::Fulfilled(content.subrange(r.start as int, r.end as int))
}

/// One read round from state `v` with buffer `buf`: a poll that may start a
/// read, then, if it did, a poll after the host served that read from
/// `content`.
pub open spec fn read_round(content: Seq<u8>, v: SourceView, buf: Seq<u8>) -> (
    SourceView,
    ReadStep,
    Seq<u8>,
) {
    let first = after_poll(v, buf, HostReply::Running);
    match first.1 {
        ReadStep::Start(r) => after_poll(first.0, first.2, served(content, r)),
        _ => first,
    }
}

/// The concatenation of the chunks that read rounds with a buffer of `b`
/// bytes deliver from position `offset` of `content` until the end of the
/// stream is reported.
pub open spec fn delivered(content: Seq<u8>, offset: nat, b: nat) -> Seq<u8>
    decreases content.len() - offset,
{
    let v = SourceView { size: content.len(), offset, pending: None };
    let round = read_round(content, v, Seq::new(b, |i: int| 0u8));
    if offset < round.0.offset <= content.len() {
        match round.1 {
            ReadStep::Ready(n) => round.2.subrange(0, n as int) + delivered(
                content,
                round.0.offset,
                b,
            ),
            _ => Seq::empty(),
        }
    } else {
        Seq::empty()
    }
}

/// Reading to the end: with a buffer of any nonzero size and a host that
/// serves each read faithfully, the chunks delivered from a position on are
/// exactly the rest of the content, byte for byte; once the position reaches
/// the size, every poll reports zero bytes and asks the host for nothing.
pub proof fn lemma_read_completeness(content: Seq<u8>, offset: nat, b: nat)
    requires
        0 < b <= usize::MAX,
        offset <= content.len(),
        content.len() <= u64::MAX,
    ensures
        delivered(content, offset, b) == content.subrange(offset as int, content.len() as int),
        forall|buf: Seq<u8>, reply: HostReply<Seq<u8>>|
            #[trigger] after_poll(
                SourceView { size: content.len(), offset: content.len(), pending: None },
                buf,
                reply,
            ) == (SourceView { size: content.len(), offset: content.len(), pending: None },
            ReadStep::Ready(0), buf),
    decreases content.len() - offset,
{
    let len = content.len();
    let v = SourceView { size: len, offset, pending: None };
    let buf = Seq::new(b, |i: int| 0u8);
    let round = read_round(content, v, buf);
    if offset < len {
        let r = range_for(v, b);
        assert(r.start == offset);
        assert(r.end > r.start);
        let bytes = content.subrange(r.start as int, r.end as int);
        assert(round == after_poll(SourceView { pending: Some(r), ..v }, buf, served(content, r)));
        assert(round.0.offset == r.end);
        assert(round.1 == ReadStep::Ready((r.end - r.start) as usize));
        assert(round.2.subrange(0, (r.end - r.start) as int) =~= bytes);
        lemma_read_completeness(content, r.end as nat, b);
        assert(delivered(content, offset, b) == bytes + delivered(content, r.end as nat, b));
        assert(delivered(content, offset, b) =~= content.subrange(offset as int, len as int));
    } else {
        assert(delivered(content, offset, b) =~= content.subrange(offset as int, len as int));
    }
}

/// At most one slice read is in flight: a poll asks the host for a read only
/// when none is in flight, and records that read as the one in flight; while
/// a read runs, polling again leaves the source as it was and asks for
/// nothing; and every poll keeps the source's invariant.
pub proof fn lemma_source_single_in_flight(v: SourceView, buf: Seq<u8>, reply: HostReply<Seq<u8>>)
    requires
        source_wf(v),
    ensures
        after_poll(v, buf, reply).1 matches ReadStep::Start(r) ==> v.pending is None
            && after_poll(v, buf, reply).0.pending == Some(r),
        v.pending is Some ==> after_poll(v, buf, reply).1 !is Start,
        v.pending is Some && reply is Running ==> after_poll(v, buf, reply) == (
        v,
        ReadStep::Suspended,
        buf,
        ),
        source_wf(after_poll(v, buf, reply).0),
{
}

/// A sized, randomly sliceable host resource read as a sequential stream.
///
/// Each poll either finishes from what the host delivered or starts at most
/// one slice read; re-polling while that read runs asks for nothing new.
pub struct ByteSource {
    size: u64,
    offset: u64,
    pending: PendingSlot<ReadRange>,
}

impl View for ByteSource {
    type V = SourceView;

    closed spec fn view(&self) -> SourceView {
        SourceView { size: self.size as nat, offset: self.offset as nat, pending: self.pending@ }
    }
}

impl ByteSource {
    pub open spec fn wf(&self) -> bool {
        source_wf(self@)
    }

    /// A source over a resource of `size` bytes, positioned at its start.
    pub fn new(size: u64) -> (s: Self)
        ensures
            s.wf(),
            s@ == (SourceView { size: size as nat, offset: 0, pending: None }),
    {
        ByteSource { size, offset: 0, pending: PendingSlot::new() }
    }

    /// The total size of the resource.
    pub fn size(&self) -> (r: u64)
        ensures
            r == self@.size,
    {
        self.size
    }

    /// The next unread position.
    pub fn offset(&self) -> (r: u64)
        ensures
            r == self@.offset,
    {
        self.offset
    }

    /// The range of the slice read in flight, if any.
    pub fn in_flight(&self) -> (r: Option<ReadRange>)
        ensures
            r == self@.pending,
    {
        match self.pending.peek() {
            Some(range) => Some(*range),
            None => None,
        }
    }

    /// Polls the source with the destination buffer `buf`.
    ///
    /// With no read in flight, it asks for the next `buf.len()` bytes (fewer
    /// at the end), or reports the end of the stream without asking the host
    /// when that range is empty. With a read in flight, `reply` says how it
    /// stands: running, it reports nothing ready; delivered with the length
    /// asked for, it copies what fits to the front of `buf` and advances the
    /// position by that much; rejected or delivered with another length, it
    /// reports a host-call error and the position stays.
    pub fn poll_read(&mut self, buf: &mut [u8], reply: HostReply<Vec<u8>>) -> (r: ReadStep)
        requires
            old(self).wf(),
        ensures
            final(self).wf(),
            (final(self)@, r, final(buf)@) == after_poll(old(self)@, old(buf)@, reply@),
    {
        if self.pending.is_empty() {
            let room = self.size - self.offset;
            let end = if (buf.len() as u64) < room {
                self.offset + buf.len() as u64
            } else {
                self.size
            };
            if end == self.offset {
                return ReadStep::Ready(0);
            }
            let range = ReadRange { start: self.offset, end };
            self.pending.submit(range);
            return ReadStep::Start(range);
        }
        match self.pending.poll(reply) {
            SlotPoll::Idle => ReadStep::Suspended,
            SlotPoll::Running => ReadStep::Suspended,
            SlotPoll::Rejected(_) => ReadStep::Failed(AdapterError::HostCall),
            SlotPoll::Fulfilled(range, bytes) => {
                if bytes.len() as u64 != range.end - range.start {
                    return ReadStep::Failed(AdapterError::HostCall);
                }
                let n: usize = if bytes.len() < buf.len() {
                    bytes.len()
                } else {
                    buf.len()
                };
                let ghost before = buf@;
                let mut i: usize = 0;
                while i < n
                    invariant
                        n <= bytes@.len(),
                        n <= buf@.len(),
                        buf@.len() == before.len(),
                        i <= n,
                        forall|j: int| 0 <= j < i ==> buf@[j] == bytes@[j],
                        forall|j: int| i <= j < buf@.len() ==> buf@[j] == before[j],
                    decreases n - i,
                {
                    buf[i] = bytes[i];
                    i = i + 1;
                }
                assert(buf@ =~= bytes@.subrange(0, n as int) + before.subrange(
                    n as int,
                    before.len() as int,
                ));
                self.offset = self.offset + n as u64;
                ReadStep::Ready(n)
            },
        }
    }
}

} // verus!
