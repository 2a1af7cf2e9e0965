use wormhole_io::config::ClientConfig;
use wormhole_io::error::{AdapterError, Progress};
use wormhole_io::pending::{HostReply, PendingSlot, SlotPoll};
use wormhole_io::signal::NeverResolvingSignal;
use wormhole_io::sink::{ByteSink, WriteStep};
use wormhole_io::source::{ByteSource, ReadRange, ReadStep};

fn content(size: usize) -> Vec<u8> {
    (0..size).map(|i| (i * 7 + 3) as u8).collect()
}

/// Reads the whole source with buffers of `b` bytes, serving every slice read
/// from `data`. Returns the chunk sizes, the bytes read and the number of
/// slice reads started.
fn read_all(data: &[u8], b: usize, repolls: usize) -> (Vec<usize>, Vec<u8>, usize) {
    let mut source = ByteSource::new(data.len() as u64);
    let mut sizes = Vec::new();
    let mut out = Vec::new();
    let mut starts = 0;
    loop {
        let mut buf = vec![0xAAu8; b];
        let step = source.poll_read(&mut buf, HostReply::Running);
        let n = match step {
            ReadStep::Ready(n) => n,
            ReadStep::Start(r) => {
                starts += 1;
                for _ in 0..repolls {
                    assert_eq!(source.poll_read(&mut buf, HostReply::Running), ReadStep::Suspended);
                }
                let bytes = data[r.start as usize..r.end as usize].to_vec();
                match source.poll_read(&mut buf, HostReply::Fulfilled(bytes)) {
                    ReadStep::Ready(n) => n,
                    other => panic!("unexpected {:?}", other),
                }
            }
            other => panic!("unexpected {:?}", other),
        };
        sizes.push(n);
        out.extend_from_slice(&buf[..n]);
        if n == 0 {
            return (sizes, out, starts);
        }
    }
}

#[test]
fn source_size_ten_buffer_four() {
    let data = content(10);
    let (sizes, out, starts) = read_all(&data, 4, 0);
    assert_eq!(sizes, vec![4, 4, 2, 0]);
    assert_eq!(out, data);
    assert_eq!(starts, 3);
}

#[test]
fn read_completeness_over_buffer_sizes() {
    for size in [0usize, 1, 5, 10, 33] {
        let data = content(size);
        for b in 1..=40 {
            let (sizes, out, _) = read_all(&data, b, 0);
            assert_eq!(out, data);
            assert_eq!(*sizes.last().unwrap(), 0);
            assert_eq!(sizes.iter().sum::<usize>(), size);
        }
    }
}

#[test]
fn repolling_a_running_read_starts_nothing() {
    let data = content(10);
    let (sizes, out, starts) = read_all(&data, 3, 5);
    assert_eq!(sizes, vec![3, 3, 3, 1, 0]);
    assert_eq!(out, data);
    assert_eq!(starts, 4);
}

#[test]
fn first_poll_asks_for_first_range() {
    let mut source = ByteSource::new(10);
    let mut buf = [0u8; 4];
    let step = source.poll_read(&mut buf, HostReply::Running);
    assert_eq!(step, ReadStep::Start(ReadRange { start: 0, end: 4 }));
    assert_eq!(source.in_flight(), Some(ReadRange { start: 0, end: 4 }));
    assert_eq!(source.offset(), 0);
    assert_eq!(source.size(), 10);
}

#[test]
fn end_of_stream_asks_nothing_of_host() {
    let mut source = ByteSource::new(0);
    let mut buf = [9u8; 4];
    for _ in 0..3 {
        assert_eq!(source.poll_read(&mut buf, HostReply::Running), ReadStep::Ready(0));
        assert_eq!(source.in_flight(), None);
    }
    assert_eq!(buf, [9u8; 4]);
}

#[test]
fn empty_buffer_reads_zero_without_request() {
    let mut source = ByteSource::new(10);
    let mut buf: [u8; 0] = [];
    assert_eq!(source.poll_read(&mut buf, HostReply::Running), ReadStep::Ready(0));
    assert_eq!(source.in_flight(), None);
    assert_eq!(source.offset(), 0);
}

#[test]
fn rejected_slice_read_is_host_call_error() {
    let mut source = ByteSource::new(10);
    let mut buf = [0u8; 4];
    assert!(matches!(source.poll_read(&mut buf, HostReply::Running), ReadStep::Start(_)));
    let step = source.poll_read(&mut buf, HostReply::Rejected);
    assert_eq!(step, ReadStep::Failed(AdapterError::HostCall));
    assert_eq!(source.offset(), 0);
    assert_eq!(source.in_flight(), None);
    // the source is still usable: the next poll asks for the same range again
    let again = source.poll_read(&mut buf, HostReply::Running);
    assert_eq!(again, ReadStep::Start(ReadRange { start: 0, end: 4 }));
}

#[test]
fn wrong_length_answer_is_host_call_error() {
    let mut source = ByteSource::new(10);
    let mut buf = [0u8; 4];
    source.poll_read(&mut buf, HostReply::Running);
    let step = source.poll_read(&mut buf, HostReply::Fulfilled(vec![1, 2, 3]));
    assert_eq!(step, ReadStep::Failed(AdapterError::HostCall));
    assert_eq!(buf, [0u8; 4]);
    assert_eq!(source.offset(), 0);
}

#[test]
fn smaller_buffer_at_completion_copies_what_fits() {
    let mut source = ByteSource::new(10);
    let mut big = [0u8; 6];
    source.poll_read(&mut big, HostReply::Running);
    let mut small = [0u8; 2];
    let step = source.poll_read(&mut small, HostReply::Fulfilled(vec![10, 11, 12, 13, 14, 15]));
    assert_eq!(step, ReadStep::Ready(2));
    assert_eq!(small, [10, 11]);
    assert_eq!(source.offset(), 2);
    let next = source.poll_read(&mut big, HostReply::Running);
    assert_eq!(next, ReadStep::Start(ReadRange { start: 2, end: 8 }));
}

#[test]
fn copy_leaves_rest_of_buffer() {
    let mut source = ByteSource::new(3);
    let mut buf = [7u8; 5];
    assert_eq!(
        source.poll_read(&mut buf, HostReply::Running),
        ReadStep::Start(ReadRange { start: 0, end: 3 })
    );
    assert_eq!(source.poll_read(&mut buf, HostReply::Fulfilled(vec![1, 2, 3])), ReadStep::Ready(3));
    assert_eq!(buf, [1, 2, 3, 7, 7]);
}

#[test]
fn sink_five_bytes() {
    let mut sink = ByteSink::new(true).unwrap();
    let buf = [1u8, 2, 3, 4, 5];
    assert_eq!(sink.poll_write(&buf, HostReply::Running), WriteStep::Submit);
    assert_eq!(sink.in_flight(), Some(&vec![1u8, 2, 3, 4, 5]));
    assert_eq!(sink.poll_write(&buf, HostReply::Running), WriteStep::Suspended);
    assert_eq!(sink.poll_write(&buf, HostReply::Fulfilled(())), WriteStep::Ready(5));
    assert_eq!(sink.in_flight(), None);
}

#[test]
fn accepted_length_is_submitted_length() {
    let mut sink = ByteSink::new(true).unwrap();
    for len in [0usize, 1, 7, 64] {
        let buf = vec![3u8; len];
        assert_eq!(sink.poll_write(&buf, HostReply::Running), WriteStep::Submit);
        // the caller's later buffer does not change what was submitted
        let other = vec![0u8; len + 9];
        assert_eq!(sink.poll_write(&other, HostReply::Fulfilled(())), WriteStep::Ready(len));
    }
}

#[test]
fn snapshot_is_a_copy() {
    let mut sink = ByteSink::new(true).unwrap();
    let mut buf = vec![4u8, 5, 6];
    sink.poll_write(&buf, HostReply::Running);
    buf[0] = 0;
    assert_eq!(sink.in_flight(), Some(&vec![4u8, 5, 6]));
}

#[test]
fn rejected_write_is_host_call_error() {
    let mut sink = ByteSink::new(true).unwrap();
    let buf = [1u8, 2];
    sink.poll_write(&buf, HostReply::Running);
    assert_eq!(sink.poll_write(&buf, HostReply::Rejected), WriteStep::Failed(AdapterError::HostCall));
    assert_eq!(sink.in_flight(), None);
    assert_eq!(sink.poll_write(&buf, HostReply::Running), WriteStep::Submit);
}

#[test]
fn writer_without_write_is_configuration_error() {
    assert!(matches!(ByteSink::new(false), Err(AdapterError::Configuration)));
}

#[test]
fn flush_and_close_are_ready() {
    let sink = ByteSink::new(true).unwrap();
    assert_eq!(sink.poll_flush(), Progress::Ready(()));
    assert_eq!(sink.poll_close(), Progress::Ready(()));
}

#[test]
fn never_resolving_signal_stays_pending() {
    let mut signal = NeverResolvingSignal::new();
    for _ in 0..10_000 {
        assert_eq!(signal.poll(), Progress::Pending);
    }
}

#[test]
fn pending_slot_hands_back_once() {
    let mut slot: PendingSlot<u32> = PendingSlot::new();
    assert!(slot.is_empty());
    assert_eq!(slot.poll(HostReply::<&str>::Fulfilled("x")), SlotPoll::Idle);
    slot.submit(7);
    assert_eq!(slot.peek(), Some(&7));
    assert_eq!(slot.poll(HostReply::<&str>::Running), SlotPoll::Running);
    assert!(!slot.is_empty());
    assert_eq!(slot.poll(HostReply::Fulfilled("done")), SlotPoll::Fulfilled(7, "done"));
    assert!(slot.is_empty());
    assert_eq!(slot.poll(HostReply::Fulfilled("again")), SlotPoll::Idle);
    slot.submit(8);
    assert_eq!(slot.poll(HostReply::<&str>::Rejected), SlotPoll::Rejected(8));
    assert!(slot.is_empty());
}

#[test]
fn config_with_valid_endpoints() {
    let c = ClientConfig::client_init(
        "lothar.com/wormhole/text-or-file-xfer",
        "ws://relay.magic-wormhole.io:4000/v1",
        "tcp://transit.magic-wormhole.io:4001",
        2,
    )
    .unwrap();
    assert_eq!(c.appid, "lothar.com/wormhole/text-or-file-xfer");
    assert_eq!(c.rendezvous_url, "ws://relay.magic-wormhole.io:4000/v1");
    assert_eq!(c.transit_server_url, "tcp://transit.magic-wormhole.io:4001");
    assert_eq!(c.passphrase_component_len, 2);
}

#[test]
fn config_with_bad_transit_url() {
    let r = ClientConfig::client_init("app", "ws://relay.example:4000/v1", "not a url", 2);
    assert!(matches!(r, Err(AdapterError::Configuration)));
}

#[test]
fn config_with_bad_rendezvous_url() {
    let r = ClientConfig::client_init("app", "", "tcp://transit.example:4001", 2);
    assert!(matches!(r, Err(AdapterError::Configuration)));
}

#[test]
fn assemble_follows_the_checks() {
    assert!(ClientConfig::assemble("a", "r", "t", 3, true, true).is_ok());
    assert!(matches!(
        ClientConfig::assemble("a", "r", "t", 3, false, true),
        Err(AdapterError::Configuration)
    ));
    assert!(matches!(
        ClientConfig::assemble("a", "r", "t", 3, true, false),
        Err(AdapterError::Configuration)
    ));
}
