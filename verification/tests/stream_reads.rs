use ktls::DrainPoll;
use ktls::LeftoverBuffer;
use ktls::ReadStep;
use ktls::drain_outcome;

/// Drives reads of `chunk` bytes each; buffered bytes land in `got`, and
/// once the buffer passes through, the raw bytes are appended, as the
/// post-handshake stream does with the kernel-decrypted handle.
fn read_all(buf: &mut LeftoverBuffer, chunk: usize, raw: &[u8], got: &mut Vec<u8>) {
    loop {
        match buf.next_read(chunk) {
            ReadStep::Buffered(b) => {
                assert!(!b.is_empty());
                got.extend_from_slice(&b);
            },
            ReadStep::Passthrough => {
                got.extend_from_slice(raw);
                return;
            },
        }
    }
}

#[test]
fn leftover_then_raw_in_order() {
    let leftover = vec![1u8, 2, 3, 4, 5, 6, 7];
    let raw = vec![8u8, 9, 10];
    for chunk in [1usize, 2, 3, 7, 100] {
        let mut buf = LeftoverBuffer::new(Some(leftover.clone()));
        let mut got = Vec::new();
        read_all(&mut buf, chunk, &raw, &mut got);
        assert_eq!(got, vec![1, 2, 3, 4, 5, 6, 7, 8, 9, 10]);
    }
}

#[test]
fn no_leftover_passes_straight_through() {
    let mut buf = LeftoverBuffer::new(None);
    assert!(buf.is_drained());
    assert_eq!(buf.next_read(100), ReadStep::Passthrough);
    let mut buf = LeftoverBuffer::new(Some(Vec::new()));
    assert_eq!(buf.next_read(1), ReadStep::Passthrough);
}

#[test]
fn transition_to_passthrough_is_one_way() {
    let mut buf = LeftoverBuffer::new(Some(vec![42u8]));
    assert!(!buf.is_drained());
    assert_eq!(buf.next_read(8), ReadStep::Buffered(vec![42u8]));
    assert!(buf.is_drained());
    for _ in 0..3 {
        assert_eq!(buf.next_read(8), ReadStep::Passthrough);
    }
}

#[test]
fn short_read_serves_exact_prefix() {
    let mut buf = LeftoverBuffer::new(Some(vec![10u8, 20, 30]));
    assert_eq!(buf.next_read(2), ReadStep::Buffered(vec![10u8, 20]));
    assert_eq!(buf.next_read(2), ReadStep::Buffered(vec![30u8]));
    assert_eq!(buf.next_read(2), ReadStep::Passthrough);
}

#[test]
fn zero_sized_read_takes_nothing() {
    let mut buf = LeftoverBuffer::new(Some(vec![5u8, 6]));
    assert_eq!(buf.next_read(0), ReadStep::Buffered(Vec::new()));
    assert_eq!(buf.next_read(4), ReadStep::Buffered(vec![5u8, 6]));
}

#[test]
fn drain_returns_exactly_the_ready_bytes() {
    let mut scratch = vec![0u8; 8];
    scratch[0] = 11;
    scratch[1] = 22;
    scratch[2] = 33;
    assert_eq!(drain_outcome(scratch, DrainPoll::Filled(3)), Some(vec![11u8, 22, 33]));
}

#[test]
fn drain_not_ready_yields_no_buffer() {
    assert_eq!(drain_outcome(vec![0u8; 8], DrainPoll::NotReady), None);
}

#[test]
fn drain_ready_with_nothing_yields_empty_buffer() {
    assert_eq!(drain_outcome(vec![0u8; 8], DrainPoll::Filled(0)), Some(Vec::new()));
}
