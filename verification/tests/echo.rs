use simple_http3::echo::{
    bidi_echo_ops, bidi_echo_start, bidi_reply, echo_tag, uni_echo_after, uni_echo_ops,
    uni_echo_start,
    ReadOutcome, StreamOp, BIDI_READ_BUFFER, UNI_CHUNK_DELAY_MS, UNI_CHUNK_SIZE,
};

fn written(ops: &[StreamOp]) -> Vec<u8> {
    let mut bytes = Vec::new();
    for op in ops {
        if let StreamOp::Write(chunk) = op {
            bytes.extend_from_slice(chunk);
        }
    }
    bytes
}

fn chunks(ops: &[StreamOp]) -> Vec<Vec<u8>> {
    let mut found = Vec::new();
    for op in ops {
        if let StreamOp::Write(chunk) = op {
            found.push(chunk.clone());
        }
    }
    found
}

#[test]
fn echo_constants() {
    assert_eq!(UNI_CHUNK_SIZE, 64);
    assert_eq!(UNI_CHUNK_DELAY_MS, 10);
    assert_eq!(BIDI_READ_BUFFER, 4096);
}

#[test]
fn tag_is_the_literal_prefix() {
    assert_eq!(echo_tag(), b"[echo] ".to_vec());
}

#[test]
fn bidi_reply_prefixes_the_bytes() {
    assert_eq!(bidi_reply(b"hello"), b"[echo] hello".to_vec());
    assert_eq!(bidi_reply(b""), b"[echo] ".to_vec());
    assert_eq!(bidi_reply(&[0, 255, 10]), vec![91, 101, 99, 104, 111, 93, 32, 0, 255, 10]);
}

#[test]
fn bidi_worker_starts_with_a_read() {
    assert_eq!(bidi_echo_start(), vec![StreamOp::Read(4096)]);
}

#[test]
fn bidi_read_is_answered_and_flushed() {
    let ops = bidi_echo_ops(&ReadOutcome::Bytes(b"ping".to_vec()));
    assert_eq!(
        ops,
        vec![
            StreamOp::Write(b"[echo] ".to_vec()),
            StreamOp::Write(b"ping".to_vec()),
            StreamOp::Flush,
            StreamOp::Read(4096),
        ]
    );
}

#[test]
fn bidi_reads_are_not_coalesced() {
    let mut replies: Vec<Vec<u8>> = Vec::new();
    for read in [b"one".to_vec(), b"two".to_vec(), b"three".to_vec()] {
        let ops = bidi_echo_ops(&ReadOutcome::Bytes(read));
        assert_eq!(ops.iter().filter(|op| **op == StreamOp::Flush).count(), 1);
        assert_eq!(ops[2], StreamOp::Flush);
        replies.push(written(&ops));
    }
    assert_eq!(
        replies,
        vec![b"[echo] one".to_vec(), b"[echo] two".to_vec(), b"[echo] three".to_vec()]
    );
}

#[test]
fn bidi_worker_ends_on_empty_read() {
    assert_eq!(bidi_echo_ops(&ReadOutcome::Bytes(Vec::new())), Vec::new());
}

#[test]
fn bidi_worker_ends_on_failed_read() {
    assert_eq!(bidi_echo_ops(&ReadOutcome::Failed), Vec::new());
}

#[test]
fn bidi_echoes_a_full_buffer() {
    let data = vec![7u8; 4096];
    let ops = bidi_echo_ops(&ReadOutcome::Bytes(data.clone()));
    assert_eq!(ops.len(), 4);
    assert_eq!(ops[1], StreamOp::Write(data));
}

#[test]
fn uni_worker_starts_by_reading_to_the_end() {
    assert_eq!(uni_echo_start(), vec![StreamOp::ReadToEnd]);
}

#[test]
fn uni_echo_of_nothing_writes_nothing() {
    assert_eq!(uni_echo_ops(b""), Vec::new());
}

#[test]
fn uni_echo_of_a_short_message() {
    assert_eq!(
        uni_echo_ops(b"hello"),
        vec![StreamOp::Sleep(10), StreamOp::Write(b"hello".to_vec())]
    );
}

#[test]
fn uni_echo_of_exactly_one_chunk() {
    let data: Vec<u8> = (0..64).collect();
    assert_eq!(uni_echo_ops(&data), vec![StreamOp::Sleep(10), StreamOp::Write(data.clone())]);
}

#[test]
fn uni_echo_of_one_byte_more_than_a_chunk() {
    let data: Vec<u8> = (0..65).collect();
    assert_eq!(
        uni_echo_ops(&data),
        vec![
            StreamOp::Sleep(10),
            StreamOp::Write(data[..64].to_vec()),
            StreamOp::Sleep(10),
            StreamOp::Write(vec![64]),
        ]
    );
}

#[test]
fn uni_echo_of_two_full_chunks() {
    let data: Vec<u8> = (0..128).collect();
    assert_eq!(
        uni_echo_ops(&data),
        vec![
            StreamOp::Sleep(10),
            StreamOp::Write(data[..64].to_vec()),
            StreamOp::Sleep(10),
            StreamOp::Write(data[64..].to_vec()),
        ]
    );
}

#[test]
fn uni_echo_restores_the_bytes_in_order() {
    for len in [0usize, 1, 63, 64, 65, 127, 128, 129, 200, 1000, 4097] {
        let data: Vec<u8> = (0..len).map(|i| (i * 7 % 251) as u8).collect();
        let ops = uni_echo_ops(&data);
        assert_eq!(written(&ops), data);
        let found = chunks(&ops);
        assert_eq!(found.len(), (len + 63) / 64);
        assert_eq!(ops.len(), 2 * found.len());
        for (k, chunk) in found.iter().enumerate() {
            assert!(!chunk.is_empty());
            assert!(chunk.len() <= 64);
            if k + 1 < found.len() {
                assert_eq!(chunk.len(), 64);
            }
            assert_eq!(ops[2 * k], StreamOp::Sleep(10));
        }
    }
}

#[test]
fn uni_worker_replays_what_it_read() {
    let data: Vec<u8> = (0..70).collect();
    assert_eq!(uni_echo_after(&ReadOutcome::Bytes(data.clone())), uni_echo_ops(&data));
    assert_eq!(
        uni_echo_after(&ReadOutcome::Bytes(b"hi".to_vec())),
        vec![StreamOp::Sleep(10), StreamOp::Write(b"hi".to_vec())]
    );
    assert_eq!(uni_echo_after(&ReadOutcome::Bytes(Vec::new())), Vec::new());
}

#[test]
fn uni_worker_ends_on_failed_read() {
    assert_eq!(uni_echo_after(&ReadOutcome::Failed), Vec::new());
}
