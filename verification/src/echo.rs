//! Echo workers of WebTransport sub-streams.
//!
//! A worker owns one stream (or one pair of stream halves) and is driven by
//! a script of stream operations. The scripts are computed here; whoever
//! holds the stream carries the operations out in order and stops at the
//! first one that fails.

use vstd::prelude::*;

verus! {

/// Bytes per chunk when a unidirectional stream is replayed.
pub const UNI_CHUNK_SIZE: usize = 64;

/// Milliseconds of delay in front of every replayed chunk.
pub const UNI_CHUNK_DELAY_MS: u64 = 10;

/// Capacity of the read buffer of a bidirectional echo worker.
pub const BIDI_READ_BUFFER: usize = 4096;

/// One operation on a stream.
#[derive(Clone, Debug, PartialEq, Eq)]
pub enum StreamOp {
    /// Write all of these bytes.
    Write(Vec<u8>),
    /// Flush what was written.
    Flush,
    /// Close the send side.
    Shutdown,
    /// Wait this many milliseconds.
    Sleep(u64),
    /// Read at most this many bytes, and ask for the next script with what came.
    Read(usize),
    /// Read until the peer closes its send side.
    ReadToEnd,
}

/// A stream operation with its payload as a sequence of bytes.
pub enum StreamOpView {
    Write(Seq<u8>),
    Flush,
    Shutdown,
    Sleep(u64),
    Read(usize),
    ReadToEnd,
}

impl View for StreamOp {
    type V = StreamOpView;

    open spec fn view(&self) -> StreamOpView {
        match self {
            StreamOp::Write(bytes) => StreamOpView::Write(bytes@),
            StreamOp::Flush => StreamOpView::Flush,
            StreamOp::Shutdown => StreamOpView::Shutdown,
            StreamOp::Sleep(millis) => StreamOpView::Sleep(*millis),
            StreamOp::Read(max) => StreamOpView::Read(*max),
            StreamOp::ReadToEnd => StreamOpView::ReadToEnd,
        }
    }
}

/// The views of a script's operations, in order.
pub open spec fn script_view(ops: Seq<StreamOp>) -> Seq<StreamOpView> {
    Seq::new(ops.len(), |i: int| ops[i]@)
}

/// What one read on a stream gave.
#[derive(Clone, Debug, PartialEq, Eq)]
pub enum ReadOutcome {
    /// The bytes that were read; none means that the peer closed its send side.
    Bytes(Vec<u8>),
    /// The read failed.
    Failed,
}

/// The tag written in front of every chunk echoed on a bidirectional stream: `[echo] `.
pub open spec fn echo_prefix() -> Seq<u8> {
    seq![91u8, 101u8, 99u8, 104u8, 111u8, 93u8, 32u8]
}

/// What is written back for one non-empty read on a bidirectional stream.
pub open spec fn bidi_reply_spec(data: Seq<u8>) -> Seq<u8> {
    echo_prefix() + data
}

fn copy_bytes(data: &[u8], from: usize, to: usize) -> (copy: Vec<u8>)
    requires
        from <= to <= data@.len(),
    ensures
        copy@ == data@.subrange(from as int, to as int),
{
    let mut copy: Vec<u8> = Vec::new();
    let mut i: usize = from;
    while i < to
        invariant
            from <= i <= to <= data@.len(),
            copy@ == data@.subrange(from as int, i as int),
        decreases to - i,
    {
        copy.push(data[i]);
        i += 1;
        assert(copy@ =~= data@.subrange(from as int, i as int));
    }
    copy
}

/// The tag as bytes.
pub fn echo_tag() -> (tag: Vec<u8>)
    ensures
        tag@ == echo_prefix(),
{
    let tag: Vec<u8> = vec![91u8, 101u8, 99u8, 104u8, 111u8, 93u8, 32u8];
    assert(tag@ =~= echo_prefix());
    tag
}

/// Builds the reply for one read of a bidirectional stream: the tag followed
/// by exactly the bytes that were read.
pub fn bidi_reply(data: &[u8]) -> (reply: Vec<u8>)
    ensures
        reply@ == bidi_reply_spec(data@),
{
    let mut reply = echo_tag();
    let mut i: usize = 0;
    while i < data.len()
        invariant
            i <= data@.len(),
            reply@ == echo_prefix() + data@.subrange(0, i as int),
        decreases data@.len() - i,
    {
        reply.push(data[i]);
        i += 1;
        assert(reply@ =~= echo_prefix() + data@.subrange(0, i as int));
    }
    assert(data@.subrange(0, i as int) =~= data@);
    reply
}

/// The script that answers one read on a bidirectional stream.
///
/// A non-empty read is answered by the tag and the bytes just read, flushed
/// at once, and followed by the next read. An empty read or a failed one
/// ends the worker: the script is empty.
pub open spec fn bidi_script(read: Option<Seq<u8>>) -> Seq<StreamOpView> {
    match read {
        Some(data) if data.len() > 0 => seq![
            StreamOpView::Write(echo_prefix()),
            StreamOpView::Write(data),
            StreamOpView::Flush,
            StreamOpView::Read(BIDI_READ_BUFFER),
        ],
        _ => Seq::empty(),
    }
}

impl ReadOutcome {
    /// The bytes read, or `None` for a failed read.
    pub open spec fn bytes(&self) -> Option<Seq<u8>> {
        match self {
            ReadOutcome::Bytes(data) => Some(data@),
            ReadOutcome::Failed => None,
        }
    }
}

/// The first script of a bidirectional echo worker: one read.
pub fn bidi_echo_start() -> (ops: Vec<StreamOp>)
    ensures
        script_view(ops@) == seq![StreamOpView::Read(BIDI_READ_BUFFER)],
{
    let ops: Vec<StreamOp> = vec![StreamOp::Read(BIDI_READ_BUFFER)];
    assert(script_view(ops@) =~= seq![StreamOpView::Read(BIDI_READ_BUFFER)]);
    ops
}

/// The script of a bidirectional echo worker after one read.
pub fn bidi_echo_ops(read: &ReadOutcome) -> (ops: Vec<StreamOp>)
    ensures
        script_view(ops@) == bidi_script(read.bytes()),
{
    let mut ops: Vec<StreamOp> = Vec::new();
    match read {
        ReadOutcome::Bytes(data) => {
            if data.len() > 0 {
                ops.push(StreamOp::Write(echo_tag()));
                ops.push(StreamOp::Write(copy_bytes(data.as_slice(), 0, data.len())));
                ops.push(StreamOp::Flush);
                ops.push(StreamOp::Read(BIDI_READ_BUFFER));
                assert(data@.subrange(0, data@.len() as int) =~= data@);
            }
        },
        ReadOutcome::Failed => {},
    }
    assert(script_view(ops@) =~= bidi_script(read.bytes()));
    ops
}

/// How many chunks a replay of `len` bytes takes.
pub open spec fn chunk_count(len: nat) -> nat {
    ((len + UNI_CHUNK_SIZE - 1) / (UNI_CHUNK_SIZE as int)) as nat
}

/// The `k`-th chunk of a replay of `data`.
pub open spec fn chunk_at(data: Seq<u8>, k: int) -> Seq<u8> {
    let end = if UNI_CHUNK_SIZE * (k + 1) <= data.len() {
        UNI_CHUNK_SIZE * (k + 1)
    } else {
        data.len() as int
    };
    data.subrange(UNI_CHUNK_SIZE * k, end)
}

/// The script that replays what a unidirectional stream delivered: the bytes
/// in order, cut into chunks, with a delay in front of every chunk.
pub open spec fn uni_script(data: Seq<u8>) -> Seq<StreamOpView> {
    Seq::new(
        2 * chunk_count(data.len()),
        |i: int|
            if i % 2 == 0 {
                StreamOpView::Sleep(UNI_CHUNK_DELAY_MS)
            } else {
                StreamOpView::Write(chunk_at(data, i / 2))
            },
    )
}

/// The first script of a unidirectional echo worker: read the stream to its end.
pub fn uni_echo_start() -> (ops: Vec<StreamOp>)
    ensures
        script_view(ops@) == seq![StreamOpView::ReadToEnd],
{
    let ops: Vec<StreamOp> = vec![StreamOp::ReadToEnd];
    assert(script_view(ops@) =~= seq![StreamOpView::ReadToEnd]);
    ops
}

/// The script of a unidirectional echo worker once the inbound stream has
/// been read to its end.
pub fn uni_echo_ops(received: &[u8]) -> (ops: Vec<StreamOp>)
    ensures
        script_view(ops@) == uni_script(received@),
{
    let mut ops: Vec<StreamOp> = Vec::new();
    let len = received.len();
    let mut start: usize = 0;
    let mut k: usize = 0;
    while start < len
        invariant
            len == received@.len(),
            start <= len,
            start < len ==> start == UNI_CHUNK_SIZE * k,
            start == len ==> k == chunk_count(len as nat),
            ops@.len() == 2 * k,
            forall|i: int| 0 <= i < ops@.len() ==> (#[trigger] ops@[i])@ == uni_script(received@)[i],
        decreases len - start,
    {
        let end: usize = if len - start >= UNI_CHUNK_SIZE {
            start + UNI_CHUNK_SIZE
        } else {
            len
        };
        let chunk = copy_bytes(received, start, end);
        assert(chunk@ == chunk_at(received@, k as int));
        assert(k < chunk_count(len as nat));
        ops.push(StreamOp::Sleep(UNI_CHUNK_DELAY_MS));
        ops.push(StreamOp::Write(chunk));
        start = end;
        k += 1;
    }
    assert(script_view(ops@) =~= uni_script(received@));
    ops
}

/// The script that follows the read of a unidirectional echo worker: the
/// replay of what was read, or nothing where the read failed.
pub open spec fn uni_script_after(read: Option<Seq<u8>>) -> Seq<StreamOpView> {
    match read {
        Some(data) => uni_script(data),
        None => Seq::empty(),
    }
}

/// The script of a unidirectional echo worker after its read.
pub fn uni_echo_after(read: &ReadOutcome) -> (ops: Vec<StreamOp>)
    ensures
        script_view(ops@) == uni_script_after(read.bytes()),
{
    match read {
        ReadOutcome::Bytes(received) => uni_echo_ops(received.as_slice()),
        ReadOutcome::Failed => {
            let ops: Vec<StreamOp> = Vec::new();
            assert(script_view(ops@) =~= Seq::<StreamOpView>::empty());
            ops
        },
    }
}

/// All the bytes that a script writes, in order.
pub open spec fn written(ops: Seq<StreamOpView>) -> Seq<u8>
    decreases ops.len(),
{
    if ops.len() == 0 {
        Seq::empty()
    } else {
        match ops.last() {
            StreamOpView::Write(bytes) => written(ops.drop_last()) + bytes,
            _ => written(ops.drop_last()),
        }
    }
}

/// The bytes that a script has written since its last flush.
pub open spec fn unflushed(ops: Seq<StreamOpView>) -> Seq<u8>
    decreases ops.len(),
{
    if ops.len() == 0 {
        Seq::empty()
    } else {
        match ops.last() {
            StreamOpView::Write(bytes) => unflushed(ops.drop_last()) + bytes,
            StreamOpView::Flush => Seq::empty(),
            _ => unflushed(ops.drop_last()),
        }
    }
}

/// The runs of bytes that a script hands to the peer, one for each flush:
/// what was written between the flush before and this one.
pub open spec fn flushed(ops: Seq<StreamOpView>) -> Seq<Seq<u8>>
    decreases ops.len(),
{
    if ops.len() == 0 {
        Seq::empty()
    } else {
        match ops.last() {
            StreamOpView::Flush => flushed(ops.drop_last()).push(unflushed(ops.drop_last())),
            _ => flushed(ops.drop_last()),
        }
    }
}

/// How one more operation changes what a script has written and flushed.
proof fn lemma_script_push(ops: Seq<StreamOpView>, op: StreamOpView)
    ensures
        written(ops.push(op)) == match op {
            StreamOpView::Write(bytes) => written(ops) + bytes,
            _ => written(ops),
        },
        unflushed(ops.push(op)) == match op {
            StreamOpView::Write(bytes) => unflushed(ops) + bytes,
            StreamOpView::Flush => Seq::empty(),
            _ => unflushed(ops),
        },
        flushed(ops.push(op)) == match op {
            StreamOpView::Flush => flushed(ops).push(unflushed(ops)),
            _ => flushed(ops),
        },
{
    assert(ops.push(op).drop_last() =~= ops);
}

/// Everything that a bidirectional echo worker does while the peer sends
/// the given non-empty reads one after the other.
pub open spec fn bidi_transcript(reads: Seq<Seq<u8>>) -> Seq<StreamOpView>
    decreases reads.len(),
{
    if reads.len() == 0 {
        seq![StreamOpView::Read(BIDI_READ_BUFFER)]
    } else {
        bidi_transcript(reads.drop_last()) + bidi_script(Some(reads.last()))
    }
}

/// Bidirectional echo: every non-empty read is answered by one flushed run
/// of its own, the tag followed by the bytes of that read. Reads are never
/// merged, and nothing stays unflushed.
pub proof fn lemma_bidi_echo_per_read(reads: Seq<Seq<u8>>)
    requires
        forall|i: int| 0 <= i < reads.len() ==> reads[i].len() > 0,
    ensures
        flushed(bidi_transcript(reads)) == Seq::new(
            reads.len(),
            |i: int| bidi_reply_spec(reads[i]),
        ),
        unflushed(bidi_transcript(reads)).len() == 0,
    decreases reads.len(),
{
    let replies = Seq::new(reads.len(), |i: int| bidi_reply_spec(reads[i]));
    if reads.len() == 0 {
        let none = Seq::<StreamOpView>::empty();
        lemma_script_push(none, StreamOpView::Read(BIDI_READ_BUFFER));
        assert(bidi_transcript(reads) =~= none.push(StreamOpView::Read(BIDI_READ_BUFFER)));
        assert(flushed(bidi_transcript(reads)) =~= replies);
    } else {
        let front = reads.drop_last();
        lemma_bidi_echo_per_read(front);
        let before = bidi_transcript(front);
        let a = before.push(StreamOpView::Write(echo_prefix()));
        let b = a.push(StreamOpView::Write(reads.last()));
        let c = b.push(StreamOpView::Flush);
        let d = c.push(StreamOpView::Read(BIDI_READ_BUFFER));
        assert(bidi_transcript(reads) =~= d);
        lemma_script_push(before, StreamOpView::Write(echo_prefix()));
        lemma_script_push(a, StreamOpView::Write(reads.last()));
        lemma_script_push(b, StreamOpView::Flush);
        lemma_script_push(c, StreamOpView::Read(BIDI_READ_BUFFER));
        assert(unflushed(b) =~= bidi_reply_spec(reads.last()));
        assert(flushed(d) =~= replies);
    }
}

/// The first `2 * k` operations of a replay write the first `k` chunks.
proof fn lemma_uni_prefix_written(data: Seq<u8>, k: nat)
    requires
        k <= chunk_count(data.len()),
    ensures
        written(uni_script(data).take(2 * (k as int))) == data.take(
            if UNI_CHUNK_SIZE * k <= data.len() {
                UNI_CHUNK_SIZE * k
            } else {
                data.len() as int
            },
        ),
    decreases k,
{
    let script = uni_script(data);
    if k == 0 {
        assert(written(script.take(0)) =~= data.take(0));
    } else {
        lemma_uni_prefix_written(data, (k - 1) as nat);
        let before = script.take(2 * (k - 1));
        let a = before.push(StreamOpView::Sleep(UNI_CHUNK_DELAY_MS));
        let b = a.push(StreamOpView::Write(chunk_at(data, k - 1)));
        assert(script.take(2 * (k as int)) =~= b);
        lemma_script_push(before, StreamOpView::Sleep(UNI_CHUNK_DELAY_MS));
        lemma_script_push(a, StreamOpView::Write(chunk_at(data, k - 1)));
        assert(written(b) =~= data.take(
            if UNI_CHUNK_SIZE * k <= data.len() {
                UNI_CHUNK_SIZE * k
            } else {
                data.len() as int
            },
        ));
    }
}

/// Unidirectional echo: the replay writes exactly the bytes received, in
/// order. Every chunk holds between one byte and the chunk size, every chunk
/// but the last is full, and a delay stands in front of every chunk.
pub proof fn lemma_uni_echo_restores(data: Seq<u8>)
    ensures
        written(uni_script(data)) == data,
        uni_script(data).len() == 2 * chunk_count(data.len()),
        forall|k: int|
            0 <= k < chunk_count(data.len()) ==> {
                &&& uni_script(data)[2 * k] == StreamOpView::Sleep(UNI_CHUNK_DELAY_MS)
                &&& uni_script(data)[2 * k + 1] == StreamOpView::Write(#[trigger] chunk_at(data, k))
                &&& 0 < chunk_at(data, k).len() <= UNI_CHUNK_SIZE
                &&& k + 1 < chunk_count(data.len()) ==> chunk_at(data, k).len() == UNI_CHUNK_SIZE
            },
{
    let n = chunk_count(data.len());
    lemma_uni_prefix_written(data, n);
    assert(uni_script(data).take(2 * (n as int)) =~= uni_script(data));
    assert(data.take(data.len() as int) =~= data);
}

} // verus!
