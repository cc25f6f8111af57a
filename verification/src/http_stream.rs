//! The prefetching byte source: a resource of known length, reachable only
//! through chunked range fetches, presented as an in-memory random-access
//! byte buffer.
//!
//! A background fetch loop (run by the embedder) pushes every byte of the
//! resource, in offset order, into a bounded channel. The consumer side owns
//! an append-only buffer of everything received so far and a cursor into it;
//! a read that needs bytes beyond the buffered frontier blocks on the channel
//! until the buffer has grown far enough.

use vstd::prelude::*;
use vstd::string::StringSliceAdditionalSpecFns;

use crate::errors::StreamError;

verus! {

/// Number of resource bytes requested by one ranged fetch.
pub const REQ_CHUNK_SIZE: usize = 64 * 1024;

/// Capacity of the bounded fetch channel, in items (one byte each). The
/// producer blocks once this many bytes are undelivered: flow control, not
/// storage.
pub const BUFFER_SIZE: usize = 4 * 1024 * 1024;

/// One item of the fetch channel: the next byte of the resource, in offset
/// order, or the single forwarded fetch fault after which nothing follows.
#[derive(Debug, Clone, PartialEq, Eq)]
pub enum FetchItem {
    Byte(u8),
    Failed(String),
}

#[verifier::external_type_specification]
#[verifier::external_body]
#[verifier::reject_recursive_types(T)]
pub struct ExReceiver<T>(std::sync::mpsc::Receiver<T>);

#[verifier::external_type_specification]
#[verifier::external_body]
#[verifier::reject_recursive_types(T)]
pub struct ExSyncSender<T>(std::sync::mpsc::SyncSender<T>);

/// Relies on std::sync::mpsc::Receiver::recv: blocks until an item arrives,
/// and yields None once every sender is gone and the channel is drained.
/// What arrives is decided by the fetch side, so nothing is promised of it.
#[verifier::external_body]
fn recv_item(rx: &std::sync::mpsc::Receiver<FetchItem>) -> Option<FetchItem> {
    rx.recv().ok()
}

/// Relies on std::sync::mpsc::SyncSender::send: blocks while the channel is
/// full, delivers items in send order, and fails exactly when the receiving
/// end has been dropped. Whether that has happened is decided by the
/// consumer, so nothing is promised of the result.
#[verifier::external_body]
fn send_item(tx: &std::sync::mpsc::SyncSender<FetchItem>, item: FetchItem) -> bool {
    tx.send(item).is_ok()
}

/// How many bytes a read request for `want` bytes yields at cursor
/// `progress` of a resource of `len` bytes: everything up to the end of the
/// resource, and nothing at all once the cursor sits at the end.
pub open spec fn read_size(len: int, progress: int, want: int) -> int {
    if progress >= len {
        0
    } else if progress + want <= len {
        want
    } else {
        len - progress
    }
}

/// A nonempty run of ASCII decimal digits.
pub open spec fn spec_all_digits(s: Seq<u8>) -> bool {
    s.len() > 0 && forall|i: int| 0 <= i < s.len() ==> 48 <= #[trigger] s[i] <= 57
}

/// The number a run of ASCII decimal digits denotes.
pub open spec fn spec_decimal_value(s: Seq<u8>) -> int
    decreases s.len(),
{
    if s.len() == 0 {
        0
    } else {
        spec_decimal_value(s.drop_last()) * 10 + (s.last() - 48)
    }
}

/// A digit run denotes a nonnegative number.
proof fn lemma_decimal_nonneg(s: Seq<u8>)
    requires
        forall|i: int| 0 <= i < s.len() ==> 48 <= #[trigger] s[i] <= 57,
    ensures
        spec_decimal_value(s) >= 0,
    decreases s.len(),
{
    if s.len() > 0 {
        lemma_decimal_nonneg(s.drop_last());
    }
}

/// Reading further digits never shrinks the denoted number: every prefix
/// denotes at most what the whole run denotes.
proof fn lemma_decimal_prefix_bound(s: Seq<u8>, i: int)
    requires
        forall|j: int| 0 <= j < s.len() ==> 48 <= #[trigger] s[j] <= 57,
        0 <= i <= s.len(),
    ensures
        spec_decimal_value(s.take(i)) <= spec_decimal_value(s),
    decreases s.len() - i,
{
    if i == s.len() {
        assert(s.take(i) =~= s);
    } else {
        assert(s.take(i + 1).drop_last() =~= s.take(i));
        assert(s.take(i + 1).last() == s[i]);
        assert(forall|j: int| 0 <= j < i ==> 48 <= #[trigger] s.take(i)[j] <= 57);
        lemma_decimal_nonneg(s.take(i));
        assert(spec_decimal_value(s.take(i + 1)) == spec_decimal_value(s.take(i)) * 10 + (s[i]
            - 48));
        lemma_decimal_prefix_bound(s, i + 1);
    }
}

/// Parse a `Content-Length` header value: the denoted byte count when the
/// text is a nonempty run of decimal digits whose value fits, and nothing
/// otherwise — on which stream construction fails with its
/// "length unknown" condition.
pub fn parse_content_length(s: &str) -> (r: Option<u64>)
    ensures
        match r {
            Some(n) => spec_all_digits(s.spec_bytes()) && n == spec_decimal_value(s.spec_bytes()),
            None => !spec_all_digits(s.spec_bytes()) || spec_decimal_value(s.spec_bytes())
                > u64::MAX,
        },
{
    let bytes = s.as_bytes();
    if bytes.len() == 0 {
        return None;
    }
    let mut acc: u128 = 0;
    let mut i: usize = 0;
    while i < bytes.len()
        invariant
            0 < bytes@.len(),
            i <= bytes@.len(),
            bytes@ == s.spec_bytes(),
            forall|j: int| 0 <= j < i ==> 48 <= #[trigger] bytes@[j] <= 57,
            acc == spec_decimal_value(bytes@.take(i as int)),
            acc <= u64::MAX,
        decreases bytes@.len() - i,
    {
        let b = bytes[i];
        if b < 48 || b > 57 {
            return None;
        }
        let d = (b - 48) as u128;
        acc = acc * 10 + d;
        proof {
            assert(bytes@.take(i + 1).drop_last() =~= bytes@.take(i as int));
            assert(bytes@.take(i + 1).last() == bytes@[i as int]);
        }
        i += 1;
        if acc > u64::MAX as u128 {
            proof {
                if spec_all_digits(bytes@) {
                    lemma_decimal_prefix_bound(bytes@, i as int);
                }
            }
            return None;
        }
    }
    proof {
        assert(bytes@.take(i as int) =~= bytes@);
    }
    Some(acc as u64)
}

/// The consumer side of the prefetching byte source.
///
/// `buffer` accumulates every byte received from the fetch channel and never
/// shrinks, so each resource offset is fetched at most once and backward
/// seeks are served from memory. `progress` is the read cursor; it may point
/// ahead of the buffered frontier, in which case the next read blocks until
/// the buffer has grown past the region it needs.
pub struct HttpStream {
    /// Total length of the resource in bytes, fixed at construction.
    pub len: usize,
    /// Read cursor: the resource offset the next read starts at.
    pub progress: usize,
    /// Everything received so far; always a prefix of what the fetch side
    /// sends, which arrives in resource-offset order.
    pub buffer: Vec<u8>,
    /// Receiving end of the fetch channel; opaque, consumed only by `read`.
    pub rx: std::sync::mpsc::Receiver<FetchItem>,
}

/// Where a seek points: an absolute offset, an offset from the read cursor,
/// or an offset from the end of the resource.
#[derive(Debug, Clone, Copy, PartialEq, Eq)]
pub enum SeekTarget {
    Start(u64),
    Current(i64),
    End(i64),
}

/// The absolute position a seek target resolves to, before validation.
pub open spec fn seek_target_pos(len: int, progress: int, target: SeekTarget) -> int {
    match target {
        SeekTarget::Start(offset) => offset as int,
        SeekTarget::Current(offset) => progress + offset as int,
        SeekTarget::End(offset) => len + offset as int,
    }
}

impl HttpStream {
    /// The cursor never passes the end, and the buffer never holds more than
    /// the resource.
    pub open spec fn wf(&self) -> bool {
        &&& self.progress <= self.len
        &&& self.buffer@.len() <= self.len
    }

    /// Assemble the consumer side over the receiving end of a fetch channel,
    /// for a resource of `len` bytes.
    pub fn from_parts(len: usize, rx: std::sync::mpsc::Receiver<FetchItem>) -> (s: Self)
        ensures
            s.wf(),
            s.len == len,
            s.progress == 0,
            s.buffer@ == Seq::<u8>::empty(),
    {
        HttpStream { len, progress: 0, buffer: Vec::new(), rx }
    }

    /// Total length of the resource in bytes.
    pub fn byte_len(&self) -> (r: usize)
        ensures
            r == self.len,
    {
        self.len
    }

    /// Read up to `want` bytes at the cursor, blocking on the fetch channel
    /// until the buffer covers the requested region. At the end of the
    /// resource this is a no-op yielding zero bytes and no error. A read the
    /// buffer already covers succeeds without touching the channel — this is
    /// why a caller that never reads past the point of a fetch failure never
    /// observes it. A forwarded fetch fault is surfaced as `Transport`; a
    /// fetch side gone before delivering the needed bytes as `Disconnected`.
    /// The buffer only ever grows, and a successful read returns exactly the
    /// buffered bytes at the cursor.
    pub fn read(&mut self, want: usize) -> (r: Result<Vec<u8>, StreamError>)
        requires
            old(self).wf(),
        ensures
            final(self).wf(),
            final(self).len == old(self).len,
            old(self).buffer@.is_prefix_of(final(self).buffer@),
            old(self).progress == old(self).len ==> {
                &&& r matches Ok(out) && out@.len() == 0
                &&& final(self).buffer == old(self).buffer
            },
            (old(self).progress < old(self).len && old(self).buffer@.len() >= vstd::math::min(
                old(self).progress + want,
                old(self).len as int,
            )) ==> r is Ok,
            match r {
                Ok(out) => {
                    &&& out@.len() == read_size(
                        old(self).len as int,
                        old(self).progress as int,
                        want as int,
                    )
                    &&& final(self).progress == old(self).progress + out@.len()
                    &&& out@.len() > 0 ==> {
                        &&& final(self).buffer@.len() >= final(self).progress
                        &&& out@ == final(self).buffer@.subrange(
                            old(self).progress as int,
                            old(self).progress + out@.len(),
                        )
                    }
                },
                Err(e) => {
                    &&& final(self).progress == old(self).progress
                    &&& !(e is InvalidPosition)
                },
            },
    {
        let mut out: Vec<u8> = Vec::new();
        if self.progress >= self.len {
            return Ok(out);
        }
        let remaining = self.len - self.progress;
        let read_end = if want <= remaining {
            self.progress + want
        } else {
            self.len
        };
        if self.buffer.len() < read_end {
            while self.buffer.len() < read_end
                invariant
                    self.wf(),
                    read_end <= self.len,
                    self.len == old(self).len,
                    self.progress == old(self).progress,
                    old(self).progress < old(self).len,
                    old(self).buffer@.len() < read_end,
                    read_end == vstd::math::min(
                        old(self).progress + want,
                        old(self).len as int,
                    ),
                    old(self).buffer@.is_prefix_of(self.buffer@),
                decreases read_end - self.buffer@.len(),
            {
                match recv_item(&self.rx) {
                    Some(FetchItem::Byte(b)) => {
                        self.buffer.push(b);
                    }
                    Some(FetchItem::Failed(msg)) => {
                        return Err(StreamError::Transport(msg));
                    }
                    None => {
                        return Err(StreamError::Disconnected);
                    }
                }
            }
        }
        let mut i: usize = self.progress;
        while i < read_end
            invariant
                self.wf(),
                self.progress <= i <= read_end <= self.buffer@.len(),
                self.len == old(self).len,
                self.progress == old(self).progress,
                old(self).buffer@.is_prefix_of(self.buffer@),
                out@ == self.buffer@.subrange(self.progress as int, i as int),
            decreases read_end - i,
        {
            let b = self.buffer[i];
            out.push(b);
            proof {
                assert(self.buffer@.subrange(self.progress as int, i + 1) =~= self.buffer@
                    .subrange(self.progress as int, i as int).push(self.buffer@[i as int]));
            }
            i += 1;
        }
        self.progress = read_end;
        Ok(out)
    }

    /// Sample the first `n` bytes of the resource without consuming them:
    /// read from offset zero, then rewind. This is the probe pattern format
    /// detection needs — the sampled prefix is buffered, the cursor ends
    /// back at the start, and a following read sees the same bytes again.
    /// An empty resource probes successfully (to nothing), and so does any
    /// probe the buffer already covers.
    pub fn probe_prefix(&mut self, n: usize) -> (r: Result<Vec<u8>, StreamError>)
        requires
            old(self).wf(),
            old(self).progress == 0,
        ensures
            final(self).wf(),
            final(self).len == old(self).len,
            final(self).progress == 0,
            old(self).buffer@.is_prefix_of(final(self).buffer@),
            old(self).len == 0 ==> (r is Ok && final(self).buffer == old(self).buffer),
            (old(self).len > 0 && old(self).buffer@.len() >= vstd::math::min(
                n as int,
                old(self).len as int,
            )) ==> r is Ok,
            match r {
                Ok(out) => {
                    &&& out@.len() == read_size(old(self).len as int, 0, n as int)
                    &&& out@.len() > 0 ==> {
                        &&& final(self).buffer@.len() >= out@.len()
                        &&& out@ == final(self).buffer@.subrange(0, out@.len() as int)
                    }
                },
                Err(e) => !(e is InvalidPosition),
            },
    {
        let out = match self.read(n) {
            Ok(out) => out,
            Err(e) => {
                return Err(e);
            }
        };
        self.progress = 0;
        Ok(out)
    }

    /// Resolve `target` to an absolute position and move the cursor there.
    /// A position outside the resource is an input error and leaves the
    /// cursor where it was; seeking never fetches and never reorders what is
    /// already buffered.
    pub fn seek(&mut self, target: SeekTarget) -> (r: Result<u64, StreamError>)
        requires
            old(self).wf(),
        ensures
            final(self).wf(),
            final(self).len == old(self).len,
            final(self).buffer == old(self).buffer,
            ({
                let pos = seek_target_pos(
                    old(self).len as int,
                    old(self).progress as int,
                    target,
                );
                if 0 <= pos < old(self).len {
                    &&& r matches Ok(p) && p == pos
                    &&& final(self).progress == pos
                } else {
                    &&& r == Err::<u64, StreamError>(StreamError::InvalidPosition)
                    &&& final(self).progress == old(self).progress
                }
            }),
    {
        let pos: i128 = match target {
            SeekTarget::Start(offset) => offset as i128,
            SeekTarget::Current(offset) => self.progress as i128 + offset as i128,
            SeekTarget::End(offset) => self.len as i128 + offset as i128,
        };
        if pos < 0 || pos >= self.len as i128 {
            return Err(StreamError::InvalidPosition);
        }
        self.progress = pos as usize;
        Ok(pos as u64)
    }

    /// Place the cursor at the very end of the resource, where a read
    /// yields zero bytes. No byte lies at this position, so `seek` rejects
    /// it as out of range; byte-stream conventions nevertheless address it,
    /// and an embedder adapting this source to such an interface moves the
    /// cursor here through this operation. Nothing is fetched and nothing
    /// already buffered changes.
    pub fn seek_to_end(&mut self) -> (r: usize)
        requires
            old(self).wf(),
        ensures
            final(self).wf(),
            final(self).len == old(self).len,
            final(self).buffer == old(self).buffer,
            final(self).progress == old(self).len,
            r == old(self).len,
    {
        self.progress = self.len;
        self.len
    }
}

/// Reading a region the buffer covers yields exactly the reference resource's
/// bytes there, whenever everything buffered so far is a prefix of the
/// reference copy. Together with `read`'s contract — which obliges success
/// outright on a covered request — this says: a read of `k` bytes from
/// offset 0 returns the resource's first `k` bytes, and a read after a seek
/// returns the resource sliced at the seek position, no matter which parts
/// had been fetched before.
pub proof fn lemma_read_matches_reference(resource: Seq<u8>, buffer: Seq<u8>, start: int, end: int)
    requires
        buffer.is_prefix_of(resource),
        0 <= start <= end <= buffer.len(),
    ensures
        buffer.subrange(start, end) == resource.subrange(start, end),
{
    assert(buffer.subrange(start, end) =~= resource.subrange(start, end));
}

/// A read of `k` bytes from offset zero of a resource of `len` bytes asks
/// for exactly `k` bytes whenever `k <= len`, and — once the buffer covers
/// them — must succeed, returning the reference resource's first `k`
/// bytes, by `read`'s covered-success clause and
/// `lemma_read_matches_reference`.
pub proof fn lemma_initial_read_exact(resource: Seq<u8>, buffer: Seq<u8>, k: int)
    requires
        0 <= k <= resource.len(),
        buffer.is_prefix_of(resource),
        k <= buffer.len(),
    ensures
        read_size(resource.len() as int, 0, k) == k,
        buffer.subrange(0, k) == resource.subrange(0, k),
{
    lemma_read_matches_reference(resource, buffer, 0, k);
}

/// Reading at or past the end of the resource asks for nothing: the request
/// size resolves to zero bytes, and `read`'s contract turns that into an
/// empty success, never an error.
pub proof fn lemma_read_past_end_is_empty(len: int, progress: int, want: int)
    requires
        progress >= len,
    ensures
        read_size(len, progress, want) == 0,
{
}

/// The fetch side of the prefetching byte source: which range to request
/// next, and how its state advances on each outcome.
pub struct ProducerState {
    /// Resource offset up to which everything has been fetched and handed to
    /// the channel.
    pub progress: usize,
    /// Total length of the resource in bytes.
    pub len: usize,
}

/// What one fetch iteration came to: a chunk of so many bytes fetched and
/// delivered, a transport fault (forwarded once, then the loop ends), or a
/// send that failed because the consumer dropped its end.
#[derive(Debug, Clone, Copy, PartialEq, Eq)]
pub enum FetchEvent {
    Delivered(usize),
    TransportFailed,
    ReceiverGone,
}

/// Whether the fetch loop goes on after `event`: only a delivered chunk
/// does; a fault or a vanished consumer ends it at once.
pub open spec fn fetch_continues(event: FetchEvent) -> bool {
    event is Delivered
}

/// The fetch offset after `event`, clamped to the end of the resource.
pub open spec fn next_progress(progress: int, len: int, event: FetchEvent) -> int {
    match event {
        FetchEvent::Delivered(n) => vstd::math::min(progress + n, len),
        _ => progress,
    }
}

impl ProducerState {
    pub open spec fn wf(&self) -> bool {
        self.progress <= self.len
    }

    /// A fresh fetch loop for a resource of `len` bytes, starting at offset
    /// zero.
    pub fn new(len: usize) -> (s: Self)
        ensures
            s.wf(),
            s.len == len,
            s.progress == 0,
    {
        ProducerState { progress: 0, len }
    }

    /// The next range to fetch, `[start, end)` with `end` exclusive: one
    /// chunk from the current offset, cut short at the end of the resource.
    /// None once everything has been fetched.
    pub fn next_range(&self) -> (r: Option<(usize, usize)>)
        requires
            self.wf(),
        ensures
            match r {
                Some(range) => {
                    &&& range.0 == self.progress
                    &&& range.1 == vstd::math::min(
                        self.progress + REQ_CHUNK_SIZE,
                        self.len as int,
                    )
                    &&& range.0 < range.1
                },
                None => self.progress == self.len,
            },
    {
        if self.progress >= self.len {
            return None;
        }
        let remaining = self.len - self.progress;
        let end = if REQ_CHUNK_SIZE <= remaining {
            self.progress + REQ_CHUNK_SIZE
        } else {
            self.len
        };
        Some((self.progress, end))
    }

    /// Advance the fetch state by one iteration's outcome and decide whether
    /// the loop goes on. A delivered chunk moves the offset forward (never
    /// past the end); a transport fault or a vanished consumer stops the
    /// loop with the offset unchanged.
    pub fn advance(&mut self, event: FetchEvent) -> (cont: bool)
        requires
            old(self).wf(),
        ensures
            final(self).wf(),
            final(self).len == old(self).len,
            cont == fetch_continues(event),
            final(self).progress == next_progress(
                old(self).progress as int,
                old(self).len as int,
                event,
            ),
    {
        match event {
            FetchEvent::Delivered(n) => {
                let room = self.len - self.progress;
                if n < room {
                    self.progress = self.progress + n;
                } else {
                    self.progress = self.len;
                }
                true
            }
            FetchEvent::TransportFailed => false,
            FetchEvent::ReceiverGone => false,
        }
    }
}

/// Hand one fetched chunk to the channel, byte by byte, in offset order.
/// Some(n) says all n bytes of the chunk went out; None says a send failed
/// because the consumer dropped its end, and no further byte was sent.
pub fn deliver_chunk(
    tx: &std::sync::mpsc::SyncSender<FetchItem>,
    bytes: &Vec<u8>,
) -> (r: Option<usize>)
    ensures
        r matches Some(n) ==> n == bytes@.len(),
{
    let mut i: usize = 0;
    while i < bytes.len()
        invariant
            i <= bytes@.len(),
        decreases bytes@.len() - i,
    {
        let b = bytes[i];
        if !send_item(tx, FetchItem::Byte(b)) {
            return None;
        }
        i += 1;
    }
    Some(bytes.len())
}

/// Forward a transport fault to the consumer, exactly once, as the last item
/// the fetch loop ever sends. The result says whether the consumer was still
/// there to receive it.
pub fn forward_fault(tx: &std::sync::mpsc::SyncSender<FetchItem>, msg: String) -> bool {
    send_item(tx, FetchItem::Failed(msg))
}

/// Once the consumer has dropped its end (a send fails) or a fetch has
/// faulted, the loop's decision is to stop: the fetch side never spins on a
/// gone consumer, and never sends past a forwarded fault.
pub proof fn lemma_stop_events_end_fetching(event: FetchEvent)
    requires
        !(event is Delivered),
    ensures
        !fetch_continues(event),
{
}

/// Every nonempty delivered chunk strictly shrinks what is left to fetch, so
/// the loop runs at most `len` delivering iterations before `next_range`
/// reports completion: the fetch loop is bounded.
pub proof fn lemma_delivery_shrinks_remainder(progress: int, len: int, n: usize)
    requires
        0 <= progress < len,
        n > 0,
    ensures
        len - next_progress(progress, len, FetchEvent::Delivered(n)) < len - progress,
        next_progress(progress, len, FetchEvent::Delivered(n)) <= len,
{
}

} // verus!
