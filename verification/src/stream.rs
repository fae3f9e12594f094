//! The streaming verifier: reads content against its detached hash tree and
//! the expected root hash, hands out only bytes that were checked, and says
//! which progress events are due.

use crate::progress::Progress;
use abao::decode::Decoder;
use std::io::{Cursor, ErrorKind, Read};
use vstd::prelude::*;

verus! {

/// The hash-tree library's incremental decoder, bound to content and tree
/// that are held in memory.
#[verifier::external_body]
pub struct MemoryDecoder {
    inner: Decoder<Cursor<Vec<u8>>, Cursor<Vec<u8>>>,
}

/// A progress event.
#[derive(Debug, Clone, Copy, PartialEq, Eq, Structural)]
pub enum ProgressReaderUpdate {
    /// This many bytes are confirmed since the start of the stream.
    Progress(u64),
    /// The stream is finished: exhausted, failed or abandoned.
    Done,
}

/// How the source failed to give the next checked bytes.
#[derive(Debug, Clone, Copy, PartialEq, Eq, Structural)]
pub enum ReadFailure {
    /// Content or tree does not hash to what the tree predicts.
    HashMismatch,
    /// Content or tree ends before the length that the tree declares.
    Truncated,
    /// The source could not be read.
    Io,
}

/// Why validation stopped.
#[derive(Debug, Clone, Copy, PartialEq, Eq, Structural)]
pub enum BaoValidationError {
    /// The data could not be read. The caller may try again.
    IoError,
    /// The content is not what its hash claims. Nothing read from this
    /// stream is to be trusted.
    VerificationError,
}

/// Where a stream stands.
#[derive(Debug, Clone, Copy, PartialEq, Eq, Structural)]
pub enum Phase {
    /// Opened, nothing read yet.
    Unopened,
    /// Some bytes were handed out and more may follow.
    Reading,
    /// All content was handed out and the whole chain matched the root.
    Exhausted,
    /// A read failed.
    Failed(BaoValidationError),
}

/// Phase and confirmed byte count of a stream.
#[derive(Debug, Clone, Copy, PartialEq, Eq, Structural)]
pub struct ReaderState {
    pub phase: Phase,
    pub offset: u64,
}

/// What one read comes to: its result, and the events that are now due.
#[derive(Debug, Clone, Copy, PartialEq, Eq)]
pub struct ReadStep {
    /// Bytes handed out (0 at the clean end of the stream), or the failure.
    pub result: Result<usize, BaoValidationError>,
    /// The progress event to offer to the consumer without waiting, if the
    /// read advanced the stream.
    pub update: Option<ProgressReaderUpdate>,
    /// Whether `Done` is due, to be delivered without loss: true on the read
    /// that ends the stream, and on no other.
    pub done: bool,
}

/// The error reported for a failed read. A mismatch and a truncation both
/// mean that the content is not what was claimed.
pub open spec fn classify(failure: ReadFailure) -> BaoValidationError {
    match failure {
        ReadFailure::HashMismatch => BaoValidationError::VerificationError,
        ReadFailure::Truncated => BaoValidationError::VerificationError,
        ReadFailure::Io => BaoValidationError::IoError,
    }
}

impl ReaderState {
    /// The state of a stream that was just opened.
    pub open spec fn fresh() -> ReaderState {
        ReaderState { phase: Phase::Unopened, offset: 0 }
    }

    /// Whether the stream has ended. No read goes to the source after that.
    pub open spec fn is_terminal(self) -> bool {
        self.phase is Exhausted || self.phase is Failed
    }

    /// The state after a read that asked for `want` bytes and came to
    /// `outcome`: a failure ends the stream; no bytes for a non-empty buffer
    /// is its clean end; otherwise the count grows by what was handed out.
    /// A stream that has ended stays as it is.
    pub open spec fn after(self, outcome: Result<usize, ReadFailure>, want: usize) -> ReaderState {
        if self.is_terminal() {
            self
        } else {
            match outcome {
                Err(failure) => ReaderState { phase: Phase::Failed(classify(failure)), ..self },
                Ok(n) => if want == 0 {
                    self
                } else if n == 0 {
                    ReaderState { phase: Phase::Exhausted, ..self }
                } else {
                    ReaderState { phase: Phase::Reading, offset: (self.offset + n) as u64 }
                },
            }
        }
    }

    /// What the caller gets from that read, and the events that it brings.
    pub open spec fn step(self, outcome: Result<usize, ReadFailure>, want: usize) -> ReadStep {
        match self.phase {
            Phase::Exhausted => ReadStep { result: Ok(0), update: None, done: false },
            Phase::Failed(e) => ReadStep { result: Err(e), update: None, done: false },
            _ => match outcome {
                Err(failure) => ReadStep { result: Err(classify(failure)), update: None, done: true },
                Ok(n) => if want == 0 {
                    ReadStep { result: Ok(0), update: None, done: false }
                } else if n == 0 {
                    ReadStep { result: Ok(0), update: None, done: true }
                } else {
                    ReadStep {
                        result: Ok(n),
                        update: Some(ProgressReaderUpdate::Progress((self.offset + n) as u64)),
                        done: false,
                    }
                },
            },
        }
    }

    /// How many `Done` events are still owed when the stream is given up in
    /// this state: one unless it has ended already.
    pub open spec fn owed_at_close(self) -> nat {
        if self.is_terminal() {
            0
        } else {
            1
        }
    }

    /// The state after a run of reads, each given as its outcome and the
    /// number of bytes asked for.
    pub open spec fn after_all(self, reads: Seq<(Result<usize, ReadFailure>, usize)>) -> ReaderState
        decreases reads.len(),
    {
        if reads.len() == 0 {
            self
        } else {
            self.after(reads[0].0, reads[0].1).after_all(reads.drop_first())
        }
    }

    /// How many `Done` events that run of reads brings.
    pub open spec fn done_events(self, reads: Seq<(Result<usize, ReadFailure>, usize)>) -> nat
        decreases reads.len(),
    {
        if reads.len() == 0 {
            0
        } else {
            let first: nat = if self.step(reads[0].0, reads[0].1).done {
                1
            } else {
                0
            };
            first + self.after(reads[0].0, reads[0].1).done_events(reads.drop_first())
        }
    }
}

/// Whatever is read from a stream and whenever it is given up, the reads and
/// the closing together bring as many `Done` events as were owed at the
/// start: for a stream that was just opened, exactly one.
pub proof fn lemma_done_exactly_once(
    state: ReaderState,
    reads: Seq<(Result<usize, ReadFailure>, usize)>,
)
    ensures
        state.done_events(reads) + state.after_all(reads).owed_at_close() == state.owed_at_close(),
        ReaderState::fresh().owed_at_close() == 1,
    decreases reads.len(),
{
    if reads.len() > 0 {
        lemma_done_exactly_once(state.after(reads[0].0, reads[0].1), reads.drop_first());
    }
}

/// Every progress event carries the new confirmed byte count, which is
/// larger than the one before.
pub proof fn lemma_progress_grows(state: ReaderState, outcome: Result<usize, ReadFailure>, want: usize)
    requires
        outcome matches Ok(n) ==> state.offset + n <= u64::MAX,
    ensures
        state.after(outcome, want).offset >= state.offset,
        state.step(outcome, want).update matches Some(event) ==> event
            == ProgressReaderUpdate::Progress(state.after(outcome, want).offset)
            && state.after(outcome, want).offset > state.offset,
{
}

/// Follows a stream from read to read: keeps the confirmed byte count and the
/// phase, and says for each read which events are due. It does not read
/// itself: the caller reads, and reports how each read went.
#[derive(Debug, Clone, Copy)]
pub struct ProgressReader {
    state: ReaderState,
}

impl View for ProgressReader {
    type V = ReaderState;

    closed spec fn view(&self) -> ReaderState {
        self.state
    }
}

impl ProgressReader {
    /// The tracker of a stream that was just opened.
    pub fn new() -> (reader: Self)
        ensures
            reader@ == ReaderState::fresh(),
    {
        ProgressReader { state: ReaderState { phase: Phase::Unopened, offset: 0 } }
    }

    /// The bytes confirmed so far.
    pub fn offset(&self) -> (offset: u64)
        ensures
            offset == self@.offset,
    {
        self.state.offset
    }

    /// Where the stream stands.
    pub fn phase(&self) -> (phase: Phase)
        ensures
            phase == self@.phase,
    {
        self.state.phase
    }

    /// Whether the stream has ended.
    pub fn is_terminal(&self) -> (ended: bool)
        ensures
            ended == self@.is_terminal(),
    {
        match self.state.phase {
            Phase::Exhausted => true,
            Phase::Failed(_) => true,
            _ => false,
        }
    }

    /// Takes in how a read for `want` bytes went, moves to the next state
    /// and returns what the caller gets and which events are due. On a
    /// stream that has ended nothing changes and no event is due.
    pub fn record(&mut self, outcome: Result<usize, ReadFailure>, want: usize) -> (step: ReadStep)
        requires
            outcome matches Ok(n) ==> old(self)@.offset + n <= u64::MAX,
        ensures
            final(self)@ == old(self)@.after(outcome, want),
            step == old(self)@.step(outcome, want),
    {
        match self.state.phase {
            Phase::Exhausted => ReadStep { result: Ok(0), update: None, done: false },
            Phase::Failed(e) => ReadStep { result: Err(e), update: None, done: false },
            _ => match outcome {
                Err(failure) => {
                    let e = classify_failure(failure);
                    self.state.phase = Phase::Failed(e);
                    ReadStep { result: Err(e), update: None, done: true }
                },
                Ok(n) => if want == 0 {
                    ReadStep { result: Ok(0), update: None, done: false }
                } else if n == 0 {
                    self.state.phase = Phase::Exhausted;
                    ReadStep { result: Ok(0), update: None, done: true }
                } else {
                    let offset: u64 = self.state.offset + n as u64;
                    self.state = ReaderState { phase: Phase::Reading, offset };
                    ReadStep {
                        result: Ok(n),
                        update: Some(ProgressReaderUpdate::Progress(offset)),
                        done: false,
                    }
                },
            },
        }
    }

    /// Gives the stream up and says whether `Done` is still due: it is
    /// unless the stream has ended, in which case it was due then.
    pub fn finish(self) -> (done: bool)
        ensures
            done == (self@.owed_at_close() == 1),
    {
        !self.is_terminal()
    }
}

/// The error reported for a failed read.
pub fn classify_failure(failure: ReadFailure) -> (error: BaoValidationError)
    ensures
        error == classify(failure),
{
    match failure {
        ReadFailure::HashMismatch => BaoValidationError::VerificationError,
        ReadFailure::Truncated => BaoValidationError::VerificationError,
        ReadFailure::Io => BaoValidationError::IoError,
    }
}

/// The root hash that a decoder was bound to.
pub uninterp spec fn decoder_root(decoder: MemoryDecoder) -> Seq<u8>;

/// The content that a decoder was bound to.
pub uninterp spec fn decoder_content(decoder: MemoryDecoder) -> Seq<u8>;

/// The hash tree that a decoder was bound to.
pub uninterp spec fn decoder_outboard(decoder: MemoryDecoder) -> Seq<u8>;

/// How many content bytes a decoder has handed out.
pub uninterp spec fn decoder_position(decoder: MemoryDecoder) -> nat;

/// Whether none of a decoder's reads has failed.
pub uninterp spec fn decoder_intact(decoder: MemoryDecoder) -> bool;

/// The largest content length that a hash tree may declare: 2^63 bytes.
pub const MAX_DECLARED_LEN: u64 = 0x8000_0000_0000_0000;

/// The content length that a hash tree declares: its first eight bytes,
/// read as a little-endian number.
pub open spec fn declared_len(tree: Seq<u8>) -> nat
    recommends
        tree.len() >= 8,
{
    (tree[0] + tree[1] * 0x100 + tree[2] * 0x1_0000 + tree[3] * 0x100_0000 + tree[4]
        * 0x1_0000_0000 + tree[5] * 0x100_0000_0000 + tree[6] * 0x1_0000_0000_0000 + tree[7]
        * 0x100_0000_0000_0000) as nat
}

/// Whether a hash tree declares more content than any stream may hold.
pub open spec fn tree_oversized(tree: Seq<u8>) -> bool {
    tree.len() >= 8 && declared_len(tree) > MAX_DECLARED_LEN
}

/// Whether a hash tree declares more content than any stream may hold.
pub fn declares_too_much(tree: &Vec<u8>) -> (oversized: bool)
    ensures
        oversized == tree_oversized(tree@),
{
    if tree.len() < 8 {
        return false;
    }
    let low_set = tree[0] != 0 || tree[1] != 0 || tree[2] != 0 || tree[3] != 0 || tree[4] != 0
        || tree[5] != 0 || tree[6] != 0;
    tree[7] > 0x80 || (tree[7] == 0x80 && low_set)
}

/// What the hash-tree library answers to a read for `want` bytes, `want`
/// above 0, from a decoder that is bound to `root`, `content` and
/// `outboard`, a tree that is not oversized, and has handed out `position`
/// bytes in reads that all succeeded.
pub uninterp spec fn bao_read(
    root: Seq<u8>,
    content: Seq<u8>,
    outboard: Seq<u8>,
    position: nat,
    want: nat,
) -> Result<usize, ReadFailure>;

/// Calls `abao::decode::Decoder::new_outboard` on in-memory readers over the
/// content and the tree. Trusted: the decoder is bound to the three inputs
/// and has handed out nothing. No byte is read by this call.
#[verifier::external_body]
fn decoder_open(root: &[u8; 32], content: Vec<u8>, outboard: Vec<u8>) -> (decoder: MemoryDecoder)
    ensures
        decoder_root(decoder) == root@,
        decoder_content(decoder) == content@,
        decoder_outboard(decoder) == outboard@,
        decoder_position(decoder) == 0,
        decoder_intact(decoder),
{
    let hash = blake3::Hash::from(*root);
    MemoryDecoder { inner: Decoder::new_outboard(Cursor::new(content), Cursor::new(outboard), &hash) }
}

/// Calls `Read::read` of `abao::decode::Decoder` and maps the kind of its
/// error: `InvalidData` is a hash mismatch, `UnexpectedEof` a truncation.
/// Trusted, for a non-empty buffer, a tree that declares at most 2^63 bytes
/// and a decoder none of whose reads has failed: the answer is a function of what the decoder is bound to, of its
/// position and of the buffer's length; the decoder stays bound to the same
/// inputs, and intact unless this read fails; bytes that it hands out are
/// the next bytes of the content, in order, written to the front of the
/// buffer, whose other bytes it leaves.
#[verifier::external_body]
fn decoder_read(decoder: &mut MemoryDecoder, buf: &mut Vec<u8>) -> (outcome: Result<
    usize,
    ReadFailure,
>)
    requires
        old(buf)@.len() > 0,
        decoder_intact(*old(decoder)),
        !tree_oversized(decoder_outboard(*old(decoder))),
    ensures
        decoder_intact(*final(decoder)) == (outcome is Ok),
        decoder_root(*final(decoder)) == decoder_root(*old(decoder)),
        decoder_content(*final(decoder)) == decoder_content(*old(decoder)),
        decoder_outboard(*final(decoder)) == decoder_outboard(*old(decoder)),
        final(buf)@.len() == old(buf)@.len(),
        outcome == bao_read(
            decoder_root(*old(decoder)),
            decoder_content(*old(decoder)),
            decoder_outboard(*old(decoder)),
            decoder_position(*old(decoder)),
            old(buf)@.len(),
        ),
        outcome matches Ok(n) ==> {
            &&& n <= old(buf)@.len()
            &&& decoder_position(*final(decoder)) == decoder_position(*old(decoder)) + n
            &&& decoder_position(*final(decoder)) <= decoder_content(*old(decoder)).len()
            &&& final(buf)@.subrange(0, n as int) == decoder_content(*old(decoder)).subrange(
                decoder_position(*old(decoder)) as int,
                decoder_position(*old(decoder)) + n,
            )
            &&& final(buf)@.subrange(n as int, old(buf)@.len() as int) == old(buf)@.subrange(
                n as int,
                old(buf)@.len() as int,
            )
        },
{
    match decoder.inner.read(buf.as_mut_slice()) {
        Ok(n) => Ok(n),
        Err(e) => match e.kind() {
            ErrorKind::InvalidData => Err(ReadFailure::HashMismatch),
            ErrorKind::UnexpectedEof => Err(ReadFailure::Truncated),
            _ => Err(ReadFailure::Io),
        },
    }
}

/// A stream of checked content: the content, its hash tree and the expected
/// root hash, bound together. Reading from it yields only bytes that were
/// checked against the tree.
pub struct ValidatingReader {
    decoder: MemoryDecoder,
    tracker: ProgressReader,
    oversized: bool,
}

/// What a read for `want` bytes at `position` comes to at the source: a
/// tree that declares more than 2^63 bytes of content is refused as
/// truncated, since no content is that long; any other goes to the decoder.
pub open spec fn source_read(
    root: Seq<u8>,
    content: Seq<u8>,
    outboard: Seq<u8>,
    position: nat,
    want: nat,
) -> Result<usize, ReadFailure> {
    if tree_oversized(outboard) {
        Err(ReadFailure::Truncated)
    } else {
        bao_read(root, content, outboard, position, want)
    }
}

impl ValidatingReader {
    /// The expected root hash.
    pub closed spec fn root(&self) -> Seq<u8> {
        decoder_root(self.decoder)
    }

    /// The content that is read.
    pub closed spec fn content(&self) -> Seq<u8> {
        decoder_content(self.decoder)
    }

    /// The hash tree that the content is checked against.
    pub closed spec fn outboard(&self) -> Seq<u8> {
        decoder_outboard(self.decoder)
    }

    /// Phase and confirmed byte count.
    pub closed spec fn state(&self) -> ReaderState {
        self.tracker@
    }

    /// The confirmed bytes are a prefix of the content, and until the stream
    /// ends the decoder stands where the count says.
    pub closed spec fn wf(&self) -> bool {
        &&& self.oversized == tree_oversized(decoder_outboard(self.decoder))
        &&& decoder_content(self.decoder).len() <= usize::MAX
        &&& self.tracker@.offset <= decoder_content(self.decoder).len()
        &&& !self.tracker@.is_terminal() ==> decoder_intact(self.decoder) && decoder_position(
            self.decoder,
        ) == self.tracker@.offset
    }

    /// What the next read for `want` bytes comes to at the source. A stream
    /// that has ended, and a read into an empty buffer, do not reach it.
    pub open spec fn pending(&self, want: usize) -> Result<usize, ReadFailure> {
        if self.state().is_terminal() || want == 0 {
            Ok(0)
        } else {
            source_read(
                self.root(),
                self.content(),
                self.outboard(),
                self.state().offset as nat,
                want as nat,
            )
        }
    }

    /// Binds the expected root hash, the content and its hash tree. No byte
    /// is read yet.
    pub fn open(root_hash: crate::hash::Hash, data: Vec<u8>, tree: Vec<u8>) -> (reader: Self)
        ensures
            reader.wf(),
            reader.root() == root_hash@,
            reader.content() == data@,
            reader.outboard() == tree@,
            reader.state() == ReaderState::fresh(),
    {
        let oversized = declares_too_much(&tree);
        assert(data@.len() == data.len());
        ValidatingReader {
            decoder: decoder_open(root_hash.as_bytes(), data, tree),
            tracker: ProgressReader::new(),
            oversized,
        }
    }

    /// The bytes confirmed so far.
    pub fn offset(&self) -> (offset: u64)
        ensures
            offset == self.state().offset,
    {
        self.tracker.offset()
    }

    /// Where the stream stands.
    pub fn phase(&self) -> (phase: Phase)
        ensures
            phase == self.state().phase,
    {
        self.tracker.phase()
    }

    /// Reads the next checked bytes into the front of `buf`, at most as many
    /// as `buf` holds, and says which events are due. The bytes are the next
    /// bytes of the content. On a failure `buf` is left as it was: no byte
    /// that was not checked reaches the caller.
    pub fn read(&mut self, buf: &mut Vec<u8>) -> (step: ReadStep)
        requires
            old(self).wf(),
        ensures
            final(self).wf(),
            final(self).root() == old(self).root(),
            final(self).content() == old(self).content(),
            final(self).outboard() == old(self).outboard(),
            final(self).state() == old(self).state().after(
                old(self).pending(old(buf).len()),
                old(buf).len(),
            ),
            step == old(self).state().step(old(self).pending(old(buf).len()), old(buf).len()),
            final(buf)@.len() == old(buf)@.len(),
            match step.result {
                Ok(n) => n <= old(buf)@.len() && old(self).state().offset + n <= old(
                    self,
                ).content().len() && final(buf)@ == old(self).content().subrange(
                    old(self).state().offset as int,
                    old(self).state().offset + n,
                ) + old(buf)@.subrange(n as int, old(buf)@.len() as int),
                Err(_) => final(buf)@ == old(buf)@,
            },
    {
        let want = buf.len();
        if self.tracker.is_terminal() || want == 0 {
            let step = self.tracker.record(Ok(0), want);
            assert(buf@ =~= old(self).content().subrange(
                old(self).state().offset as int,
                old(self).state().offset as int,
            ) + buf@.subrange(0, buf@.len() as int));
            return step;
        }
        if self.oversized {
            return self.tracker.record(Err(ReadFailure::Truncated), want);
        }
        let mut scratch: Vec<u8> = vec![0u8; want];
        let outcome = decoder_read(&mut self.decoder, &mut scratch);
        let step = self.tracker.record(outcome, want);
        match outcome {
            Ok(n) => {
                let ghost before = buf@;
                let ghost content = old(self).content();
                let ghost start = old(self).state().offset as int;
                let mut i: usize = 0;
                while i < n
                    invariant
                        i <= n <= want,
                        buf@.len() == want,
                        scratch@.len() == want,
                        before.len() == want,
                        forall|j: int| 0 <= j < i ==> buf@[j] == scratch@[j],
                        forall|j: int| i <= j < want ==> buf@[j] == before[j],
                    decreases n - i,
                {
                    buf.set(i, scratch[i]);
                    i = i + 1;
                }
                assert(buf@ =~= content.subrange(start, start + n) + before.subrange(
                    n as int,
                    want as int,
                )) by {
                    assert forall|j: int| 0 <= j < n implies buf@[j] == content.subrange(
                        start,
                        start + n,
                    )[j] by {
                        assert(scratch@.subrange(0, n as int)[j] == scratch@[j]);
                    }
                }
            },
            Err(_) => {},
        }
        step
    }

    /// Gives the stream up, read to its end or not, and says whether `Done`
    /// is still due.
    pub fn close(self) -> (done: bool)
        ensures
            done == (self.state().owed_at_close() == 1),
    {
        self.tracker.finish()
    }
}

/// Size of the buffer that validation reads into.
pub const VALIDATE_BUFFER_LEN: usize = 1024 * 16 + 4096;

/// What validating comes to from `position` on, with reads for `want` bytes:
/// the first failure, or success once a read reports the clean end. A read
/// that claimed more bytes than the content has left would be a failure.
pub open spec fn validation_outcome(
    root: Seq<u8>,
    content: Seq<u8>,
    outboard: Seq<u8>,
    position: nat,
    want: nat,
) -> Result<(), BaoValidationError>
    decreases content.len() - position,
{
    match source_read(root, content, outboard, position, want) {
        Err(failure) => Err(classify(failure)),
        Ok(n) => if n == 0 {
            Ok(())
        } else if position + n > content.len() {
            Err(BaoValidationError::VerificationError)
        } else {
            validation_outcome(root, content, outboard, (position + n) as nat, want)
        },
    }
}

/// The confirmed byte counts that validating reports from `position` on,
/// with reads for `want` bytes: the new count after each read that hands
/// out bytes, up to the clean end or the first failure.
pub open spec fn counts_due(
    root: Seq<u8>,
    content: Seq<u8>,
    outboard: Seq<u8>,
    position: nat,
    want: nat,
) -> Seq<u64>
    decreases content.len() - position,
{
    match source_read(root, content, outboard, position, want) {
        Err(_) => Seq::empty(),
        Ok(n) => if n == 0 || position + n > content.len() {
            Seq::empty()
        } else {
            seq![(position + n) as u64] + counts_due(
                root,
                content,
                outboard,
                (position + n) as nat,
                want,
            )
        },
    }
}

/// The counts that are reported grow from one to the next, start above the
/// position and never pass the length of the content.
pub proof fn lemma_counts_grow(
    root: Seq<u8>,
    content: Seq<u8>,
    outboard: Seq<u8>,
    position: nat,
    want: nat,
)
    requires
        content.len() <= u64::MAX,
    ensures
        forall|i: int|
            0 <= i < counts_due(root, content, outboard, position, want).len() ==> position
                < #[trigger] counts_due(root, content, outboard, position, want)[i]
                <= content.len(),
        forall|i: int, j: int|
            0 <= i < j < counts_due(root, content, outboard, position, want).len()
                ==> #[trigger] counts_due(root, content, outboard, position, want)[i]
                < #[trigger] counts_due(root, content, outboard, position, want)[j],
    decreases content.len() - position,
{
    match source_read(root, content, outboard, position, want) {
        Err(_) => {},
        Ok(n) => {
            if n != 0 && position + n <= content.len() {
                let next = (position + n) as nat;
                lemma_counts_grow(root, content, outboard, next, want);
                let rest = counts_due(root, content, outboard, next, want);
                let all = counts_due(root, content, outboard, position, want);
                assert(all =~= seq![next as u64] + rest);
                assert forall|i: int| 0 <= i < all.len() implies position < #[trigger] all[i]
                    <= content.len() by {
                    if i > 0 {
                        assert(all[i] == rest[i - 1]);
                    }
                }
                assert forall|i: int, j: int| 0 <= i < j < all.len() implies #[trigger] all[i]
                    < #[trigger] all[j] by {
                    assert(all[j] == rest[j - 1]);
                    if i > 0 {
                        assert(all[i] == rest[i - 1]);
                    }
                }
            }
        },
    }
}

/// Validates as `validate_bao` does and returns, beside the answer, the
/// confirmed byte counts in the order in which they became due. Each count
/// is offered to `progress` at the moment it is due.
pub fn validate_reporting(
    hash: crate::hash::Hash,
    data: Vec<u8>,
    outboard: Vec<u8>,
    progress: &Progress<u64>,
) -> (report: (Result<(), BaoValidationError>, Vec<u64>))
    ensures
        report.0 == validation_outcome(hash@, data@, outboard@, 0, VALIDATE_BUFFER_LEN as nat),
        report.1@ == counts_due(hash@, data@, outboard@, 0, VALIDATE_BUFFER_LEN as nat),
{
    let ghost root = hash@;
    let ghost content = data@;
    let ghost tree = outboard@;
    let ghost want = VALIDATE_BUFFER_LEN as nat;
    let mut reader = ValidatingReader::open(hash, data, outboard);
    let mut buffer: Vec<u8> = vec![0u8; VALIDATE_BUFFER_LEN];
    let mut counts: Vec<u64> = Vec::new();
    assert(counts@ + counts_due(root, content, tree, 0, want) =~= counts_due(
        root,
        content,
        tree,
        0,
        want,
    ));
    loop
        invariant
            root == hash@,
            content == data@,
            tree == outboard@,
            want == VALIDATE_BUFFER_LEN,
            reader.wf(),
            reader.root() == root,
            reader.content() == content,
            reader.outboard() == tree,
            !reader.state().is_terminal(),
            buffer@.len() == VALIDATE_BUFFER_LEN,
            validation_outcome(root, content, tree, 0, want) == validation_outcome(
                root,
                content,
                tree,
                reader.state().offset as nat,
                want,
            ),
            counts_due(root, content, tree, 0, want) == counts@ + counts_due(
                root,
                content,
                tree,
                reader.state().offset as nat,
                want,
            ),
        decreases content.len() - reader.state().offset,
    {
        let ghost before = reader.state().offset as nat;
        let ghost read = source_read(root, content, tree, before, want);
        assert(reader.pending(VALIDATE_BUFFER_LEN) == read);
        let ghost reported = counts@;
        let step = reader.read(&mut buffer);
        match step.update {
            Some(ProgressReaderUpdate::Progress(confirmed)) => {
                counts.push(confirmed);
                progress.try_send(confirmed);
            },
            _ => {},
        }
        assert(validation_outcome(root, content, tree, before, want) == (match read {
            Err(failure) => Err(classify(failure)),
            Ok(n) => if n == 0 {
                Ok(())
            } else if before + n > content.len() {
                Err(BaoValidationError::VerificationError)
            } else {
                validation_outcome(root, content, tree, (before + n) as nat, want)
            },
        }));
        assert(counts_due(root, content, tree, before, want) == (match read {
            Err(_) => Seq::<u64>::empty(),
            Ok(n) => if n == 0 || before + n > content.len() {
                Seq::<u64>::empty()
            } else {
                seq![(before + n) as u64] + counts_due(
                    root,
                    content,
                    tree,
                    (before + n) as nat,
                    want,
                )
            },
        }));
        match step.result {
            Ok(n) => {
                if n == 0 {
                    assert(read == Ok::<usize, ReadFailure>(0));
                    assert(counts@ =~= reported + Seq::<u64>::empty());
                    return (Ok(()), counts);
                }
                assert(read == Ok::<usize, ReadFailure>(n));
                assert(counts@ =~= reported.push((before + n) as u64));
                assert(reported + (seq![(before + n) as u64] + counts_due(
                    root,
                    content,
                    tree,
                    (before + n) as nat,
                    want,
                )) =~= counts@ + counts_due(root, content, tree, (before + n) as nat, want));
            },
            Err(e) => {
                assert(read is Err);
                assert(counts@ =~= reported + Seq::<u64>::empty());
                return (Err(e), counts);
            },
        }
    }
}

/// Validate that the data matches the outboard: reads the whole content
/// against the tree and the root hash, and offers each new confirmed byte
/// count to `progress` as `validate_reporting` does. The answer does not
/// depend on `progress`.
pub fn validate_bao(
    hash: crate::hash::Hash,
    data: Vec<u8>,
    outboard: Vec<u8>,
    progress: &Progress<u64>,
) -> (outcome: Result<(), BaoValidationError>)
    ensures
        outcome == validation_outcome(hash@, data@, outboard@, 0, VALIDATE_BUFFER_LEN as nat),
{
    validate_reporting(hash, data, outboard, progress).0
}

} // verus!
