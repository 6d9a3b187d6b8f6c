//! Chunked transfer of artifacts.
//!
//! An artifact travels as one metadata message followed by its bytes in
//! chunks of bounded size. The receiver takes the metadata first and appends
//! the chunks in the order in which they arrive; where the chunks are cut is
//! of no meaning. Where a journal belongs to the artifact, the journal
//! travels in the chunks too, in front of the artifact, and the metadata
//! says how many bytes of it there are.

use vstd::prelude::*;

verus! {

/// The largest number of bytes in one chunk.
pub const MAX_CHUNK_BYTES: usize = 1048576;

/// What the metadata message says of an artifact.
#[derive(Clone, Debug, PartialEq, Eq)]
pub struct ArtifactMetadata {
    pub task_id: String,
    pub description: String,
    /// The number of bytes of the encoded journal that stand in front of
    /// the artifact, 0 where it has none.
    pub journal_len: u64,
}

/// A message of a transfer.
#[derive(Clone, Debug, PartialEq, Eq)]
pub enum TransferMessage {
    Metadata(ArtifactMetadata),
    Chunk(Vec<u8>),
}

/// Why a sequence of messages is not a transfer.
#[derive(Clone, Copy, Debug, PartialEq, Eq, Structural)]
pub enum TransferError {
    /// A chunk arrived before the metadata, or the sequence ended without
    /// metadata.
    MissingMetadata,
    /// A second metadata message arrived.
    DuplicateMetadata,
}

/// Mathematical content of an [`ArtifactMetadata`].
pub struct MetadataView {
    pub task_id: Seq<char>,
    pub description: Seq<char>,
    pub journal_len: u64,
}

/// Mathematical content of a [`TransferMessage`].
pub enum MessageView {
    Metadata(MetadataView),
    Chunk(Seq<u8>),
}

impl View for ArtifactMetadata {
    type V = MetadataView;

    open spec fn view(&self) -> MetadataView {
        MetadataView {
            task_id: self.task_id@,
            description: self.description@,
            journal_len: self.journal_len,
        }
    }
}

impl View for TransferMessage {
    type V = MessageView;

    open spec fn view(&self) -> MessageView {
        match *self {
            TransferMessage::Metadata(m) => MessageView::Metadata(m@),
            TransferMessage::Chunk(c) => MessageView::Chunk(c@),
        }
    }
}

/// The contents of a list of messages.
pub open spec fn messages_view(v: Seq<TransferMessage>) -> Seq<MessageView> {
    Seq::new(v.len(), |i: int| v[i]@)
}

/// The chunk size that is used where `requested` is asked for: the
/// requested size where it is within bounds, the largest size otherwise.
pub open spec fn chunk_size(requested: usize) -> nat {
    if requested == 0 || requested > MAX_CHUNK_BYTES {
        MAX_CHUNK_BYTES as nat
    } else {
        requested as nat
    }
}

/// The bytes cut into chunks of `size` bytes, the last one possibly shorter.
pub open spec fn chunks_of(data: Seq<u8>, size: nat) -> Seq<MessageView>
    decreases data.len(),
{
    if size == 0 || data.len() == 0 {
        Seq::empty()
    } else if data.len() <= size {
        seq![MessageView::Chunk(data)]
    } else {
        seq![MessageView::Chunk(data.take(size as int))] + chunks_of(data.skip(size as int), size)
    }
}

/// The messages of a transfer: the metadata, then the chunks.
pub open spec fn framed(meta: MetadataView, data: Seq<u8>, size: nat) -> Seq<MessageView> {
    seq![MessageView::Metadata(meta)] + chunks_of(data, size)
}

/// What a receiver holds in the middle of a transfer.
pub struct AssemblyView {
    pub meta: Option<MetadataView>,
    pub data: Seq<u8>,
}

/// A receiver before the first message.
pub open spec fn empty_assembly() -> AssemblyView {
    AssemblyView { meta: None, data: Seq::empty() }
}

/// The receiver after a message: metadata is taken once and first, chunks
/// are appended.
pub open spec fn absorb(state: AssemblyView, message: MessageView) -> Result<
    AssemblyView,
    TransferError,
> {
    match message {
        MessageView::Metadata(m) => if state.meta.is_none() && state.data.len() == 0 {
            Ok(AssemblyView { meta: Some(m), data: state.data })
        } else {
            Err(TransferError::DuplicateMetadata)
        },
        MessageView::Chunk(c) => if state.meta.is_some() {
            Ok(AssemblyView { meta: state.meta, data: state.data + c })
        } else {
            Err(TransferError::MissingMetadata)
        },
    }
}

/// The receiver after a sequence of messages, or the first error.
pub open spec fn absorb_all(state: AssemblyView, messages: Seq<MessageView>) -> Result<
    AssemblyView,
    TransferError,
>
    decreases messages.len(),
{
    if messages.len() == 0 {
        Ok(state)
    } else {
        match absorb_all(state, messages.drop_last()) {
            Ok(s) => absorb(s, messages.last()),
            Err(e) => Err(e),
        }
    }
}

/// What a receiver hands out at the end of the sequence.
pub open spec fn finished(state: AssemblyView) -> Result<(MetadataView, Seq<u8>), TransferError> {
    match state.meta {
        Some(m) => Ok((m, state.data)),
        None => Err(TransferError::MissingMetadata),
    }
}

/// The artifact that a sequence of messages carries.
pub open spec fn reassembled(messages: Seq<MessageView>) -> Result<
    (MetadataView, Seq<u8>),
    TransferError,
> {
    match absorb_all(empty_assembly(), messages) {
        Ok(s) => finished(s),
        Err(e) => Err(e),
    }
}

/// Absorbing two sequences one after the other is absorbing their
/// concatenation.
pub proof fn lemma_absorb_concat(state: AssemblyView, a: Seq<MessageView>, b: Seq<MessageView>)
    ensures
        absorb_all(state, a + b) == match absorb_all(state, a) {
            Ok(s) => absorb_all(s, b),
            Err(e) => Err(e),
        },
    decreases b.len(),
{
    if b.len() > 0 {
        assert((a + b).drop_last() =~= a + b.drop_last());
        lemma_absorb_concat(state, a, b.drop_last());
    }
}

/// A receiver that has its metadata and takes the chunks of some bytes ends
/// up with those bytes appended, however they were cut.
pub proof fn lemma_chunks_append(state: AssemblyView, data: Seq<u8>, size: nat)
    requires
        size > 0,
        state.meta.is_some(),
    ensures
        absorb_all(state, chunks_of(data, size)) == Ok::<AssemblyView, TransferError>(
            AssemblyView { meta: state.meta, data: state.data + data },
        ),
    decreases data.len(),
{
    if 0 < data.len() <= size {
        let one = seq![MessageView::Chunk(data)];
        assert(absorb_all(state, one.drop_last()) == Ok::<AssemblyView, TransferError>(state));
    } else if data.len() > size {
        let head = seq![MessageView::Chunk(data.take(size as int))];
        let rest = chunks_of(data.skip(size as int), size);
        assert(absorb_all(state, head.drop_last()) == Ok::<AssemblyView, TransferError>(state));
        let next = AssemblyView { meta: state.meta, data: state.data + data.take(size as int) };
        lemma_absorb_concat(state, head, rest);
        lemma_chunks_append(next, data.skip(size as int), size);
        assert(next.data + data.skip(size as int) =~= state.data + data);
    }
}

/// A transfer round-trips: what is reassembled from the messages of an
/// artifact is the artifact, byte for byte, whatever the chunk size.
pub proof fn lemma_transfer_round_trip(meta: MetadataView, data: Seq<u8>, size: nat)
    requires
        size > 0,
    ensures
        reassembled(framed(meta, data, size)) == Ok::<(MetadataView, Seq<u8>), TransferError>(
            (meta, data),
        ),
{
    let head = seq![MessageView::Metadata(meta)];
    let start = AssemblyView { meta: Some(meta), data: Seq::<u8>::empty() };
    assert(absorb_all(empty_assembly(), head.drop_last()) == Ok::<AssemblyView, TransferError>(
        empty_assembly(),
    ));
    lemma_absorb_concat(empty_assembly(), head, chunks_of(data, size));
    lemma_chunks_append(start, data, size);
}

/// In the messages of an artifact the metadata comes first and once, and
/// every chunk holds at least one byte and at most `size` bytes.
pub proof fn lemma_frame_shape(meta: MetadataView, data: Seq<u8>, size: nat, i: int)
    requires
        size > 0,
        0 <= i < framed(meta, data, size).len(),
    ensures
        i == 0 ==> framed(meta, data, size)[i] == MessageView::Metadata(meta),
        i > 0 ==> framed(meta, data, size)[i] is Chunk && 1 <= framed(
            meta,
            data,
            size,
        )[i]->Chunk_0.len() <= size,
{
    if i > 0 {
        lemma_chunk_shape(data, size, i - 1);
    }
}

proof fn lemma_chunk_shape(data: Seq<u8>, size: nat, i: int)
    requires
        size > 0,
        0 <= i < chunks_of(data, size).len(),
    ensures
        chunks_of(data, size)[i] is Chunk,
        1 <= chunks_of(data, size)[i]->Chunk_0.len() <= size,
    decreases data.len(),
{
    if data.len() > size && i > 0 {
        lemma_chunk_shape(data.skip(size as int), size, i - 1);
    }
}

fn copy_range(data: &Vec<u8>, from: usize, to: usize) -> (part: Vec<u8>)
    requires
        from <= to <= data@.len(),
    ensures
        part@ == data@.subrange(from as int, to as int),
{
    let mut part: Vec<u8> = Vec::new();
    let mut i: usize = from;
    while i < to
        invariant
            from <= i <= to <= data@.len(),
            part@ == data@.subrange(from as int, i as int),
        decreases to - i,
    {
        part.push(data[i]);
        i += 1;
    }
    part
}

pub(crate) fn append_bytes(data: &mut Vec<u8>, more: &Vec<u8>)
    ensures
        final(data)@ == old(data)@ + more@,
{
    let mut i: usize = 0;
    while i < more.len()
        invariant
            i <= more@.len(),
            data@ == old(data)@ + more@.take(i as int),
        decreases more@.len() - i,
    {
        data.push(more[i]);
        i += 1;
    }
}

/// Cuts an artifact into the messages of a transfer. The chunks have
/// `requested` bytes where that is within bounds, [`MAX_CHUNK_BYTES`]
/// otherwise.
pub fn frame_artifact(meta: ArtifactMetadata, data: &Vec<u8>, requested: usize) -> (messages: Vec<
    TransferMessage,
>)
    ensures
        messages_view(messages@) == framed(meta@, data@, chunk_size(requested)),
{
    let size: usize = if requested == 0 || requested > MAX_CHUNK_BYTES {
        MAX_CHUNK_BYTES
    } else {
        requested
    };
    let ghost all = framed(meta@, data@, size as nat);
    let mut messages: Vec<TransferMessage> = Vec::new();
    messages.push(TransferMessage::Metadata(meta));
    let mut pos: usize = 0;
    assert(data@.skip(0) =~= data@);
    while pos < data.len()
        invariant
            0 < size <= MAX_CHUNK_BYTES,
            pos <= data@.len(),
            all == framed(meta@, data@, size as nat),
            messages_view(messages@) + chunks_of(data@.skip(pos as int), size as nat) == all,
        decreases data@.len() - pos,
    {
        let ghost rest = data@.skip(pos as int);
        let end: usize = if data.len() - pos <= size {
            data.len()
        } else {
            pos + size
        };
        let chunk = copy_range(data, pos, end);
        messages.push(TransferMessage::Chunk(chunk));
        proof {
            if rest.len() > size {
                assert(chunk@ =~= rest.take(size as int));
                assert(data@.skip(end as int) =~= rest.skip(size as int));
            }
        }
        pos = end;
    }
    messages
}

/// The journal and the artifact in the bytes of a transfer: the first
/// `journal_len` bytes and the rest. There is no such split where the bytes
/// are fewer than the metadata announces.
pub open spec fn split_bytes(meta: MetadataView, data: Seq<u8>) -> Option<(Seq<u8>, Seq<u8>)> {
    if meta.journal_len <= data.len() {
        Some((data.take(meta.journal_len as int), data.skip(meta.journal_len as int)))
    } else {
        None
    }
}

/// Splits the bytes of a transfer into the journal and the artifact.
pub fn split_payload(meta: &ArtifactMetadata, data: &Vec<u8>) -> (parts: Option<(Vec<u8>, Vec<u8>)>)
    ensures
        match split_bytes(meta@, data@) {
            Some((journal, artifact)) => parts.is_some() && parts->Some_0.0@ == journal
                && parts->Some_0.1@ == artifact,
            None => parts.is_none(),
        },
{
    if meta.journal_len > data.len() as u64 {
        return None;
    }
    let cut = meta.journal_len as usize;
    let journal = copy_range(data, 0, cut);
    let artifact = copy_range(data, cut, data.len());
    assert(data@.take(cut as int) =~= data@.subrange(0, cut as int));
    assert(data@.skip(cut as int) =~= data@.subrange(cut as int, data@.len() as int));
    Some((journal, artifact))
}

/// The receiving end of a transfer.
#[derive(Debug, PartialEq, Eq)]
pub struct Assembler {
    pub meta: Option<ArtifactMetadata>,
    pub data: Vec<u8>,
}

impl View for Assembler {
    type V = AssemblyView;

    open spec fn view(&self) -> AssemblyView {
        AssemblyView {
            meta: match self.meta {
                Some(m) => Some(m@),
                None => None,
            },
            data: self.data@,
        }
    }
}

impl Assembler {
    /// A receiver before the first message.
    pub fn new() -> (a: Self)
        ensures
            a@ == empty_assembly(),
    {
        Assembler { meta: None, data: Vec::new() }
    }

    /// Takes the next message. A message that is out of place is refused
    /// and leaves the receiver as it is.
    pub fn accept(&mut self, message: TransferMessage) -> (taken: Result<(), TransferError>)
        ensures
            match absorb(old(self)@, message@) {
                Ok(s) => taken.is_ok() && final(self)@ == s,
                Err(e) => taken == Err::<(), TransferError>(e) && final(self)@ == old(self)@,
            },
    {
        match message {
            TransferMessage::Metadata(m) => {
                if self.meta.is_none() && self.data.len() == 0 {
                    self.meta = Some(m);
                    Ok(())
                } else {
                    Err(TransferError::DuplicateMetadata)
                }
            },
            TransferMessage::Chunk(c) => {
                if self.meta.is_some() {
                    append_bytes(&mut self.data, &c);
                    Ok(())
                } else {
                    Err(TransferError::MissingMetadata)
                }
            },
        }
    }

    /// Ends the transfer and hands out the artifact.
    pub fn finish(self) -> (artifact: Result<(ArtifactMetadata, Vec<u8>), TransferError>)
        ensures
            match finished(self@) {
                Ok((m, d)) => artifact.is_ok() && artifact->Ok_0.0@ == m && artifact->Ok_0.1@ == d,
                Err(e) => artifact == Err::<(ArtifactMetadata, Vec<u8>), TransferError>(e),
            },
    {
        match self.meta {
            Some(m) => Ok((m, self.data)),
            None => Err(TransferError::MissingMetadata),
        }
    }
}

fn copy_message(message: &TransferMessage) -> (copy: TransferMessage)
    ensures
        copy@ == message@,
{
    match message {
        TransferMessage::Metadata(m) => TransferMessage::Metadata(
            ArtifactMetadata {
                task_id: m.task_id.clone(),
                description: m.description.clone(),
                journal_len: m.journal_len,
            },
        ),
        TransferMessage::Chunk(c) => TransferMessage::Chunk(c.clone()),
    }
}

/// Puts an artifact together from the messages of a transfer.
pub fn reassemble(messages: &Vec<TransferMessage>) -> (artifact: Result<
    (ArtifactMetadata, Vec<u8>),
    TransferError,
>)
    ensures
        match reassembled(messages_view(messages@)) {
            Ok((m, d)) => artifact.is_ok() && artifact->Ok_0.0@ == m && artifact->Ok_0.1@ == d,
            Err(e) => artifact == Err::<(ArtifactMetadata, Vec<u8>), TransferError>(e),
        },
{
    let ghost all = messages_view(messages@);
    let mut assembler = Assembler::new();
    let mut i: usize = 0;
    while i < messages.len()
        invariant
            i <= messages@.len(),
            all == messages_view(messages@),
            absorb_all(empty_assembly(), all.take(i as int)) == Ok::<AssemblyView, TransferError>(
                assembler@,
            ),
        decreases messages@.len() - i,
    {
        proof {
            let upto = all.take(i + 1);
            assert(upto.drop_last() =~= all.take(i as int));
        }
        match assembler.accept(copy_message(&messages[i])) {
            Ok(()) => {},
            Err(e) => {
                proof {
                    lemma_error_sticks(all, i + 1, e);
                }
                return Err(e);
            },
        }
        i += 1;
    }
    assert(all.take(i as int) =~= all);
    assembler.finish()
}

proof fn lemma_error_sticks(messages: Seq<MessageView>, upto: int, e: TransferError)
    requires
        0 <= upto <= messages.len(),
        absorb_all(empty_assembly(), messages.take(upto)) == Err::<AssemblyView, TransferError>(e),
    ensures
        absorb_all(empty_assembly(), messages) == Err::<AssemblyView, TransferError>(e),
    decreases messages.len() - upto,
{
    if upto < messages.len() {
        assert(messages.take(upto + 1).drop_last() =~= messages.take(upto));
        lemma_error_sticks(messages, upto + 1, e);
    } else {
        assert(messages.take(upto) =~= messages);
    }
}

} // verus!
