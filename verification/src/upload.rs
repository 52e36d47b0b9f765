//! Buffers to create on the GPU, recorded in the order in which they are
//! asked for.
//!
//! Nothing here talks to a device. A [`ResourceAllocator`] collects the
//! descriptors of the buffers that the geometry needs and hands out the
//! identifiers under which draw commands refer to them; the caller creates
//! the buffers afterwards, one per descriptor, in the same order.

use vstd::prelude::*;
use crate::buffer::Vertex;

verus! {

/// What a buffer is bound as.
#[derive(Clone, Copy, Debug, PartialEq, Eq, Structural)]
pub enum BufferUsages {
    Vertex,
    Index,
}

/// The initial contents of a buffer.
#[derive(Clone, Debug, PartialEq, Eq)]
pub enum BufferContents {
    /// Vertices, still exact; each takes one stride of the vertex layout.
    Vertices(Vec<Vertex>),
    /// Bytes as they will lie in the buffer.
    Bytes(Vec<u8>),
}

/// The mathematical value of [`BufferContents`].
pub enum ContentsView {
    Vertices(Seq<Vertex>),
    Bytes(Seq<u8>),
}

impl View for BufferContents {
    type V = ContentsView;

    open spec fn view(&self) -> ContentsView {
        match self {
            BufferContents::Vertices(vertices) => ContentsView::Vertices(vertices@),
            BufferContents::Bytes(bytes) => ContentsView::Bytes(bytes@),
        }
    }
}

/// A buffer to create, with the data to fill it with.
#[derive(Clone, Debug, PartialEq, Eq)]
pub struct BufferInitDescriptor {
    /// Tag by which the buffer is identified in diagnostics.
    pub label: &'static str,
    pub contents: BufferContents,
    pub usage: BufferUsages,
}

/// The mathematical value of a [`BufferInitDescriptor`].
pub struct BufferInitView {
    pub label: Seq<char>,
    pub contents: ContentsView,
    pub usage: BufferUsages,
}

impl View for BufferInitDescriptor {
    type V = BufferInitView;

    open spec fn view(&self) -> BufferInitView {
        BufferInitView { label: self.label@, contents: self.contents@, usage: self.usage }
    }
}

/// Names a buffer by its position among the buffers asked for.
#[derive(Clone, Copy, Debug, PartialEq, Eq, Structural)]
pub struct BufferId(pub usize);

/// The little-endian bytes of a sequence of 16-bit words.
pub open spec fn le_bytes(words: Seq<u16>) -> Seq<u8> {
    Seq::new(
        2 * words.len(),
        |i: int|
            if i % 2 == 0 {
                (words[i / 2] % 256) as u8
            } else {
                (words[i / 2] / 256) as u8
            },
    )
}

/// The big-endian bytes of a sequence of 16-bit words.
pub open spec fn be_bytes(words: Seq<u16>) -> Seq<u8> {
    Seq::new(
        2 * words.len(),
        |i: int|
            if i % 2 == 0 {
                (words[i / 2] / 256) as u8
            } else {
                (words[i / 2] % 256) as u8
            },
    )
}

/// Whether `bytes` are `words` as some machine stores them: every word in
/// little-endian order, or every word in big-endian order.
pub open spec fn native_bytes(words: Seq<u16>, bytes: Seq<u8>) -> bool {
    bytes == le_bytes(words) || bytes == be_bytes(words)
}

/// Reinterprets 16-bit words as bytes with `bytemuck::cast_slice`.
///
/// Trusted: the cast keeps the memory as it is, so the result holds two bytes
/// for each word, in the byte order of the machine. Casting to bytes never
/// fails: no alignment is asked for and no remainder is left.
#[verifier::external_body]
pub(crate) fn cast_words(words: &[u16]) -> (bytes: Vec<u8>)
    ensures
        native_bytes(words@, bytes@),
{
    bytemuck::cast_slice::<u16, u8>(words).to_vec()
}

/// Collects the buffers that are to be created.
#[derive(Debug, PartialEq, Eq)]
pub struct ResourceAllocator {
    pending: Vec<BufferInitDescriptor>,
}

impl View for ResourceAllocator {
    type V = Seq<BufferInitView>;

    closed spec fn view(&self) -> Seq<BufferInitView> {
        self.pending@.map_values(|desc: BufferInitDescriptor| desc@)
    }
}

impl ResourceAllocator {
    /// An allocator that has been asked for nothing.
    pub fn new() -> (allocator: Self)
        ensures
            allocator@ == Seq::<BufferInitView>::empty(),
    {
        ResourceAllocator { pending: Vec::new() }
    }

    /// Records a buffer to create and returns the identifier it will have.
    pub fn create_buffer_init(&mut self, desc: BufferInitDescriptor) -> (id: BufferId)
        ensures
            final(self)@ == old(self)@.push(desc@),
            id.0 == old(self)@.len(),
    {
        let id = BufferId(self.pending.len());
        self.pending.push(desc);
        id
    }

    /// An allocator holds no more requests than a `usize` can count.
    pub proof fn lemma_len_fits(&self)
        ensures
            self@.len() <= usize::MAX,
    {
        assert(self@.len() == self.pending.len());
    }

    /// The buffers asked for so far, oldest first. The buffer that
    /// `BufferId(i)` names is the one created from entry `i`.
    pub fn pending(&self) -> (pending: &Vec<BufferInitDescriptor>)
        ensures
            pending@.len() == self@.len(),
            forall|i: int| 0 <= i < pending@.len() ==> (#[trigger] pending@[i])@ == self@[i],
    {
        &self.pending
    }
}

} // verus!
