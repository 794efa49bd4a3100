//! Node classification, relative document positions and walking a node list.
use vstd::prelude::*;

verus! {

/// The kind of a DOM node.
#[derive(Copy, Clone, Debug, Eq, PartialEq, Structural)]
pub enum NodeType {
    Element,
    Attribute,
    Text,
    CdataSection,
    EntityReference,
    EntityNode,
    ProcessingInstruction,
    Comment,
    Document,
    DocumentType,
    DocumentFragment,
    Notation,
}

impl NodeType {
    /// The number by which the host names this kind of node.
    pub open spec fn code(self) -> u16 {
        match self {
            NodeType::Element => 1,
            NodeType::Attribute => 2,
            NodeType::Text => 3,
            NodeType::CdataSection => 4,
            NodeType::EntityReference => 5,
            NodeType::EntityNode => 6,
            NodeType::ProcessingInstruction => 7,
            NodeType::Comment => 8,
            NodeType::Document => 9,
            NodeType::DocumentType => 10,
            NodeType::DocumentFragment => 11,
            NodeType::Notation => 12,
        }
    }

    /// Whether `raw` is the number of some kind of node.
    pub open spec fn is_code(raw: u16) -> bool {
        1 <= raw <= 12
    }

    /// The kind of node that the host's number `raw` names.
    pub fn from_web_sys(raw: u16) -> (node_type: NodeType)
        requires
            NodeType::is_code(raw),
        ensures
            node_type.code() == raw,
    {
        match raw {
            1 => NodeType::Element,
            2 => NodeType::Attribute,
            3 => NodeType::Text,
            4 => NodeType::CdataSection,
            5 => NodeType::EntityReference,
            6 => NodeType::EntityNode,
            7 => NodeType::ProcessingInstruction,
            8 => NodeType::Comment,
            9 => NodeType::Document,
            10 => NodeType::DocumentType,
            11 => NodeType::DocumentFragment,
            _ => NodeType::Notation,
        }
    }
}

/// Every kind of node has a number of its own, and these are all the numbers.
pub proof fn lemma_node_type_codes(a: NodeType, b: NodeType)
    ensures
        NodeType::is_code(a.code()),
        a.code() == b.code() ==> a == b,
{
}

/// The bit of the flag disconnected.
pub const DISCONNECTED: u16 = 1;

/// The bit of the flag preceding.
pub const PRECEDING: u16 = 2;

/// The bit of the flag following.
pub const FOLLOWING: u16 = 4;

/// The bit of the flag contains.
pub const CONTAINS: u16 = 8;

/// The bit of the flag contained_by.
pub const CONTAINED_BY: u16 = 16;

/// The bit of the flag implementation_specific.
pub const IMPLEMENTATION_SPECIFIC: u16 = 32;

/// The bits that have a meaning in a [`DocumentPosition`]: those of the six flags.
pub const DOCUMENT_POSITION_BITS: u16 = 0x3f;

/// How another node lies relative to a node: a set of flags, held as bits.
#[derive(Copy, Clone, Debug, Eq, PartialEq, Hash)]
pub struct DocumentPosition {
    bits: u16,
}

impl DocumentPosition {
    #[verifier::type_invariant]
    spec fn only_known_bits(self) -> bool {
        self.bits & !DOCUMENT_POSITION_BITS == 0
    }

    /// The flags as bits.
    pub closed spec fn flags(self) -> u16 {
        self.bits
    }

    /// No flag.
    pub fn empty() -> (position: DocumentPosition)
        ensures
            position.flags() == 0,
    {
        assert(0u16 & !0x3fu16 == 0) by (bit_vector);
        DocumentPosition { bits: 0 }
    }

    /// Every flag.
    pub fn all() -> (position: DocumentPosition)
        ensures
            position.flags() == DOCUMENT_POSITION_BITS,
    {
        assert(0x3fu16 & !0x3fu16 == 0) by (bit_vector);
        DocumentPosition { bits: DOCUMENT_POSITION_BITS }
    }

    pub fn bits(&self) -> (bits: u16)
        ensures
            bits == self.flags(),
            bits & !DOCUMENT_POSITION_BITS == 0,
    {
        proof {
            use_type_invariant(self);
        }
        self.bits
    }

    /// The flags that `bits` holds, if every bit set in it is a flag.
    pub fn from_bits(bits: u16) -> (position: Option<DocumentPosition>)
        ensures
            position is Some <==> bits & !DOCUMENT_POSITION_BITS == 0,
            position matches Some(p) ==> p.flags() == bits,
    {
        if bits & !DOCUMENT_POSITION_BITS == 0 {
            Some(DocumentPosition { bits })
        } else {
            None
        }
    }

    /// The flags that `bits` holds; bits that are no flag are dropped.
    pub fn from_bits_truncate(bits: u16) -> (position: DocumentPosition)
        ensures
            position.flags() == bits & DOCUMENT_POSITION_BITS,
    {
        assert((bits & 0x3fu16) & !0x3fu16 == 0) by (bit_vector);
        DocumentPosition { bits: bits & DOCUMENT_POSITION_BITS }
    }

    pub fn is_empty(&self) -> (empty: bool)
        ensures
            empty == (self.flags() == 0),
    {
        self.bits == 0
    }

    /// Whether every flag of `other` is set here.
    pub fn contains(&self, other: DocumentPosition) -> (all_set: bool)
        ensures
            all_set == (self.flags() & other.flags() == other.flags()),
    {
        self.bits & other.bits == other.bits
    }

    /// Whether some flag of `other` is set here.
    pub fn intersects(&self, other: DocumentPosition) -> (some_set: bool)
        ensures
            some_set == (self.flags() & other.flags() != 0),
    {
        self.bits & other.bits != 0
    }
}

/// Dropping the bits that are no flag keeps a value that holds only flags, and
/// doing it twice is doing it once.
pub proof fn lemma_truncate_keeps_flags(bits: u16)
    ensures
        bits & !DOCUMENT_POSITION_BITS == 0 ==> bits & DOCUMENT_POSITION_BITS == bits,
        (bits & DOCUMENT_POSITION_BITS) & DOCUMENT_POSITION_BITS == bits & DOCUMENT_POSITION_BITS,
        (bits & DOCUMENT_POSITION_BITS) & !DOCUMENT_POSITION_BITS == 0,
{
    assert(bits & !0x3fu16 == 0 ==> bits & 0x3fu16 == bits) by (bit_vector);
    assert((bits & 0x3fu16) & 0x3fu16 == bits & 0x3fu16) by (bit_vector);
    assert((bits & 0x3fu16) & !0x3fu16 == 0) by (bit_vector);
}

/// Walks the positions of a node list of a known length, first to last.
#[derive(Debug, Clone)]
pub struct NodeListIterator {
    idx: usize,
    len: usize,
}

impl NodeListIterator {
    /// The position that comes next.
    pub closed spec fn position(self) -> usize {
        self.idx
    }

    /// The length of the list.
    pub closed spec fn len(self) -> usize {
        self.len
    }

    pub fn new(len: usize) -> (iter: NodeListIterator)
        ensures
            iter.position() == 0,
            iter.len() == len,
    {
        NodeListIterator { idx: 0, len }
    }

    /// The next position in the list, or `None` once every position has been
    /// handed out.
    pub fn next(&mut self) -> (position: Option<usize>)
        ensures
            final(self).len() == old(self).len(),
            old(self).position() < old(self).len() ==> position == Some(old(self).position())
                && final(self).position() == old(self).position() + 1,
            old(self).position() >= old(self).len() ==> position is None && *final(self) == *old(
                self,
            ),
    {
        if self.idx >= self.len {
            return None;
        }
        let position = self.idx;
        self.idx += 1;
        Some(position)
    }
}

} // verus!
