use dommer::node::{
    DocumentPosition, NodeListIterator, NodeType, CONTAINED_BY, CONTAINS, DISCONNECTED,
    DOCUMENT_POSITION_BITS, FOLLOWING, IMPLEMENTATION_SPECIFIC, PRECEDING,
};

#[test]
fn node_types_follow_the_host_numbers() {
    assert_eq!(NodeType::from_web_sys(web_sys::Node::ELEMENT_NODE), NodeType::Element);
    assert_eq!(NodeType::from_web_sys(web_sys::Node::ATTRIBUTE_NODE), NodeType::Attribute);
    assert_eq!(NodeType::from_web_sys(web_sys::Node::TEXT_NODE), NodeType::Text);
    assert_eq!(NodeType::from_web_sys(web_sys::Node::CDATA_SECTION_NODE), NodeType::CdataSection);
    assert_eq!(
        NodeType::from_web_sys(web_sys::Node::ENTITY_REFERENCE_NODE),
        NodeType::EntityReference
    );
    assert_eq!(NodeType::from_web_sys(web_sys::Node::ENTITY_NODE), NodeType::EntityNode);
    assert_eq!(
        NodeType::from_web_sys(web_sys::Node::PROCESSING_INSTRUCTION_NODE),
        NodeType::ProcessingInstruction
    );
    assert_eq!(NodeType::from_web_sys(web_sys::Node::COMMENT_NODE), NodeType::Comment);
    assert_eq!(NodeType::from_web_sys(web_sys::Node::DOCUMENT_NODE), NodeType::Document);
    assert_eq!(NodeType::from_web_sys(web_sys::Node::DOCUMENT_TYPE_NODE), NodeType::DocumentType);
    assert_eq!(
        NodeType::from_web_sys(web_sys::Node::DOCUMENT_FRAGMENT_NODE),
        NodeType::DocumentFragment
    );
    assert_eq!(NodeType::from_web_sys(web_sys::Node::NOTATION_NODE), NodeType::Notation);
}

#[test]
fn node_types_by_number() {
    let kinds = [
        NodeType::Element,
        NodeType::Attribute,
        NodeType::Text,
        NodeType::CdataSection,
        NodeType::EntityReference,
        NodeType::EntityNode,
        NodeType::ProcessingInstruction,
        NodeType::Comment,
        NodeType::Document,
        NodeType::DocumentType,
        NodeType::DocumentFragment,
        NodeType::Notation,
    ];
    for (i, kind) in kinds.iter().enumerate() {
        assert_eq!(NodeType::from_web_sys(i as u16 + 1), *kind);
    }
}

#[test]
fn position_flags_follow_the_host_bits() {
    assert_eq!(DISCONNECTED, web_sys::Node::DOCUMENT_POSITION_DISCONNECTED);
    assert_eq!(PRECEDING, web_sys::Node::DOCUMENT_POSITION_PRECEDING);
    assert_eq!(FOLLOWING, web_sys::Node::DOCUMENT_POSITION_FOLLOWING);
    assert_eq!(CONTAINS, web_sys::Node::DOCUMENT_POSITION_CONTAINS);
    assert_eq!(CONTAINED_BY, web_sys::Node::DOCUMENT_POSITION_CONTAINED_BY);
    assert_eq!(IMPLEMENTATION_SPECIFIC, web_sys::Node::DOCUMENT_POSITION_IMPLEMENTATION_SPECIFIC);
    assert_eq!(
        DOCUMENT_POSITION_BITS,
        DISCONNECTED | PRECEDING | FOLLOWING | CONTAINS | CONTAINED_BY | IMPLEMENTATION_SPECIFIC
    );
    assert_eq!(DOCUMENT_POSITION_BITS, 0x3f);
}

#[test]
fn truncation_drops_unknown_bits() {
    assert_eq!(DocumentPosition::from_bits_truncate(0xffff).bits(), 0x3f);
    assert_eq!(DocumentPosition::from_bits_truncate(0x40).bits(), 0);
    assert_eq!(DocumentPosition::from_bits_truncate(0x4a).bits(), 0x0a);
    assert_eq!(DocumentPosition::from_bits_truncate(PRECEDING | CONTAINS).bits(), 10);
    assert_eq!(DocumentPosition::from_bits_truncate(0), DocumentPosition::empty());
    assert_eq!(DocumentPosition::from_bits_truncate(0xffff), DocumentPosition::all());
}

#[test]
fn from_bits_refuses_unknown_bits() {
    assert_eq!(DocumentPosition::from_bits(0x40), None);
    assert_eq!(DocumentPosition::from_bits(0x8001), None);
    assert_eq!(DocumentPosition::from_bits(0x3f), Some(DocumentPosition::all()));
    assert_eq!(DocumentPosition::from_bits(0), Some(DocumentPosition::empty()));
    assert_eq!(DocumentPosition::from_bits(FOLLOWING | CONTAINED_BY).map(|p| p.bits()), Some(20));
}

#[test]
fn position_queries() {
    let position = DocumentPosition::from_bits_truncate(FOLLOWING | CONTAINED_BY);
    assert!(position.contains(DocumentPosition::from_bits_truncate(FOLLOWING)));
    assert!(position.contains(DocumentPosition::from_bits_truncate(FOLLOWING | CONTAINED_BY)));
    assert!(position.contains(DocumentPosition::empty()));
    assert!(!position.contains(DocumentPosition::from_bits_truncate(FOLLOWING | PRECEDING)));
    assert!(position.intersects(DocumentPosition::from_bits_truncate(FOLLOWING | PRECEDING)));
    assert!(!position.intersects(DocumentPosition::from_bits_truncate(PRECEDING)));
    assert!(!position.intersects(DocumentPosition::empty()));
    assert!(!position.is_empty());
    assert!(DocumentPosition::empty().is_empty());
    assert!(DocumentPosition::all().contains(position));
}

#[test]
fn iterator_walks_every_position_once_in_order() {
    let mut iter = NodeListIterator::new(3);
    assert_eq!(iter.next(), Some(0));
    assert_eq!(iter.next(), Some(1));
    assert_eq!(iter.next(), Some(2));
    assert_eq!(iter.next(), None);
    assert_eq!(iter.next(), None);
}

#[test]
fn iterator_over_an_empty_list_ends_at_once() {
    let mut iter = NodeListIterator::new(0);
    assert_eq!(iter.next(), None);
    assert_eq!(iter.next(), None);
}
