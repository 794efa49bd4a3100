//! Element-level vocabulary: where adjacent content is inserted, and the
//! recoverable failures an element operation can report.
use vstd::prelude::*;

verus! {

/// The selector handed to a query was not valid selector syntax.
#[derive(Debug, Clone, Copy, PartialEq, Eq, Structural)]
pub struct InvalidSelector;

/// The pointer id does not name an active pointer.
#[derive(Debug, Clone, Copy, PartialEq, Eq, Structural)]
pub struct InvalidPointerId;

/// An attribute name held a character that is not allowed there.
#[derive(Debug, Clone, Copy, PartialEq, Eq, Structural)]
pub struct InvalidCharacter;

impl InvalidSelector {
    /// The outcome of a host query that takes a selector: what the host
    /// found, or `InvalidSelector` whatever the host threw.
    pub fn from_host<T, E>(outcome: Result<T, E>) -> (result: Result<T, InvalidSelector>)
        ensures
            outcome matches Ok(found) ==> result == Ok::<T, InvalidSelector>(found),
            outcome is Err ==> result == Err::<T, InvalidSelector>(InvalidSelector),
    {
        match outcome {
            Ok(found) => Ok(found),
            Err(_) => Err(InvalidSelector),
        }
    }
}

impl InvalidPointerId {
    /// The outcome of a host call that takes a pointer id: what the host
    /// returned, or `InvalidPointerId` whatever the host threw.
    pub fn from_host<T, E>(outcome: Result<T, E>) -> (result: Result<T, InvalidPointerId>)
        ensures
            outcome matches Ok(done) ==> result == Ok::<T, InvalidPointerId>(done),
            outcome is Err ==> result == Err::<T, InvalidPointerId>(InvalidPointerId),
    {
        match outcome {
            Ok(done) => Ok(done),
            Err(_) => Err(InvalidPointerId),
        }
    }
}

impl InvalidCharacter {
    /// The outcome of a host call that takes an attribute name: what the host
    /// returned, or `InvalidCharacter` whatever the host threw.
    pub fn from_host<T, E>(outcome: Result<T, E>) -> (result: Result<T, InvalidCharacter>)
        ensures
            outcome matches Ok(done) ==> result == Ok::<T, InvalidCharacter>(done),
            outcome is Err ==> result == Err::<T, InvalidCharacter>(InvalidCharacter),
    {
        match outcome {
            Ok(done) => Ok(done),
            Err(_) => Err(InvalidCharacter),
        }
    }
}

/// Where, relative to an element, adjacent content is placed.
#[derive(Debug, Clone, Copy, PartialEq, Eq, Structural)]
pub enum InsertPosition {
    BeforeBegin,
    AfterBegin,
    BeforeEnd,
    AfterEnd,
}

impl InsertPosition {
    /// The keyword the host understands for this position.
    pub open spec fn wire(self) -> Seq<char> {
        match self {
            InsertPosition::BeforeBegin => "beforebegin"@,
            InsertPosition::AfterBegin => "afterbegin"@,
            InsertPosition::BeforeEnd => "beforeend"@,
            InsertPosition::AfterEnd => "afterend"@,
        }
    }

    pub fn as_web_sys(&self) -> (name: &'static str)
        ensures
            name@ == self.wire(),
    {
        match self {
            InsertPosition::BeforeBegin => "beforebegin",
            InsertPosition::AfterBegin => "afterbegin",
            InsertPosition::BeforeEnd => "beforeend",
            InsertPosition::AfterEnd => "afterend",
        }
    }
}

/// Distinct positions have distinct keywords.
pub proof fn lemma_insert_position_wire_injective(a: InsertPosition, b: InsertPosition)
    requires
        a.wire() == b.wire(),
    ensures
        a == b,
{
    reveal_strlit("beforebegin");
    reveal_strlit("afterbegin");
    reveal_strlit("beforeend");
    reveal_strlit("afterend");
    assert("beforebegin"@.len() == 11);
    assert("afterbegin"@.len() == 10);
    assert("beforeend"@.len() == 9);
    assert("afterend"@.len() == 8);
}

} // verus!
