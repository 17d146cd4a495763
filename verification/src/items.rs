//! The kinds of items of the coin economy's shop.
use vstd::prelude::*;

verus! {

/// What an item is.
#[derive(Debug, Clone, Copy, PartialEq, Eq, Structural)]
pub enum ItemType {
    MemberCard,
    BeggarCup,
}

/// An item of a user, by id and kind.
#[derive(Debug, Clone, Copy, PartialEq, Eq, Structural)]
pub struct Item {
    pub id: u64,
    /// the kind of item
    pub typ: ItemType,
}

} // verus!
