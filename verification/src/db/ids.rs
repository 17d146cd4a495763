//! Typed ids of servers, channels, users and items.
use vstd::prelude::*;

use crate::db::error::DbError;
use crate::text::{format_u64, nat_digits, parse_u64_spec, parse_u64_str, string_of, IntErrorKind};

verus! {

/// `r` is what reading the id text `s` gives: the number, or the parse
/// error of a text that is not one.
pub open spec fn id_parse_matches(r: Result<u64, DbError>, s: Seq<char>) -> bool {
    match r {
        Ok(v) => parse_u64_spec(s) == Ok::<int, IntErrorKind>(v as int),
        Err(DbError::IdParse(k)) => parse_u64_spec(s) == Err::<int, IntErrorKind>(k),
        Err(_) => false,
    }
}

/// Reads an id written in decimal.
pub fn parse_id(s: &str) -> (r: Result<u64, DbError>)
    ensures
        id_parse_matches(r, s@),
{
    match parse_u64_str(s) {
        Ok(v) => Ok(v),
        Err(k) => Err(DbError::IdParse(k)),
    }
}

/// An id written in decimal.
pub fn id_text(id: u64) -> (r: String)
    ensures
        r@ == nat_digits(id as nat),
{
    string_of(&format_u64(id))
}

/// A server (a Discord guild).
#[derive(Debug, Clone, Copy, PartialEq, Eq, Structural)]
pub struct ServerId(pub u64);

impl ServerId {
    /// The id as a number.
    pub fn as_u64(&self) -> (r: &u64)
        ensures
            *r == self.0,
    {
        &self.0
    }

    /// The id in decimal (`Display` for the id).
    pub fn to_string(&self) -> (r: String)
        ensures
            r@ == nat_digits(self.0 as nat),
    {
        id_text(self.0)
    }

    /// The id written in decimal in `s`.
    pub fn from_str(s: &str) -> (r: Result<Self, DbError>)
        ensures
            id_parse_matches(
                match r {
                    Ok(id) => Ok(id.0),
                    Err(e) => Err(e),
                },
                s@,
            ),
    {
        match parse_id(s) {
            Ok(v) => Ok(ServerId(v)),
            Err(e) => Err(e),
        }
    }

    /// The id as a signed number, wrapping past `i64::MAX`.
    pub fn to_i64(self) -> (r: i64)
        ensures
            r == self.0 as i64,
    {
        self.0 as i64
    }
}

impl From<u64> for ServerId {
    fn from(id: u64) -> (r: Self) {
        ServerId(id)
    }
}

impl vstd::std_specs::convert::FromSpecImpl<u64> for ServerId {
    open spec fn obeys_from_spec() -> bool {
        true
    }

    open spec fn from_spec(id: u64) -> Self {
        ServerId(id)
    }
}

impl From<ServerId> for u64 {
    fn from(id: ServerId) -> (r: u64) {
        id.0
    }
}

impl vstd::std_specs::convert::FromSpecImpl<ServerId> for u64 {
    open spec fn obeys_from_spec() -> bool {
        true
    }

    open spec fn from_spec(id: ServerId) -> u64 {
        id.0
    }
}

/// A chat channel.
#[derive(Debug, Clone, Copy, PartialEq, Eq, Structural)]
pub struct ChannelId(pub u64);

impl ChannelId {
    /// The id as a number.
    pub fn as_u64(&self) -> (r: &u64)
        ensures
            *r == self.0,
    {
        &self.0
    }

    /// The id in decimal (`Display` for the id).
    pub fn to_string(&self) -> (r: String)
        ensures
            r@ == nat_digits(self.0 as nat),
    {
        id_text(self.0)
    }

    /// The id written in decimal in `s`.
    pub fn from_str(s: &str) -> (r: Result<Self, DbError>)
        ensures
            id_parse_matches(
                match r {
                    Ok(id) => Ok(id.0),
                    Err(e) => Err(e),
                },
                s@,
            ),
    {
        match parse_id(s) {
            Ok(v) => Ok(ChannelId(v)),
            Err(e) => Err(e),
        }
    }

    /// The id as a signed number, wrapping past `i64::MAX`.
    pub fn to_i64(self) -> (r: i64)
        ensures
            r == self.0 as i64,
    {
        self.0 as i64
    }
}

impl From<u64> for ChannelId {
    fn from(id: u64) -> (r: Self) {
        ChannelId(id)
    }
}

impl vstd::std_specs::convert::FromSpecImpl<u64> for ChannelId {
    open spec fn obeys_from_spec() -> bool {
        true
    }

    open spec fn from_spec(id: u64) -> Self {
        ChannelId(id)
    }
}

impl From<ChannelId> for u64 {
    fn from(id: ChannelId) -> (r: u64) {
        id.0
    }
}

impl vstd::std_specs::convert::FromSpecImpl<ChannelId> for u64 {
    open spec fn obeys_from_spec() -> bool {
        true
    }

    open spec fn from_spec(id: ChannelId) -> u64 {
        id.0
    }
}

/// A chat user.
#[derive(Debug, Clone, Copy, PartialEq, Eq, Structural)]
pub struct UserId(pub u64);

impl UserId {
    /// The id as a number.
    pub fn as_u64(&self) -> (r: &u64)
        ensures
            *r == self.0,
    {
        &self.0
    }

    /// The id in decimal (`Display` for the id).
    pub fn to_string(&self) -> (r: String)
        ensures
            r@ == nat_digits(self.0 as nat),
    {
        id_text(self.0)
    }

    /// The id written in decimal in `s`.
    pub fn from_str(s: &str) -> (r: Result<Self, DbError>)
        ensures
            id_parse_matches(
                match r {
                    Ok(id) => Ok(id.0),
                    Err(e) => Err(e),
                },
                s@,
            ),
    {
        match parse_id(s) {
            Ok(v) => Ok(UserId(v)),
            Err(e) => Err(e),
        }
    }

    /// The id as a signed number, wrapping past `i64::MAX`.
    pub fn to_i64(self) -> (r: i64)
        ensures
            r == self.0 as i64,
    {
        self.0 as i64
    }
}

impl From<u64> for UserId {
    fn from(id: u64) -> (r: Self) {
        UserId(id)
    }
}

impl vstd::std_specs::convert::FromSpecImpl<u64> for UserId {
    open spec fn obeys_from_spec() -> bool {
        true
    }

    open spec fn from_spec(id: u64) -> Self {
        UserId(id)
    }
}

impl From<UserId> for u64 {
    fn from(id: UserId) -> (r: u64) {
        id.0
    }
}

impl vstd::std_specs::convert::FromSpecImpl<UserId> for u64 {
    open spec fn obeys_from_spec() -> bool {
        true
    }

    open spec fn from_spec(id: UserId) -> u64 {
        id.0
    }
}

/// An item of the shop.
#[derive(Debug, Clone, Copy, PartialEq, Eq, Structural)]
pub struct ItemId(pub u64);

impl ItemId {
    /// The id as a number.
    pub fn as_u64(&self) -> (r: &u64)
        ensures
            *r == self.0,
    {
        &self.0
    }

    /// The id in decimal (`Display` for the id).
    pub fn to_string(&self) -> (r: String)
        ensures
            r@ == nat_digits(self.0 as nat),
    {
        id_text(self.0)
    }

    /// The id written in decimal in `s`.
    pub fn from_str(s: &str) -> (r: Result<Self, DbError>)
        ensures
            id_parse_matches(
                match r {
                    Ok(id) => Ok(id.0),
                    Err(e) => Err(e),
                },
                s@,
            ),
    {
        match parse_id(s) {
            Ok(v) => Ok(ItemId(v)),
            Err(e) => Err(e),
        }
    }

    /// The id as a signed number, wrapping past `i64::MAX`.
    pub fn to_i64(self) -> (r: i64)
        ensures
            r == self.0 as i64,
    {
        self.0 as i64
    }
}

impl From<u64> for ItemId {
    fn from(id: u64) -> (r: Self) {
        ItemId(id)
    }
}

impl vstd::std_specs::convert::FromSpecImpl<u64> for ItemId {
    open spec fn obeys_from_spec() -> bool {
        true
    }

    open spec fn from_spec(id: u64) -> Self {
        ItemId(id)
    }
}

impl From<ItemId> for u64 {
    fn from(id: ItemId) -> (r: u64) {
        id.0
    }
}

impl vstd::std_specs::convert::FromSpecImpl<ItemId> for u64 {
    open spec fn obeys_from_spec() -> bool {
        true
    }

    open spec fn from_spec(id: ItemId) -> u64 {
        id.0
    }
}

} // verus!
