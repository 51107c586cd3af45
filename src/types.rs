use vstd::prelude::*;

verus! {

/// An identity that may administer the registry or own a token, written as
/// its string key (the textual form of an account or contract address).
#[derive(Clone, Debug, PartialEq, Eq)]
pub struct Address {
    key: String,
}

impl View for Address {
    type V = Seq<char>;

    closed spec fn view(&self) -> Seq<char> {
        self.key@
    }
}

impl Address {
    /// The identity whose string key is `key`.
    pub fn new(key: String) -> (r: Address)
        ensures
            r@ == key@,
    {
        Address { key }
    }

    /// The string key of this identity.
    pub fn key(&self) -> (r: &String)
        ensures
            r@ == self@,
    {
        &self.key
    }

    /// An independent copy of this identity.
    pub fn duplicate(&self) -> (r: Address)
        ensures
            r@ == self@,
    {
        Address { key: self.key.clone() }
    }

    /// Whether two identities are the same.
    pub fn same_as(&self, other: &Address) -> (r: bool)
        ensures
            r == (self@ == other@),
    {
        self.key == other.key
    }
}

/// What a token describes: a hotel, a room in it, and a week of the year.
#[derive(Clone, Debug, PartialEq, Eq)]
pub struct TimeshareInfo {
    pub hotel: String,
    pub room: String,
    pub week: u32,
}

/// The mathematical value of a `TimeshareInfo`.
pub struct InfoView {
    pub hotel: Seq<char>,
    pub room: Seq<char>,
    pub week: u32,
}

impl View for TimeshareInfo {
    type V = InfoView;

    open spec fn view(&self) -> InfoView {
        InfoView { hotel: self.hotel@, room: self.room@, week: self.week }
    }
}

impl TimeshareInfo {
    /// A record with the given hotel, room and week.
    pub fn new(hotel: String, room: String, week: u32) -> (r: TimeshareInfo)
        ensures
            r.hotel == hotel,
            r.room == room,
            r.week == week,
    {
        TimeshareInfo { hotel, room, week }
    }

    /// An independent copy of this record.
    pub fn duplicate(&self) -> (r: TimeshareInfo)
        ensures
            r == *self,
    {
        TimeshareInfo { hotel: self.hotel.clone(), room: self.room.clone(), week: self.week }
    }
}

/// The keys of the registry's records. The administrator and the counter have
/// a slot each; every token has one record of each per-token kind, so the
/// metadata and the owner of one id never share a key.
#[derive(Clone, Copy, Debug, PartialEq, Eq, Structural)]
pub enum DataKey {
    Admin,
    Counter,
    Info(u64),
    Owner(u64),
}

/// Why an operation on the registry was refused. A refused operation leaves
/// the registry as it was.
#[derive(Clone, Copy, Debug, PartialEq, Eq, Structural)]
pub enum RegistryError {
    /// `initialize` was called on a registry that already has an administrator.
    AlreadyInitialized,
    /// The registry has no administrator yet.
    NotInitialized,
    /// The caller is not the identity the operation needs, or did not prove it.
    Unauthorized,
    /// The identity that offers the token does not own it.
    NotOwner,
    /// No token has this id.
    TokenNotFound,
    /// Every id that the counter can hold has been issued.
    CounterOverflow,
}

} // verus!
