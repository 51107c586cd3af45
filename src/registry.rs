use vstd::prelude::*;

use crate::types::{Address, DataKey, InfoView, RegistryError, TimeshareInfo};

verus! {

/// The registry as a mathematical value. Token ids count from 1: token `id`
/// has its metadata at `infos[id - 1]` and its owner at `owners[id - 1]`, and
/// the counter (the last id issued) is the number of tokens.
pub struct RegistryModel {
    pub admin: Option<Seq<char>>,
    pub infos: Seq<InfoView>,
    pub owners: Seq<Seq<char>>,
}

impl RegistryModel {
    /// Every minted id has both records, ids fit the counter's type, and an
    /// uninitialized registry holds no token.
    pub open spec fn wf(self) -> bool {
        &&& self.infos.len() == self.owners.len()
        &&& self.infos.len() <= u64::MAX
        &&& self.admin is None ==> self.infos.len() == 0
    }

    /// The last id issued, which is also the number of tokens.
    pub open spec fn counter(self) -> nat {
        self.infos.len()
    }

    /// Whether `id` was issued, so that the token has both records.
    pub open spec fn contains_token(self, id: u64) -> bool {
        1 <= id <= self.infos.len()
    }

    /// Whether the registry holds a record under `key`.
    pub open spec fn has(self, key: DataKey) -> bool {
        match key {
            DataKey::Admin => self.admin is Some,
            DataKey::Counter => self.admin is Some,
            DataKey::Info(id) => self.contains_token(id),
            DataKey::Owner(id) => self.contains_token(id),
        }
    }
}

/// A registry that was never initialized.
pub open spec fn empty_registry() -> RegistryModel {
    RegistryModel { admin: None, infos: Seq::empty(), owners: Seq::empty() }
}

/// The outcome of `initialize(admin)` on `m`, and the registry after it.
pub open spec fn spec_initialize(m: RegistryModel, admin: Seq<char>) -> (
    Result<(), RegistryError>,
    RegistryModel,
) {
    if m.admin is Some {
        (Err(RegistryError::AlreadyInitialized), m)
    } else {
        (Ok(()), RegistryModel { admin: Some(admin), infos: Seq::empty(), owners: Seq::empty() })
    }
}

/// The outcome of a `mint` of `info` for `to` on `m` by `caller`, where
/// `authorized` says whether the caller proved its identity, and the registry
/// after it.
pub open spec fn spec_mint(
    m: RegistryModel,
    caller: Seq<char>,
    authorized: bool,
    to: Seq<char>,
    info: InfoView,
) -> (Result<u64, RegistryError>, RegistryModel) {
    match m.admin {
        None => (Err(RegistryError::NotInitialized), m),
        Some(admin) => {
            if admin != caller || !authorized {
                (Err(RegistryError::Unauthorized), m)
            } else if m.infos.len() >= u64::MAX {
                (Err(RegistryError::CounterOverflow), m)
            } else {
                (
                    Ok((m.infos.len() + 1) as u64),
                    RegistryModel { admin: m.admin, infos: m.infos.push(info), owners: m.owners.push(to) },
                )
            }
        },
    }
}

/// The outcome of a `transfer` of token `id` from `from` to `to` on `m` by
/// `caller`, where `authorized` says whether the caller proved its identity,
/// and the registry after it.
pub open spec fn spec_transfer(
    m: RegistryModel,
    caller: Seq<char>,
    authorized: bool,
    from: Seq<char>,
    to: Seq<char>,
    id: u64,
) -> (Result<(), RegistryError>, RegistryModel) {
    if m.admin is None {
        (Err(RegistryError::NotInitialized), m)
    } else if !m.contains_token(id) {
        (Err(RegistryError::TokenNotFound), m)
    } else if caller != from || !authorized {
        (Err(RegistryError::Unauthorized), m)
    } else if m.owners[id - 1] != from {
        (Err(RegistryError::NotOwner), m)
    } else {
        (Ok(()), RegistryModel { admin: m.admin, infos: m.infos, owners: m.owners.update(id - 1, to) })
    }
}

/// The metadata of token `id` in `m`.
pub open spec fn spec_get_info(m: RegistryModel, id: u64) -> Result<InfoView, RegistryError> {
    if m.admin is None {
        Err(RegistryError::NotInitialized)
    } else if !m.contains_token(id) {
        Err(RegistryError::TokenNotFound)
    } else {
        Ok(m.infos[id - 1])
    }
}

/// The owner of token `id` in `m`.
pub open spec fn spec_owner_of(m: RegistryModel, id: u64) -> Result<Seq<char>, RegistryError> {
    if m.admin is None {
        Err(RegistryError::NotInitialized)
    } else if !m.contains_token(id) {
        Err(RegistryError::TokenNotFound)
    } else {
        Ok(m.owners[id - 1])
    }
}

/// A result of `get_info`, with the record replaced by its view.
pub open spec fn info_result_view(r: Result<TimeshareInfo, RegistryError>) -> Result<InfoView, RegistryError> {
    match r {
        Ok(i) => Ok(i@),
        Err(e) => Err(e),
    }
}

/// A result of `owner_of`, with the identity replaced by its view.
pub open spec fn owner_result_view(r: Result<Address, RegistryError>) -> Result<Seq<char>, RegistryError> {
    match r {
        Ok(a) => Ok(a@),
        Err(e) => Err(e),
    }
}

/// The view of an optional identity.
pub open spec fn admin_view(a: Option<Address>) -> Option<Seq<char>> {
    match a {
        Some(a) => Some(a@),
        None => None,
    }
}

/// The registry that the stored records describe.
pub open spec fn records_model(admin: Option<Address>, infos: Seq<TimeshareInfo>, owners: Seq<Address>) -> RegistryModel {
    RegistryModel {
        admin: admin_view(admin),
        infos: infos.map_values(|i: TimeshareInfo| i@),
        owners: owners.map_values(|a: Address| a@),
    }
}

/// The registry: an administrator, a counter of issued ids, and the metadata
/// and owner of every token.
pub struct HotelTimeshareContract {
    admin: Option<Address>,
    counter: u64,
    infos: Vec<TimeshareInfo>,
    owners: Vec<Address>,
}

impl View for HotelTimeshareContract {
    type V = RegistryModel;

    closed spec fn view(&self) -> RegistryModel {
        RegistryModel {
            admin: admin_view(self.admin),
            infos: self.infos@.map_values(|i: TimeshareInfo| i@),
            owners: self.owners@.map_values(|a: Address| a@),
        }
    }
}

impl HotelTimeshareContract {
    /// The counter agrees with the number of records of each kind, and an
    /// uninitialized registry holds none.
    pub closed spec fn wf(&self) -> bool {
        &&& self.infos.len() == self.counter
        &&& self.owners.len() == self.counter
        &&& self.admin is None ==> self.counter == 0
    }

    /// A registry that was never initialized.
    pub fn new() -> (r: HotelTimeshareContract)
        ensures
            r.wf(),
            r@ == empty_registry(),
    {
        let r = HotelTimeshareContract { admin: None, counter: 0, infos: Vec::new(), owners: Vec::new() };
        proof {
            assert(r@.infos =~= Seq::<InfoView>::empty());
            assert(r@.owners =~= Seq::<Seq<char>>::empty());
        }
        r
    }

    /// A well-formed registry has a well-formed model, so the laws about
    /// models apply to it.
    pub proof fn lemma_wf(&self)
        requires
            self.wf(),
        ensures
            self@.wf(),
    {
    }

    /// The registry that a host has stored as records: the administrator, if
    /// any, and the metadata and owner of each token in id order. Records that
    /// cannot come from the operations (a token without both records, tokens
    /// without an administrator, more tokens than ids) give `None`.
    pub fn from_records(admin: Option<Address>, infos: Vec<TimeshareInfo>, owners: Vec<Address>) -> (r:
        Option<HotelTimeshareContract>)
        ensures
            r is Some <==> records_model(admin, infos@, owners@).wf(),
            r is Some ==> r->Some_0.wf() && r->Some_0@ == records_model(admin, infos@, owners@),
    {
        let n = infos.len();
        if n != owners.len() || n as u128 > u64::MAX as u128 || (admin.is_none() && n != 0) {
            return None;
        }
        Some(HotelTimeshareContract { admin, counter: n as u64, infos, owners })
    }

    /// The records that describe this registry, for a host to store:
    /// the administrator, if any, and the metadata and owner of each token in
    /// id order.
    pub fn into_records(self) -> (r: (Option<Address>, Vec<TimeshareInfo>, Vec<Address>))
        requires
            self.wf(),
        ensures
            records_model(r.0, r.1@, r.2@) == self@,
    {
        (self.admin, self.infos, self.owners)
    }

    /// The administrator, if the registry has been initialized.
    pub fn admin(&self) -> (r: Option<Address>)
        requires
            self.wf(),
        ensures
            r is Some <==> self@.admin is Some,
            r is Some ==> self@.admin == Some(r->Some_0@),
    {
        match &self.admin {
            Some(a) => Some(a.duplicate()),
            None => None,
        }
    }

    /// The last id issued, which is the number of tokens.
    pub fn counter(&self) -> (r: u64)
        requires
            self.wf(),
        ensures
            r == self@.counter(),
    {
        self.counter
    }

    /// Whether a record is stored under `key`.
    pub fn has(&self, key: &DataKey) -> (r: bool)
        requires
            self.wf(),
        ensures
            r == self@.has(*key),
    {
        match key {
            DataKey::Admin => self.admin.is_some(),
            DataKey::Counter => self.admin.is_some(),
            DataKey::Info(id) => 1 <= *id && *id <= self.counter,
            DataKey::Owner(id) => 1 <= *id && *id <= self.counter,
        }
    }

    /// Makes `admin` the administrator of a registry that has none, with the
    /// counter at 0. A registry that already has one keeps it.
    pub fn initialize(&mut self, admin: Address) -> (r: Result<(), RegistryError>)
        requires
            old(self).wf(),
        ensures
            final(self).wf(),
            (r, final(self)@) == spec_initialize(old(self)@, admin@),
    {
        if self.admin.is_some() {
            return Err(RegistryError::AlreadyInitialized);
        }
        self.admin = Some(admin);
        self.counter = 0;
        self.infos = Vec::new();
        self.owners = Vec::new();
        proof {
            assert(self@.infos =~= Seq::<InfoView>::empty());
            assert(self@.owners =~= Seq::<Seq<char>>::empty());
        }
        Ok(())
    }

    /// Issues the next id to a new token that describes `hotel`, `room` and
    /// `week` and belongs to `to`. Only the administrator may mint, and only
    /// where `authorized` says that the host has proved the caller's identity.
    pub fn mint(
        &mut self,
        caller: &Address,
        authorized: bool,
        to: Address,
        hotel: String,
        room: String,
        week: u32,
    ) -> (r: Result<u64, RegistryError>)
        requires
            old(self).wf(),
        ensures
            final(self).wf(),
            (r, final(self)@) == spec_mint(
                old(self)@,
                caller@,
                authorized,
                to@,
                (InfoView { hotel: hotel@, room: room@, week }),
            ),
    {
        let is_admin = match &self.admin {
            None => {
                return Err(RegistryError::NotInitialized);
            },
            Some(admin) => admin.same_as(caller),
        };
        if !is_admin || !authorized {
            return Err(RegistryError::Unauthorized);
        }
        if self.counter == u64::MAX {
            return Err(RegistryError::CounterOverflow);
        }
        let token_id: u64 = self.counter + 1;
        let ghost before = self@;
        let info = TimeshareInfo::new(hotel, room, week);
        self.infos.push(info);
        self.owners.push(to);
        self.counter = token_id;
        proof {
            assert(self@.infos =~= before.infos.push(info@));
            assert(self@.owners =~= before.owners.push(to@));
        }
        Ok(token_id)
    }

    /// Hands token `token_id` from `from` to `to`. Only `from` may do so, only
    /// where `authorized` says that the host has proved the caller's identity,
    /// and only while `from` owns the token. `to` may be `from`.
    pub fn transfer(
        &mut self,
        caller: &Address,
        authorized: bool,
        from: &Address,
        to: Address,
        token_id: u64,
    ) -> (r: Result<(), RegistryError>)
        requires
            old(self).wf(),
        ensures
            final(self).wf(),
            (r, final(self)@) == spec_transfer(old(self)@, caller@, authorized, from@, to@, token_id),
    {
        if !self.has(&DataKey::Admin) {
            return Err(RegistryError::NotInitialized);
        }
        if !self.has(&DataKey::Owner(token_id)) {
            return Err(RegistryError::TokenNotFound);
        }
        if !caller.same_as(from) || !authorized {
            return Err(RegistryError::Unauthorized);
        }
        let index = (token_id - 1) as usize;
        if !self.owners[index].same_as(from) {
            return Err(RegistryError::NotOwner);
        }
        let ghost before = self@;
        self.owners.set(index, to);
        proof {
            assert(self@.infos =~= before.infos);
            assert(self@.owners =~= before.owners.update(index as int, to@));
        }
        Ok(())
    }

    /// The metadata of token `token_id`, as a copy that callers may keep.
    pub fn get_info(&self, token_id: u64) -> (r: Result<TimeshareInfo, RegistryError>)
        requires
            self.wf(),
        ensures
            info_result_view(r) == spec_get_info(self@, token_id),
    {
        if !self.has(&DataKey::Admin) {
            return Err(RegistryError::NotInitialized);
        }
        if !self.has(&DataKey::Info(token_id)) {
            return Err(RegistryError::TokenNotFound);
        }
        Ok(self.infos[(token_id - 1) as usize].duplicate())
    }

    /// The owner of token `token_id`.
    pub fn owner_of(&self, token_id: u64) -> (r: Result<Address, RegistryError>)
        requires
            self.wf(),
        ensures
            owner_result_view(r) == spec_owner_of(self@, token_id),
    {
        if !self.has(&DataKey::Admin) {
            return Err(RegistryError::NotInitialized);
        }
        if !self.has(&DataKey::Owner(token_id)) {
            return Err(RegistryError::TokenNotFound);
        }
        Ok(self.owners[(token_id - 1) as usize].duplicate())
    }
}

} // verus!
