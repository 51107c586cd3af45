use vstd::prelude::*;

use crate::registry::{spec_get_info, spec_initialize, spec_mint, spec_owner_of, spec_transfer, RegistryModel};
use crate::types::{InfoView, RegistryError};

verus! {

/// One call on the registry, with the values its operation takes.
pub enum Call {
    Initialize { admin: Seq<char> },
    Mint { caller: Seq<char>, authorized: bool, to: Seq<char>, info: InfoView },
    Transfer { caller: Seq<char>, authorized: bool, from: Seq<char>, to: Seq<char>, token_id: u64 },
}

/// The registry after `c` on `m`, whether the call succeeds or fails.
pub open spec fn apply(m: RegistryModel, c: Call) -> RegistryModel {
    match c {
        Call::Initialize { admin } => spec_initialize(m, admin).1,
        Call::Mint { caller, authorized, to, info } => spec_mint(m, caller, authorized, to, info).1,
        Call::Transfer { caller, authorized, from, to, token_id } =>
            spec_transfer(m, caller, authorized, from, to, token_id).1,
    }
}

/// The id that `c` issues on `m`: some id for a mint that succeeds, none for
/// any other call.
pub open spec fn issued_id(m: RegistryModel, c: Call) -> Option<u64> {
    match c {
        Call::Mint { caller, authorized, to, info } => match spec_mint(m, caller, authorized, to, info).0 {
            Ok(id) => Some(id),
            Err(_) => None,
        },
        _ => None,
    }
}

/// The registry after the calls, in order, starting from `m`.
pub open spec fn run(m: RegistryModel, calls: Seq<Call>) -> RegistryModel
    decreases calls.len(),
{
    if calls.len() == 0 {
        m
    } else {
        apply(run(m, calls.drop_last()), calls.last())
    }
}

/// The ids that the calls issue, in call order, starting from `m`.
pub open spec fn issued_ids(m: RegistryModel, calls: Seq<Call>) -> Seq<u64>
    decreases calls.len(),
{
    if calls.len() == 0 {
        Seq::empty()
    } else {
        let before = issued_ids(m, calls.drop_last());
        match issued_id(run(m, calls.drop_last()), calls.last()) {
            Some(id) => before.push(id),
            None => before,
        }
    }
}

/// Every call keeps the registry well formed.
pub proof fn lemma_apply_wf(m: RegistryModel, c: Call)
    requires
        m.wf(),
    ensures
        apply(m, c).wf(),
        issued_id(m, c) is None ==> apply(m, c).counter() == m.counter(),
        issued_id(m, c) is Some ==> apply(m, c).counter() == m.counter() + 1
            && issued_id(m, c) == Some((m.counter() + 1) as u64),
{
}

/// A second `initialize` fails with `AlreadyInitialized` and leaves the
/// registry as the first one made it, whoever it names.
pub proof fn lemma_initialize_twice(m: RegistryModel, first: Seq<char>, second: Seq<char>)
    ensures
        spec_initialize(spec_initialize(m, first).1, second) == (
            Err::<(), RegistryError>(RegistryError::AlreadyInitialized),
            spec_initialize(m, first).1,
        ),
{
}

/// Over any sequence of calls, successful or not, the mints that succeed
/// issue the ids that follow the counter one by one, with no gap and no
/// repeat; from a registry with no tokens they are `1, 2, ..., N`.
pub proof fn lemma_issued_ids_dense(m: RegistryModel, calls: Seq<Call>)
    requires
        m.wf(),
    ensures
        run(m, calls).wf(),
        run(m, calls).counter() == m.counter() + issued_ids(m, calls).len(),
        forall|i: int|
            0 <= i < issued_ids(m, calls).len() ==> issued_ids(m, calls)[i] == m.counter() + i + 1,
    decreases calls.len(),
{
    if calls.len() > 0 {
        let prefix = calls.drop_last();
        lemma_issued_ids_dense(m, prefix);
        lemma_apply_wf(run(m, prefix), calls.last());
    }
}

/// Right after a mint succeeds, the new token holds the metadata it was given
/// and belongs to its recipient.
pub proof fn lemma_mint_records(
    m: RegistryModel,
    caller: Seq<char>,
    authorized: bool,
    to: Seq<char>,
    info: InfoView,
)
    requires
        m.wf(),
        spec_mint(m, caller, authorized, to, info).0 is Ok,
    ensures
        ({
            let (r, after) = spec_mint(m, caller, authorized, to, info);
            &&& spec_get_info(after, r->Ok_0) == Ok::<InfoView, RegistryError>(info)
            &&& spec_owner_of(after, r->Ok_0) == Ok::<Seq<char>, RegistryError>(to)
        }),
{
}

/// A mint by anyone but the administrator fails with `Unauthorized` and
/// changes nothing.
pub proof fn lemma_mint_needs_admin(
    m: RegistryModel,
    caller: Seq<char>,
    authorized: bool,
    to: Seq<char>,
    info: InfoView,
)
    requires
        m.admin is Some,
        m.admin != Some(caller),
    ensures
        spec_mint(m, caller, authorized, to, info) == (Err::<u64, RegistryError>(RegistryError::Unauthorized), m),
{
}

/// A transfer of an existing token by a caller other than `from` fails with
/// `Unauthorized`; one by an authorized `from` that does not own the token
/// fails with `NotOwner`. Either way the owner records stay as they were.
pub proof fn lemma_transfer_needs_owner(
    m: RegistryModel,
    caller: Seq<char>,
    authorized: bool,
    from: Seq<char>,
    to: Seq<char>,
    id: u64,
)
    requires
        m.wf(),
        m.admin is Some,
        m.contains_token(id),
        caller != from || (authorized && m.owners[id - 1] != from),
    ensures
        ({
            let (r, after) = spec_transfer(m, caller, authorized, from, to, id);
            &&& caller != from ==> r == Err::<(), RegistryError>(RegistryError::Unauthorized)
            &&& caller == from ==> r == Err::<(), RegistryError>(RegistryError::NotOwner)
            &&& after == m
        }),
{
}

/// A transfer from `a` to `b` followed by one from `b` back to `a`, each by
/// its authorized sender, both succeed and restore the registry exactly.
pub proof fn lemma_transfer_round_trip(m: RegistryModel, a: Seq<char>, b: Seq<char>, id: u64)
    requires
        m.wf(),
        m.admin is Some,
        m.contains_token(id),
        m.owners[id - 1] == a,
    ensures
        ({
            let (r1, m1) = spec_transfer(m, a, true, a, b, id);
            let (r2, m2) = spec_transfer(m1, b, true, b, a, id);
            &&& r1 is Ok
            &&& r2 is Ok
            &&& m2 == m
        }),
{
    let m1 = spec_transfer(m, a, true, a, b, id).1;
    let m2 = spec_transfer(m1, b, true, b, a, id).1;
    assert(m2.owners =~= m.owners);
}

} // verus!
