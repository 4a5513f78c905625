//! The address manager: an owner who registers addresses and records
//! Stellar addresses for commitments.
//!
//! The caller of each owner-only call must authorize it.

use crate::identity::errors::AddressManagerError;
use crate::identity::storage::{self, CoreState, CoreStorage};
use crate::ids::{Address, Hash32};
use crate::store::opt_view;
use vstd::prelude::*;

verus! {

pub struct AddressManager;

/// Why the address manager refuses an owner-only call from `caller`, if it
/// does on account of the owner.
pub open spec fn owner_check(s: CoreState, caller: Seq<u8>) -> Option<AddressManagerError> {
    match s.manager_owner {
        None => Some(AddressManagerError::NotInitialized),
        Some(o) => if o == caller {
            None
        } else {
            Some(AddressManagerError::NotOwner)
        },
    }
}

/// `init(owner)`: refused once an owner is set.
pub open spec fn init_spec(s: CoreState, owner: Seq<u8>) -> Result<CoreState, AddressManagerError> {
    if s.manager_owner is Some {
        Err(AddressManagerError::AlreadyInitialized)
    } else {
        Ok(CoreState { manager_owner: Some(owner), ..s })
    }
}

/// `set_master_stellar_address(caller, _, stellar_address)`.
pub open spec fn set_master_stellar_address_spec(
    s: CoreState,
    caller: Seq<u8>,
    stellar_address: Seq<u8>,
) -> Result<CoreState, AddressManagerError> {
    match owner_check(s, caller) {
        Some(e) => Err(e),
        None => if !s.registered.contains_key(caller) {
            Err(AddressManagerError::AddressNotRegistered)
        } else {
            Ok(CoreState { master: Some(stellar_address), ..s })
        },
    }
}

/// `add_stellar_address(caller, commitment, stellar_address)`.
pub open spec fn add_stellar_address_spec(
    s: CoreState,
    caller: Seq<u8>,
    commitment: Seq<u8>,
    stellar_address: Seq<u8>,
) -> Result<CoreState, AddressManagerError> {
    match owner_check(s, caller) {
        Some(e) => Err(e),
        None => if s.stellar_addresses.contains_key(commitment) {
            Err(AddressManagerError::AddressAlreadyExists)
        } else {
            Ok(
                CoreState {
                    stellar_addresses: s.stellar_addresses.insert(commitment, stellar_address),
                    ..s
                },
            )
        },
    }
}

/// `register_address(caller, address)`.
pub open spec fn register_address_spec(s: CoreState, caller: Seq<u8>, address: Seq<u8>) -> Result<
    CoreState,
    AddressManagerError,
> {
    match owner_check(s, caller) {
        Some(e) => Err(e),
        None => if s.registered.contains_key(address) {
            Err(AddressManagerError::AddressAlreadyRegistered)
        } else {
            Ok(CoreState { registered: s.registered.insert(address, true), ..s })
        },
    }
}

impl AddressManager {
    /// Sets the owner; refused once an owner is set. The owner must
    /// authorize the call.
    pub fn init(env: &mut CoreStorage, owner: Address) -> (r: Result<(), AddressManagerError>)
        ensures
            match r {
                Ok(()) => init_spec(old(env)@, owner@)
                    == Ok::<_, AddressManagerError>(final(env)@),
                Err(e) => init_spec(old(env)@, owner@)
                    == Err::<CoreState, _>(e) && final(env)@ == old(env)@,
            },
    {
        if storage::get_manager_owner(env).is_some() {
            return Err(AddressManagerError::AlreadyInitialized);
        }
        storage::set_manager_owner(env, &owner);
        Ok(())
    }

    /// The owner.
    pub fn get_owner(env: &CoreStorage) -> (r: Option<Address>)
        ensures
            opt_view(r) == env@.manager_owner,
    {
        storage::get_manager_owner(env)
    }

    /// Fails unless `caller` is the owner.
    fn require_owner(env: &CoreStorage, caller: &Address) -> (r: Result<(), AddressManagerError>)
        ensures
            match r {
                Ok(()) => owner_check(env@, caller@) is None,
                Err(e) => owner_check(env@, caller@) == Some(e),
            },
    {
        let owner = match storage::get_manager_owner(env) {
            Some(o) => o,
            None => {
                return Err(AddressManagerError::NotInitialized);
            },
        };
        if !caller.same(&owner) {
            return Err(AddressManagerError::NotOwner);
        }
        Ok(())
    }

    /// Sets the master Stellar address. Only the owner may, and only once
    /// the owner itself is registered.
    pub fn set_master_stellar_address(
        env: &mut CoreStorage,
        caller: Address,
        commitment: Hash32,
        stellar_address: Vec<u8>,
    ) -> (r: Result<(), AddressManagerError>)
        ensures
            match r {
                Ok(()) => set_master_stellar_address_spec(old(env)@, caller@, stellar_address@)
                    == Ok::<_, AddressManagerError>(final(env)@),
                Err(e) => set_master_stellar_address_spec(old(env)@, caller@, stellar_address@)
                    == Err::<CoreState, _>(e) && final(env)@ == old(env)@,
            },
    {
        Self::require_owner(env, &caller)?;
        if !storage::has_registered(env, &caller) {
            return Err(AddressManagerError::AddressNotRegistered);
        }
        storage::set_master(env, &stellar_address);
        Ok(())
    }

    /// Records the Stellar address of `commitment`. Only the owner may;
    /// refused when the commitment already has one.
    pub fn add_stellar_address(
        env: &mut CoreStorage,
        caller: Address,
        commitment: Hash32,
        stellar_address: Vec<u8>,
    ) -> (r: Result<(), AddressManagerError>)
        ensures
            match r {
                Ok(()) => add_stellar_address_spec(old(env)@, caller@, commitment@, stellar_address@)
                    == Ok::<_, AddressManagerError>(final(env)@),
                Err(e) => add_stellar_address_spec(old(env)@, caller@, commitment@, stellar_address@)
                    == Err::<CoreState, _>(e) && final(env)@ == old(env)@,
            },
    {
        Self::require_owner(env, &caller)?;
        if storage::has_stellar_address(env, &commitment) {
            return Err(AddressManagerError::AddressAlreadyExists);
        }
        storage::set_stellar_address(env, &commitment, &stellar_address);
        Ok(())
    }

    /// Registers `address`. Only the owner may; refused when the address is
    /// already registered.
    pub fn register_address(env: &mut CoreStorage, caller: Address, address: Address) -> (r:
        Result<(), AddressManagerError>)
        ensures
            match r {
                Ok(()) => register_address_spec(old(env)@, caller@, address@)
                    == Ok::<_, AddressManagerError>(final(env)@),
                Err(e) => register_address_spec(old(env)@, caller@, address@)
                    == Err::<CoreState, _>(e) && final(env)@ == old(env)@,
            },
    {
        Self::require_owner(env, &caller)?;
        if storage::has_registered(env, &address) {
            return Err(AddressManagerError::AddressAlreadyRegistered);
        }
        storage::set_registered(env, &address);
        Ok(())
    }

    /// The master Stellar address.
    pub fn get_master(env: &CoreStorage) -> (r: Option<Vec<u8>>)
        ensures
            opt_view(r) == env@.master,
    {
        storage::get_master(env)
    }

    /// The Stellar address of `commitment`.
    pub fn get_stellar_address(env: &CoreStorage, commitment: Hash32) -> (r: Option<Vec<u8>>)
        ensures
            opt_view(r) == (if env@.stellar_addresses.contains_key(commitment@) {
                Some(env@.stellar_addresses[commitment@])
            } else {
                None
            }),
    {
        storage::get_stellar_address(env, &commitment)
    }

    /// Whether `address` is registered.
    pub fn is_registered(env: &CoreStorage, address: Address) -> (r: bool)
        ensures
            r == env@.registered.contains_key(address@),
    {
        storage::has_registered(env, &address)
    }
}

/// Every owner-only call from an address other than the owner is refused,
/// before it looks at anything else.
pub proof fn lemma_only_owner(
    s: CoreState,
    caller: Seq<u8>,
    commitment: Seq<u8>,
    address: Seq<u8>,
    stellar_address: Seq<u8>,
)
    requires
        s.manager_owner != Some(caller),
    ensures
        set_master_stellar_address_spec(s, caller, stellar_address) is Err,
        add_stellar_address_spec(s, caller, commitment, stellar_address) is Err,
        register_address_spec(s, caller, address) is Err,
{
}

/// The address manager is initialized once.
pub proof fn lemma_init_once(s: CoreState, owner: Seq<u8>, other: Seq<u8>)
    requires
        init_spec(s, owner) is Ok,
    ensures
        init_spec(s, owner)->Ok_0.manager_owner == Some(owner),
        init_spec(init_spec(s, owner)->Ok_0, other) == Err::<CoreState, _>(
            AddressManagerError::AlreadyInitialized,
        ),
{
}

/// A Stellar address added for a commitment reads back, and no second one
/// can be added for it.
pub proof fn lemma_add_stellar_address_once(
    s: CoreState,
    caller: Seq<u8>,
    commitment: Seq<u8>,
    stellar_address: Seq<u8>,
    other: Seq<u8>,
)
    requires
        add_stellar_address_spec(s, caller, commitment, stellar_address) is Ok,
    ensures
        ({
            let s1 = add_stellar_address_spec(s, caller, commitment, stellar_address)->Ok_0;
            &&& s1.stellar_addresses[commitment] == stellar_address
            &&& add_stellar_address_spec(s1, caller, commitment, other) == Err::<CoreState, _>(
                AddressManagerError::AddressAlreadyExists,
            )
        }),
{
}

/// An address is registered once; afterwards it reads as registered.
pub proof fn lemma_register_address_once(s: CoreState, caller: Seq<u8>, address: Seq<u8>)
    requires
        register_address_spec(s, caller, address) is Ok,
    ensures
        ({
            let s1 = register_address_spec(s, caller, address)->Ok_0;
            &&& s1.registered.contains_key(address)
            &&& register_address_spec(s1, caller, address) == Err::<CoreState, _>(
                AddressManagerError::AddressAlreadyRegistered,
            )
        }),
{
}

/// The owner, once registered, can always set the master Stellar address,
/// whatever master was set before: the call succeeds and the master
/// becomes the given address, nothing else changing.
pub proof fn lemma_set_master_overwrites(
    s: CoreState,
    caller: Seq<u8>,
    stellar_address: Seq<u8>,
)
    requires
        s.manager_owner == Some(caller),
        s.registered.contains_key(caller),
    ensures
        set_master_stellar_address_spec(s, caller, stellar_address) is Ok,
        set_master_stellar_address_spec(s, caller, stellar_address)->Ok_0 == (CoreState {
            master: Some(stellar_address),
            ..s
        }),
{
}

/// An owner that has not registered itself cannot set the master address.
pub proof fn lemma_set_master_needs_registration(
    s: CoreState,
    caller: Seq<u8>,
    stellar_address: Seq<u8>,
)
    requires
        s.manager_owner == Some(caller),
        !s.registered.contains_key(caller),
    ensures
        set_master_stellar_address_spec(s, caller, stellar_address) == Err::<CoreState, _>(
            AddressManagerError::AddressNotRegistered,
        ),
{
}

/// The address manager can be initialized while it has no owner, and the
/// owner is then the given address.
pub proof fn lemma_init_succeeds(s: CoreState, owner: Seq<u8>)
    requires
        s.manager_owner is None,
    ensures
        init_spec(s, owner) == Ok::<_, AddressManagerError>(
            CoreState { manager_owner: Some(owner), ..s },
        ),
{
}

/// The owner can add the Stellar address of any commitment that has none,
/// and only that entry changes.
pub proof fn lemma_add_stellar_address_succeeds(
    s: CoreState,
    caller: Seq<u8>,
    commitment: Seq<u8>,
    stellar_address: Seq<u8>,
)
    requires
        s.manager_owner == Some(caller),
        !s.stellar_addresses.contains_key(commitment),
    ensures
        add_stellar_address_spec(s, caller, commitment, stellar_address) == Ok::<
            _,
            AddressManagerError,
        >(
            CoreState {
                stellar_addresses: s.stellar_addresses.insert(commitment, stellar_address),
                ..s
            },
        ),
{
}

/// The owner can register any address that is not yet registered, and only
/// that entry changes.
pub proof fn lemma_register_address_succeeds(s: CoreState, caller: Seq<u8>, address: Seq<u8>)
    requires
        s.manager_owner == Some(caller),
        !s.registered.contains_key(address),
    ensures
        register_address_spec(s, caller, address) == Ok::<_, AddressManagerError>(
            CoreState { registered: s.registered.insert(address, true), ..s },
        ),
{
}

} // verus!
