//! The entry points of the core identity contract whose logic this crate
//! holds, each forwarding to the module that implements it.

use crate::identity::admin::{initialize_spec, update_smt_root_spec, Admin};
use crate::identity::errors::CoreError;
use crate::identity::registration::{register_spec, Registration};
use crate::identity::storage::{CoreState, CoreStorage};
use crate::ids::{Address, Hash32};
use crate::store::opt_view;
use vstd::prelude::*;

verus! {

pub struct Contract;

impl Contract {
    /// See [`Admin::initialize`].
    pub fn initialize(e: &mut CoreStorage, o: Address) -> (r: Result<Address, CoreError>)
        ensures
            match r {
                Ok(signer) => signer@ == o@
                    && initialize_spec(old(e)@, o@) == Ok::<_, CoreError>(final(e)@),
                Err(err) => initialize_spec(old(e)@, o@) == Err::<CoreState, _>(err)
                    && final(e)@ == old(e)@,
            },
    {
        Admin::initialize(e, o)
    }

    /// See [`Admin::get_contract_owner`].
    pub fn get_contract_owner(e: &CoreStorage) -> (r: Result<Address, CoreError>)
        ensures
            match r {
                Ok(a) => e@.owner == Some(a@),
                Err(err) => err == CoreError::NotFound && e@.owner is None,
            },
    {
        Admin::get_contract_owner(e)
    }

    /// See [`Admin::get_smt_root`].
    pub fn get_smt_root(e: &CoreStorage) -> (r: Result<Hash32, CoreError>)
        ensures
            match r {
                Ok(root) => e@.smt_root == Some(root@),
                Err(err) => err == CoreError::RootNotSet && e@.smt_root is None,
            },
    {
        Admin::get_smt_root(e)
    }

    /// See [`Admin::update_smt_root`].
    pub fn update_smt_root(e: &mut CoreStorage, r: Hash32) -> (res: Result<Address, CoreError>)
        ensures
            match res {
                Ok(signer) => update_smt_root_spec(old(e)@, r@) == Ok::<_, CoreError>(
                    (final(e)@, signer@),
                ),
                Err(err) => update_smt_root_spec(old(e)@, r@) == Err::<(CoreState, Seq<u8>), _>(err)
                    && final(e)@ == old(e)@,
            },
    {
        Admin::update_smt_root(e, r)
    }

    /// See [`Registration::register`].
    pub fn register(e: &mut CoreStorage, c: Address, h: Hash32, now: u64) -> (r: Result<
        (),
        CoreError,
    >)
        ensures
            match r {
                Ok(()) => register_spec(old(e)@, c@, h@, now) == Ok::<_, CoreError>(final(e)@),
                Err(err) => register_spec(old(e)@, c@, h@, now) == Err::<CoreState, _>(err)
                    && final(e)@ == old(e)@,
            },
    {
        Registration::register(e, c, h, now)
    }

    /// See [`Registration::get_owner`].
    pub fn get_owner(e: &CoreStorage, h: Hash32) -> (r: Option<Address>)
        ensures
            opt_view(r) == (if e@.commitments.contains_key(h@) {
                Some(e@.commitments[h@])
            } else {
                None
            }),
    {
        Registration::get_owner(e, h)
    }
}

} // verus!
