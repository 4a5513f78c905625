//! The contract's roles: an owner, who names the admin; an admin, who
//! names the operator; and an operator, who moves the SMT root.
//!
//! A call that needs an authorization returns, on success, the address
//! that must authorize it.

use crate::identity::errors::CoreError;
use crate::identity::smt_root::SmtRoot;
use crate::identity::storage::{self, CoreState, CoreStorage};
use crate::ids::{Address, Hash32};
use vstd::prelude::*;

verus! {

pub struct Admin;

/// `initialize(owner)`: refused once an owner is set; else `owner` becomes
/// owner, admin and operator.
pub open spec fn initialize_spec(s: CoreState, owner: Seq<u8>) -> Result<CoreState, CoreError> {
    if s.owner is Some {
        Err(CoreError::AlreadyInitialized)
    } else {
        Ok(CoreState { owner: Some(owner), admin: Some(owner), operator: Some(owner), ..s })
    }
}

/// `set_admin(new_admin)`: the new state and the owner, who authorizes it.
pub open spec fn set_admin_spec(s: CoreState, new_admin: Seq<u8>) -> Result<
    (CoreState, Seq<u8>),
    CoreError,
> {
    match s.owner {
        None => Err(CoreError::NotFound),
        Some(o) => Ok((CoreState { admin: Some(new_admin), ..s }, o)),
    }
}

/// `set_operator(new_operator)`: the new state and the admin, who
/// authorizes it.
pub open spec fn set_operator_spec(s: CoreState, new_operator: Seq<u8>) -> Result<
    (CoreState, Seq<u8>),
    CoreError,
> {
    match s.admin {
        None => Err(CoreError::NotFound),
        Some(a) => Ok((CoreState { operator: Some(new_operator), ..s }, a)),
    }
}

/// `update_smt_root(new_root)`: the new state and the operator, who
/// authorizes it. Refused when the root would not change.
pub open spec fn update_smt_root_spec(s: CoreState, new_root: Seq<u8>) -> Result<
    (CoreState, Seq<u8>),
    CoreError,
> {
    match s.operator {
        None => Err(CoreError::NotFound),
        Some(op) => if s.smt_root == Some(new_root) {
            Err(CoreError::RootUnchanged)
        } else {
            Ok((CoreState { smt_root: Some(new_root), ..s }, op))
        },
    }
}

impl Admin {
    /// Sets `owner` as owner, admin and operator. Refused once an owner
    /// is set. The owner must authorize the call.
    pub fn initialize(env: &mut CoreStorage, owner: Address) -> (r: Result<Address, CoreError>)
        ensures
            match r {
                Ok(signer) => signer@ == owner@ && initialize_spec(old(env)@, owner@) == Ok::<
                    CoreState,
                    CoreError,
                >(final(env)@),
                Err(e) => initialize_spec(old(env)@, owner@) == Err::<CoreState, CoreError>(e)
                    && final(env)@ == old(env)@,
            },
    {
        if storage::is_initialized(env) {
            return Err(CoreError::AlreadyInitialized);
        }
        storage::set_owner(env, &owner);
        storage::set_admin(env, &owner);
        storage::set_operator(env, &owner);
        Ok(owner)
    }

    /// The owner.
    pub fn get_contract_owner(env: &CoreStorage) -> (r: Result<Address, CoreError>)
        ensures
            match r {
                Ok(a) => env@.owner == Some(a@),
                Err(e) => e == CoreError::NotFound && env@.owner is None,
            },
    {
        match storage::get_owner(env) {
            Some(a) => Ok(a),
            None => Err(CoreError::NotFound),
        }
    }

    /// The admin.
    pub fn get_admin(env: &CoreStorage) -> (r: Result<Address, CoreError>)
        ensures
            match r {
                Ok(a) => env@.admin == Some(a@),
                Err(e) => e == CoreError::NotFound && env@.admin is None,
            },
    {
        match storage::get_admin(env) {
            Some(a) => Ok(a),
            None => Err(CoreError::NotFound),
        }
    }

    /// The operator.
    pub fn get_operator(env: &CoreStorage) -> (r: Result<Address, CoreError>)
        ensures
            match r {
                Ok(a) => env@.operator == Some(a@),
                Err(e) => e == CoreError::NotFound && env@.operator is None,
            },
    {
        match storage::get_operator(env) {
            Some(a) => Ok(a),
            None => Err(CoreError::NotFound),
        }
    }

    /// Names a new admin. The owner must authorize the call.
    pub fn set_admin(env: &mut CoreStorage, new_admin: Address) -> (r: Result<Address, CoreError>)
        ensures
            match r {
                Ok(signer) => set_admin_spec(old(env)@, new_admin@) == Ok::<
                    (CoreState, Seq<u8>),
                    CoreError,
                >((final(env)@, signer@)),
                Err(e) => set_admin_spec(old(env)@, new_admin@)
                    == Err::<(CoreState, Seq<u8>), CoreError>(
                    e,
                ) && final(env)@ == old(env)@,
            },
    {
        let owner = Self::get_contract_owner(env)?;
        storage::set_admin(env, &new_admin);
        Ok(owner)
    }

    /// Names a new operator. The admin must authorize the call.
    pub fn set_operator(env: &mut CoreStorage, new_operator: Address) -> (r: Result<
        Address,
        CoreError,
    >)
        ensures
            match r {
                Ok(signer) => set_operator_spec(old(env)@, new_operator@) == Ok::<
                    (CoreState, Seq<u8>),
                    CoreError,
                >((final(env)@, signer@)),
                Err(e) => set_operator_spec(old(env)@, new_operator@) == Err::<
                    (CoreState, Seq<u8>),
                    CoreError,
                >(e) && final(env)@ == old(env)@,
            },
    {
        let admin = Self::get_admin(env)?;
        storage::set_operator(env, &new_operator);
        Ok(admin)
    }

    /// The SMT root.
    pub fn get_smt_root(env: &CoreStorage) -> (r: Result<Hash32, CoreError>)
        ensures
            match r {
                Ok(root) => env@.smt_root == Some(root@),
                Err(e) => e == CoreError::RootNotSet && env@.smt_root is None,
            },
    {
        match SmtRoot::get_root(env) {
            Some(root) => Ok(root),
            None => Err(CoreError::RootNotSet),
        }
    }

    /// Moves the SMT root to `new_root`; refused when it equals the stored
    /// root. The operator must authorize the call.
    pub fn update_smt_root(env: &mut CoreStorage, new_root: Hash32) -> (r: Result<
        Address,
        CoreError,
    >)
        ensures
            match r {
                Ok(signer) => update_smt_root_spec(old(env)@, new_root@) == Ok::<
                    (CoreState, Seq<u8>),
                    CoreError,
                >((final(env)@, signer@)),
                Err(e) => update_smt_root_spec(old(env)@, new_root@) == Err::<
                    (CoreState, Seq<u8>),
                    CoreError,
                >(e) && final(env)@ == old(env)@,
            },
    {
        let operator = match storage::get_operator(env) {
            Some(a) => a,
            None => {
                return Err(CoreError::NotFound);
            },
        };
        if let Some(current) = storage::get_smt_root(env) {
            if current.same(&new_root) {
                return Err(CoreError::RootUnchanged);
            }
        }
        SmtRoot::update_root(env, new_root);
        Ok(operator)
    }
}

/// The contract is initialized once: afterwards the owner is also admin
/// and operator, and a second `initialize` is refused.
pub proof fn lemma_initialize_once(s: CoreState, owner: Seq<u8>, other: Seq<u8>)
    requires
        initialize_spec(s, owner) is Ok,
    ensures
        ({
            let s1 = initialize_spec(s, owner)->Ok_0;
            &&& s1.owner == Some(owner)
            &&& s1.admin == Some(owner)
            &&& s1.operator == Some(owner)
            &&& initialize_spec(s1, other) == Err::<CoreState, _>(CoreError::AlreadyInitialized)
        }),
{
}

/// After the operator moves the root to `new_root`, the root reads back as
/// `new_root`, and moving it to `new_root` again is refused.
pub proof fn lemma_update_root_then_read(s: CoreState, new_root: Seq<u8>)
    requires
        update_smt_root_spec(s, new_root) is Ok,
    ensures
        ({
            let s1 = update_smt_root_spec(s, new_root)->Ok_0.0;
            &&& s1.smt_root == Some(new_root)
            &&& update_smt_root_spec(s1, new_root) == Err::<(CoreState, Seq<u8>), _>(
                CoreError::RootUnchanged,
            )
        }),
{
}

/// Each role is named by the role above it: the owner names the admin,
/// the admin names the operator, and the operator moves the root.
pub proof fn lemma_role_signers(s: CoreState, a: Seq<u8>)
    ensures
        set_admin_spec(s, a) is Ok ==> Some(set_admin_spec(s, a)->Ok_0.1) == s.owner,
        set_operator_spec(s, a) is Ok ==> Some(set_operator_spec(s, a)->Ok_0.1) == s.admin,
        update_smt_root_spec(s, a) is Ok ==> Some(update_smt_root_spec(s, a)->Ok_0.1)
            == s.operator,
{
}

/// A contract without an owner can always be initialized.
pub proof fn lemma_initialize_succeeds(s: CoreState, owner: Seq<u8>)
    requires
        s.owner is None,
    ensures
        initialize_spec(s, owner) is Ok,
{
}

/// Whenever an owner is set, the owner can name any admin, any number of
/// times: the call succeeds, is signed by the owner, and the admin becomes
/// the given address, nothing else changing.
pub proof fn lemma_set_admin_succeeds(s: CoreState, owner: Seq<u8>, new_admin: Seq<u8>)
    requires
        s.owner == Some(owner),
    ensures
        set_admin_spec(s, new_admin) == Ok::<_, CoreError>(
            (CoreState { admin: Some(new_admin), ..s }, owner),
        ),
{
}

/// Whenever an admin is set, the admin can name any operator: the call
/// succeeds, is signed by the admin, and the operator becomes the given
/// address, nothing else changing.
pub proof fn lemma_set_operator_succeeds(s: CoreState, admin: Seq<u8>, new_operator: Seq<u8>)
    requires
        s.admin == Some(admin),
    ensures
        set_operator_spec(s, new_operator) == Ok::<_, CoreError>(
            (CoreState { operator: Some(new_operator), ..s }, admin),
        ),
{
}

/// Whenever an operator is set, the operator can move the root to any
/// root other than the stored one: the call succeeds, is signed by the
/// operator, and only the root changes.
pub proof fn lemma_update_smt_root_succeeds(s: CoreState, operator: Seq<u8>, new_root: Seq<u8>)
    requires
        s.operator == Some(operator),
        s.smt_root != Some(new_root),
    ensures
        update_smt_root_spec(s, new_root) == Ok::<_, CoreError>(
            (CoreState { smt_root: Some(new_root), ..s }, operator),
        ),
{
}

/// The role calls are refused exactly when the role that signs them is
/// missing, and moving the root to the stored root is refused.
pub proof fn lemma_role_refusals(s: CoreState, a: Seq<u8>)
    ensures
        (set_admin_spec(s, a) is Err) == (s.owner is None),
        (set_operator_spec(s, a) is Err) == (s.admin is None),
        s.operator is None ==> update_smt_root_spec(s, a) == Err::<(CoreState, Seq<u8>), _>(
            CoreError::NotFound,
        ),
        s.operator is Some && s.smt_root == Some(a) ==> update_smt_root_spec(s, a) == Err::<
            (CoreState, Seq<u8>),
            _,
        >(CoreError::RootUnchanged),
        (initialize_spec(s, a) is Err) == (s.owner is Some),
{
}

} // verus!
