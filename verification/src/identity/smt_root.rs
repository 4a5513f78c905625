//! The Sparse Merkle Tree root that anchors the registered commitments.

use crate::identity::storage::{self, CoreState, CoreStorage};
use crate::ids::Hash32;
use crate::store::opt_view;
use vstd::prelude::*;

verus! {

pub struct SmtRoot;

impl SmtRoot {
    /// The stored root, if one has been set.
    pub fn get_root(env: &CoreStorage) -> (r: Option<Hash32>)
        ensures
            opt_view(r) == env@.smt_root,
    {
        storage::get_smt_root(env)
    }

    /// Replaces the stored root.
    pub fn update_root(env: &mut CoreStorage, new_root: Hash32)
        ensures
            final(env)@ == (CoreState { smt_root: Some(new_root@), ..old(env)@ }),
    {
        storage::set_smt_root(env, &new_root);
    }
}

} // verus!
