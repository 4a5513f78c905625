use alien_gateway::identity::address_manager::AddressManager;
use alien_gateway::identity::admin::Admin;
use alien_gateway::identity::contract::Contract;
use alien_gateway::identity::errors::{AddressManagerError, ChainAddressError, CoreError};
use alien_gateway::identity::registration::Registration;
use alien_gateway::identity::storage::CoreStorage;
use alien_gateway::identity::types::{Proof, PublicSignals};
use alien_gateway::identity::zk_verifier::ZkVerifier;
use alien_gateway::ids::{Address, Hash32};

fn addr(tag: u8) -> Address {
    let mut key = b"GA".to_vec();
    key.extend(std::iter::repeat(b'A' + (tag % 26)).take(54));
    Address::from_strkey(key)
}

fn hash(byte: u8) -> Hash32 {
    Hash32::from_array([byte; 32])
}

fn setup_with_owner() -> (CoreStorage, Address, Hash32) {
    let mut env = CoreStorage::new();
    let owner = addr(0);
    let commitment = hash(42);
    AddressManager::init(&mut env, owner.clone()).unwrap();
    (env, owner, commitment)
}

// ---- registration ----

#[test]
fn test_register_success() {
    let mut env = CoreStorage::new();
    let caller = addr(1);
    let commitment = hash(1);
    Contract::register(&mut env, caller.clone(), commitment, 0).unwrap();
    let owner = Contract::get_owner(&env, commitment);
    assert_eq!(owner, Some(caller));
}

#[test]
fn test_register_duplicate_rejection() {
    let mut env = CoreStorage::new();
    let caller = addr(1);
    let commitment = hash(2);
    Contract::register(&mut env, caller.clone(), commitment, 0).unwrap();
    let r = Contract::register(&mut env, caller.clone(), commitment, 5);
    assert_eq!(r, Err(CoreError::AlreadyRegistered));
    assert_eq!(r.unwrap_err().message(), Some("Commitment already registered"));
    assert_eq!(Contract::get_owner(&env, commitment), Some(caller));
    assert_eq!(Registration::get_created_at(&env, commitment), Some(0));
}

#[test]
fn test_get_owner_returns_owner_after_registration() {
    let mut env = CoreStorage::new();
    let caller = addr(1);
    let commitment = hash(3);
    Contract::register(&mut env, caller.clone(), commitment, 0).unwrap();
    let owner = Contract::get_owner(&env, commitment);
    assert_eq!(owner, Some(caller));
}

#[test]
fn test_get_owner_returns_none_for_unknown() {
    let env = CoreStorage::new();
    let unknown_commitment = hash(99);
    let owner = Contract::get_owner(&env, unknown_commitment);
    assert_eq!(owner, None);
}

#[test]
fn register_records_creation_time() {
    let mut env = CoreStorage::new();
    Registration::register(&mut env, addr(4), hash(4), 1_700_000_000).unwrap();
    assert_eq!(Registration::get_created_at(&env, hash(4)), Some(1_700_000_000));
    assert_eq!(Registration::get_created_at(&env, hash(5)), None);
}

#[test]
fn register_leaves_other_owners() {
    let mut env = CoreStorage::new();
    Registration::register(&mut env, addr(1), hash(1), 10).unwrap();
    Registration::register(&mut env, addr(2), hash(2), 20).unwrap();
    assert_eq!(Registration::get_owner(&env, hash(1)), Some(addr(1)));
    assert_eq!(Registration::get_owner(&env, hash(2)), Some(addr(2)));
    assert_eq!(Registration::get_created_at(&env, hash(1)), Some(10));
}

fn signals(old_root: u8, new_root: u8, commitment: u8) -> PublicSignals {
    PublicSignals { old_root: hash(old_root), new_root: hash(new_root), commitment: hash(commitment) }
}

fn sample_proof() -> Proof {
    Proof { a: hash(0xa), b: hash(0xb), c: hash(0xc) }
}

#[test]
fn submit_proof_without_root_is_refused() {
    let mut env = CoreStorage::new();
    assert_eq!(
        Registration::submit_proof(&mut env, addr(1), sample_proof(), signals(1, 2, 7), 3),
        Err(CoreError::RootNotSet)
    );
    assert_eq!(Registration::get_owner(&env, hash(7)), None);
}

#[test]
fn submit_proof_registers_and_moves_root() {
    let mut env = CoreStorage::new();
    Admin::initialize(&mut env, addr(0)).unwrap();
    Admin::update_smt_root(&mut env, hash(1)).unwrap();
    Registration::submit_proof(&mut env, addr(5), sample_proof(), signals(1, 2, 7), 3).unwrap();
    assert_eq!(Registration::get_owner(&env, hash(7)), Some(addr(5)));
    assert_eq!(Registration::get_created_at(&env, hash(7)), Some(3));
    assert_eq!(Admin::get_smt_root(&env), Ok(hash(2)));
    // The same commitment again is refused, even against the fresh root.
    assert_eq!(
        Registration::submit_proof(&mut env, addr(6), sample_proof(), signals(2, 3, 7), 4),
        Err(CoreError::AlreadyRegistered)
    );
    assert_eq!(Registration::get_owner(&env, hash(7)), Some(addr(5)));
}

#[test]
fn submit_proof_against_stale_root_is_refused() {
    let mut env = CoreStorage::new();
    Admin::initialize(&mut env, addr(0)).unwrap();
    Admin::update_smt_root(&mut env, hash(1)).unwrap();
    assert_eq!(
        Registration::submit_proof(&mut env, addr(5), sample_proof(), signals(9, 2, 7), 3),
        Err(CoreError::StaleRoot)
    );
    assert_eq!(Admin::get_smt_root(&env), Ok(hash(1)));
}

#[test]
fn zk_verifier_accepts() {
    assert!(ZkVerifier::verify_groth16_proof(&sample_proof(), &signals(1, 2, 3)));
}

// ---- admin ----

#[test]
fn initialize_sets_all_roles() {
    let mut env = CoreStorage::new();
    let owner = addr(3);
    assert_eq!(Contract::initialize(&mut env, owner.clone()), Ok(owner.clone()));
    assert_eq!(Contract::get_contract_owner(&env), Ok(owner.clone()));
    assert_eq!(Admin::get_admin(&env), Ok(owner.clone()));
    assert_eq!(Admin::get_operator(&env), Ok(owner.clone()));
}

#[test]
fn initialize_twice_is_refused() {
    let mut env = CoreStorage::new();
    Admin::initialize(&mut env, addr(3)).unwrap();
    assert_eq!(Admin::initialize(&mut env, addr(4)), Err(CoreError::AlreadyInitialized));
    assert_eq!(Admin::get_contract_owner(&env), Ok(addr(3)));
}

#[test]
fn roles_missing_before_initialize() {
    let mut env = CoreStorage::new();
    assert_eq!(Admin::get_contract_owner(&env), Err(CoreError::NotFound));
    assert_eq!(Admin::get_admin(&env), Err(CoreError::NotFound));
    assert_eq!(Admin::get_operator(&env), Err(CoreError::NotFound));
    assert_eq!(Admin::set_admin(&mut env, addr(1)), Err(CoreError::NotFound));
    assert_eq!(Admin::set_operator(&mut env, addr(1)), Err(CoreError::NotFound));
    assert_eq!(Contract::update_smt_root(&mut env, hash(1)), Err(CoreError::NotFound));
    assert_eq!(Contract::get_smt_root(&env), Err(CoreError::RootNotSet));
}

#[test]
fn role_changes_name_their_signers() {
    let mut env = CoreStorage::new();
    Admin::initialize(&mut env, addr(0)).unwrap();
    assert_eq!(Admin::set_admin(&mut env, addr(1)), Ok(addr(0)));
    assert_eq!(Admin::set_operator(&mut env, addr(2)), Ok(addr(1)));
    assert_eq!(Admin::update_smt_root(&mut env, hash(8)), Ok(addr(2)));
    assert_eq!(Admin::get_admin(&env), Ok(addr(1)));
    assert_eq!(Admin::get_operator(&env), Ok(addr(2)));
    assert_eq!(Admin::get_contract_owner(&env), Ok(addr(0)));
}

#[test]
fn update_smt_root_to_same_root_is_refused() {
    let mut env = CoreStorage::new();
    Admin::initialize(&mut env, addr(0)).unwrap();
    Admin::update_smt_root(&mut env, hash(8)).unwrap();
    assert_eq!(Admin::get_smt_root(&env), Ok(hash(8)));
    assert_eq!(Admin::update_smt_root(&mut env, hash(8)), Err(CoreError::RootUnchanged));
    Admin::update_smt_root(&mut env, hash(9)).unwrap();
    assert_eq!(Admin::get_smt_root(&env), Ok(hash(9)));
}

// ---- address manager ----

#[test]
fn test_set_master_stellar_address_success() {
    let (mut env, owner, commitment) = setup_with_owner();
    let stellar_address = b"GXXXXXXXXXXXXXXX".to_vec();
    AddressManager::register_address(&mut env, owner.clone(), owner.clone()).unwrap();
    AddressManager::set_master_stellar_address(&mut env, owner.clone(), commitment, stellar_address.clone())
        .unwrap();
    let master = AddressManager::get_master(&env);
    assert_eq!(master, Some(stellar_address));
}

#[test]
fn test_set_master_stellar_address_not_registered() {
    let (mut env, owner, commitment) = setup_with_owner();
    let stellar_address = b"GXXXXXXXXXXXXXXX".to_vec();
    let r = AddressManager::set_master_stellar_address(&mut env, owner, commitment, stellar_address);
    assert_eq!(r, Err(AddressManagerError::AddressNotRegistered));
    assert_eq!(r.unwrap_err().message(), "Address not registered");
}

#[test]
fn test_set_master_stellar_address_non_owner() {
    let (mut env, owner, commitment) = setup_with_owner();
    let non_owner = addr(7);
    let stellar_address = b"GXXXXXXXXXXXXXXX".to_vec();
    AddressManager::register_address(&mut env, owner.clone(), owner.clone()).unwrap();
    let r = AddressManager::set_master_stellar_address(&mut env, non_owner, commitment, stellar_address);
    assert_eq!(r, Err(AddressManagerError::NotOwner));
    assert_eq!(r.unwrap_err().message(), "Not owner");
    assert_eq!(AddressManager::get_master(&env), None);
}

#[test]
fn test_add_stellar_address_success() {
    let (mut env, owner, commitment) = setup_with_owner();
    let stellar_address = b"GYYYYYYYYYYYYYYYY".to_vec();
    AddressManager::add_stellar_address(&mut env, owner, commitment, stellar_address.clone()).unwrap();
    let stored = AddressManager::get_stellar_address(&env, commitment);
    assert_eq!(stored, Some(stellar_address));
}

#[test]
fn test_add_stellar_address_duplicate_rejection() {
    let (mut env, owner, commitment) = setup_with_owner();
    let stellar_address = b"GZZZZZZZZZZZZZZZZ".to_vec();
    AddressManager::add_stellar_address(&mut env, owner.clone(), commitment, stellar_address.clone())
        .unwrap();
    let r = AddressManager::add_stellar_address(&mut env, owner, commitment, stellar_address.clone());
    assert_eq!(r, Err(AddressManagerError::AddressAlreadyExists));
    assert_eq!(r.unwrap_err().message(), "Address already exists");
    assert_eq!(AddressManager::get_stellar_address(&env, commitment), Some(stellar_address));
}

#[test]
fn test_add_stellar_address_non_owner_rejection() {
    let (mut env, _owner, commitment) = setup_with_owner();
    let non_owner = addr(8);
    let stellar_address = b"GAAAAAAAAAAAAAAAA".to_vec();
    let r = AddressManager::add_stellar_address(&mut env, non_owner, commitment, stellar_address);
    assert_eq!(r, Err(AddressManagerError::NotOwner));
    assert_eq!(AddressManager::get_stellar_address(&env, commitment), None);
}

#[test]
fn test_register_address_success() {
    let (mut env, owner, _commitment) = setup_with_owner();
    let address_to_register = addr(9);
    AddressManager::register_address(&mut env, owner, address_to_register.clone()).unwrap();
    let is_registered = AddressManager::is_registered(&env, address_to_register);
    assert!(is_registered);
}

#[test]
fn test_register_address_non_owner_rejection() {
    let (mut env, _owner, _commitment) = setup_with_owner();
    let non_owner = addr(10);
    let address_to_register = addr(11);
    let r = AddressManager::register_address(&mut env, non_owner, address_to_register.clone());
    assert_eq!(r, Err(AddressManagerError::NotOwner));
    assert!(!AddressManager::is_registered(&env, address_to_register));
}

#[test]
fn test_register_address_duplicate_rejection() {
    let (mut env, owner, _commitment) = setup_with_owner();
    let address_to_register = addr(12);
    AddressManager::register_address(&mut env, owner.clone(), address_to_register.clone()).unwrap();
    let r = AddressManager::register_address(&mut env, owner, address_to_register);
    assert_eq!(r, Err(AddressManagerError::AddressAlreadyRegistered));
    assert_eq!(r.unwrap_err().message(), "Address already registered");
}

#[test]
fn test_get_master_returns_correct_address() {
    let (mut env, owner, commitment) = setup_with_owner();
    let stellar_address = b"GBBBBBBBBBBBBBBB".to_vec();
    AddressManager::register_address(&mut env, owner.clone(), owner.clone()).unwrap();
    AddressManager::set_master_stellar_address(&mut env, owner, commitment, stellar_address.clone())
        .unwrap();
    let master = AddressManager::get_master(&env);
    assert_eq!(master, Some(stellar_address));
}

#[test]
fn test_get_master_returns_none_when_not_set() {
    let (env, _owner, _commitment) = setup_with_owner();
    let master = AddressManager::get_master(&env);
    assert_eq!(master, None);
}

#[test]
fn test_is_address_registered_false_for_unknown() {
    let (env, _owner, _commitment) = setup_with_owner();
    let unknown_address = addr(13);
    let is_registered = AddressManager::is_registered(&env, unknown_address);
    assert!(!is_registered);
}

#[test]
fn test_init_address_manager_twice_fails() {
    let mut env = CoreStorage::new();
    let owner = addr(14);
    AddressManager::init(&mut env, owner.clone()).unwrap();
    let r = AddressManager::init(&mut env, owner.clone());
    assert_eq!(r, Err(AddressManagerError::AlreadyInitialized));
    assert_eq!(r.unwrap_err().message(), "Already initialized");
    assert_eq!(AddressManager::get_owner(&env), Some(owner));
}

#[test]
fn address_manager_calls_before_init_are_refused() {
    let mut env = CoreStorage::new();
    let r = AddressManager::register_address(&mut env, addr(1), addr(2));
    assert_eq!(r, Err(AddressManagerError::NotInitialized));
    assert_eq!(r.unwrap_err().message(), "Not initialized");
    assert_eq!(AddressManager::get_owner(&env), None);
}

#[test]
fn core_error_codes_and_messages() {
    assert_eq!(CoreError::AlreadyInitialized.code(), 1);
    assert_eq!(CoreError::NotFound.code(), 2);
    assert_eq!(CoreError::RootNotSet.code(), 3);
    assert_eq!(CoreError::RootUnchanged.code(), 4);
    assert_eq!(CoreError::AlreadyRegistered.code(), 5);
    assert_eq!(CoreError::StaleRoot.code(), 6);
    assert_eq!(CoreError::InvalidProof.code(), 7);
    assert_eq!(CoreError::StaleRoot.message(), None);
}

#[test]
fn chain_address_error_codes() {
    assert_eq!(ChainAddressError::Unauthorized.code(), 1);
    assert_eq!(ChainAddressError::NotRegistered.code(), 2);
    assert_eq!(ChainAddressError::InvalidAddress.code(), 3);
}
