use alien_gateway::factory::contract::FactoryContract;
use alien_gateway::factory::errors::FactoryError;
use alien_gateway::factory::events::{
    ownership_transferred, username_deployed, OwnershipTransferred, UsernameDeployed,
};
use alien_gateway::factory::storage::{
    get_config, has_username, set_config, FactoryStorage, PERSISTENT_BUMP_AMOUNT,
    PERSISTENT_LIFETIME_THRESHOLD,
};
use alien_gateway::factory::types::{DeployConfig, UsernameRecord};
use alien_gateway::ids::{Address, Hash32};

fn addr(tag: u8) -> Address {
    let mut key = b"CC".to_vec();
    key.extend(std::iter::repeat(b'A' + (tag % 26)).take(54));
    Address::from_strkey(key)
}

fn hash(byte: u8) -> Hash32 {
    Hash32::from_array([byte; 32])
}

fn configured() -> FactoryStorage {
    let mut env = FactoryStorage::new();
    FactoryContract::initialize(&mut env, addr(0)).unwrap();
    FactoryContract::configure(&mut env, addr(1), addr(2)).unwrap();
    env
}

#[test]
fn test_ttl_constants_match_formula() {
    assert_eq!(PERSISTENT_BUMP_AMOUNT, 30 * 24 * 3600 / 5);
    assert_eq!(PERSISTENT_LIFETIME_THRESHOLD, 7 * 24 * 3600 / 5);
}

#[test]
fn initialize_sets_roles_once() {
    let mut env = FactoryStorage::new();
    assert_eq!(FactoryContract::initialize(&mut env, addr(0)), Ok(addr(0)));
    assert_eq!(FactoryContract::get_owner(&env), Some(addr(0)));
    assert_eq!(FactoryContract::get_admin(&env), Some(addr(0)));
    assert_eq!(FactoryContract::get_operator(&env), Some(addr(0)));
    assert_eq!(FactoryContract::initialize(&mut env, addr(5)), Err(FactoryError::Unauthorized));
    assert_eq!(FactoryContract::get_owner(&env), Some(addr(0)));
}

#[test]
fn role_calls_before_initialize_are_refused() {
    let mut env = FactoryStorage::new();
    assert_eq!(FactoryContract::configure(&mut env, addr(1), addr(2)), Err(FactoryError::Unauthorized));
    assert_eq!(FactoryContract::set_admin(&mut env, addr(1)), Err(FactoryError::Unauthorized));
    assert_eq!(FactoryContract::set_operator(&mut env, addr(1)), Err(FactoryError::Unauthorized));
    assert_eq!(FactoryContract::auction_contract(&env), None);
    assert_eq!(FactoryContract::core_contract(&env), None);
}

#[test]
fn roles_name_their_signers() {
    let mut env = configured();
    assert_eq!(FactoryContract::set_admin(&mut env, addr(3)), Ok(addr(0)));
    assert_eq!(FactoryContract::set_operator(&mut env, addr(4)), Ok(addr(3)));
    assert_eq!(FactoryContract::configure(&mut env, addr(5), addr(6)), Ok(addr(4)));
    assert_eq!(FactoryContract::auction_contract(&env), Some(addr(5)));
    assert_eq!(FactoryContract::core_contract(&env), Some(addr(6)));
}

#[test]
fn deploy_username_records_owner() {
    let mut env = configured();
    assert_eq!(FactoryContract::deploy_username(&mut env, hash(7), addr(9), 1234), Ok(addr(1)));
    assert!(has_username(&env, &hash(7)));
    assert_eq!(
        FactoryContract::get_username_record(&env, hash(7)),
        Some(UsernameRecord { username_hash: hash(7), owner: addr(9), registered_at: 1234, core_contract: addr(2) })
    );
    assert_eq!(FactoryContract::get_username_owner(&env, hash(7)), Some(addr(9)));
    assert_eq!(FactoryContract::get_username_owner(&env, hash(8)), None);
}

#[test]
fn deploy_username_errors() {
    let mut env = FactoryStorage::new();
    assert_eq!(
        FactoryContract::deploy_username(&mut env, hash(7), addr(9), 1),
        Err(FactoryError::Unauthorized)
    );
    FactoryContract::initialize(&mut env, addr(0)).unwrap();
    let mut env2 = configured();
    FactoryContract::deploy_username(&mut env2, hash(7), addr(9), 1).unwrap();
    assert_eq!(
        FactoryContract::deploy_username(&mut env2, hash(7), addr(10), 2),
        Err(FactoryError::AlreadyDeployed)
    );
    assert_eq!(FactoryContract::get_username_owner(&env2, hash(7)), Some(addr(9)));
    assert_eq!(FactoryError::AlreadyDeployed.code(), Some(2));
}

#[test]
fn transfer_username_changes_owner_only() {
    let mut env = configured();
    FactoryContract::deploy_username(&mut env, hash(7), addr(9), 1234).unwrap();
    assert_eq!(FactoryContract::transfer_username(&mut env, hash(7), addr(10)), Ok((addr(1), addr(9))));
    assert_eq!(
        FactoryContract::get_username_record(&env, hash(7)),
        Some(UsernameRecord { username_hash: hash(7), owner: addr(10), registered_at: 1234, core_contract: addr(2) })
    );
}

#[test]
fn transfer_of_unknown_username_is_refused() {
    let mut env = configured();
    assert_eq!(FactoryContract::transfer_username(&mut env, hash(7), addr(10)), Err(FactoryError::NotDeployed));
    assert_eq!(FactoryError::NotDeployed.code(), None);
    let mut bare = FactoryStorage::new();
    assert_eq!(FactoryContract::transfer_username(&mut bare, hash(7), addr(10)), Err(FactoryError::Unauthorized));
}

#[test]
fn factory_error_codes() {
    assert_eq!(FactoryError::Unauthorized.code(), Some(1));
    assert_eq!(FactoryError::AlreadyDeployed.code(), Some(2));
    assert_eq!(FactoryError::CoreContractNotConfigured.code(), Some(3));
}

#[test]
fn config_round_trip() {
    let mut env = FactoryStorage::new();
    assert_eq!(get_config(&env), None);
    let config = DeployConfig { core_contract_wasm_hash: hash(3), admin: addr(4) };
    set_config(&mut env, &config);
    assert_eq!(get_config(&env), Some(config));
}

#[test]
fn factory_events() {
    assert_eq!(
        username_deployed(&hash(1), &addr(2), 3),
        UsernameDeployed { username_hash: hash(1), owner: addr(2), registered_at: 3 }
    );
    assert_eq!(
        ownership_transferred(&hash(1), &addr(2), &addr(3)),
        OwnershipTransferred { username_hash: hash(1), old_owner: addr(2), new_owner: addr(3) }
    );
}
