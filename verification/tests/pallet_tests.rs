use pallet_sponsorship::ledger::Pallet;
use pallet_sponsorship::types::{
    AuthorizationRule, AuthorizationType, Error, Event, PoolConfig, PoolStatus,
};

fn base_config(chains: Vec<u32>, authorization_required: bool) -> PoolConfig {
    PoolConfig {
        max_transaction_value: 1000,
        daily_spending_limit: 5000,
        allowed_chains: chains,
        authorization_required,
    }
}

#[test]
fn create_pool_works() {
    let mut pallet = Pallet::new();
    let config = base_config(vec![2000, 2006], false);

    assert!(pallet.create_pool(1, 2000, config.clone(), 1).is_ok());

    let pool = pallet.pools(0).unwrap();
    assert_eq!(pool.owner, 1);
    assert_eq!(pool.balance, 2000);
    assert_eq!(pool.status, PoolStatus::Active);
    assert_eq!(pool.config.max_transaction_value, config.max_transaction_value);
    assert_eq!(pool.config.daily_spending_limit, config.daily_spending_limit);
    assert_eq!(pool.config.authorization_required, config.authorization_required);

    assert_eq!(
        *pallet.events().last().unwrap(),
        Event::PoolCreated { pool_id: 0, owner: 1, initial_deposit: 2000 }
    );

    assert_eq!(pallet.next_pool_id(), 1);
}

#[test]
fn create_pool_fails_with_insufficient_deposit() {
    let mut pallet = Pallet::new();
    let config = base_config(vec![1000], false);

    assert_eq!(pallet.create_pool(1, 500, config, 0), Err(Error::DepositTooSmall));
}

#[test]
fn fund_pool_works() {
    let mut pallet = Pallet::new();
    let config = base_config(vec![1000], false);

    assert!(pallet.create_pool(1, 2000, config, 1).is_ok());
    assert!(pallet.fund_pool(0, 1, 1000).is_ok());

    let pool = pallet.pools(0).unwrap();
    assert_eq!(pool.balance, 3000);

    assert_eq!(
        *pallet.events().last().unwrap(),
        Event::PoolFunded { pool_id: 0, amount: 1000, new_balance: 3000 }
    );
}

#[test]
fn fund_pool_fails_for_non_owner() {
    let mut pallet = Pallet::new();
    let config = base_config(vec![1000], false);

    assert!(pallet.create_pool(1, 2000, config, 0).is_ok());
    assert_eq!(pallet.fund_pool(0, 2, 1000), Err(Error::NotPoolOwner));
}

#[test]
fn sponsor_transaction_works() {
    let mut pallet = Pallet::new();
    let config = base_config(vec![2006], false);

    assert!(pallet.create_pool(1, 2000, config, 1).is_ok());
    assert!(pallet.sponsor_transaction(0, 2, 2006, vec![1, 2, 3, 4], 1).is_ok());

    let tx = pallet.transaction_log(0).unwrap();
    assert_eq!(tx.pool_id, 0);
    assert_eq!(tx.user, 2);
    assert_eq!(tx.target_chain, 2006);

    let pool = pallet.pools(0).unwrap();
    assert_eq!(pool.balance, 1192);
    assert_eq!(pool.total_spent, 808);

    assert_eq!(
        *pallet.events().last().unwrap(),
        Event::TransactionSponsored {
            transaction_id: 0,
            pool_id: 0,
            user: 2,
            target_chain: 2006,
            gas_cost: 808,
        }
    );
}

#[test]
fn sponsor_transaction_fails_for_unsupported_chain() {
    let mut pallet = Pallet::new();
    let config = base_config(vec![1000], false);

    assert!(pallet.create_pool(1, 2000, config, 0).is_ok());
    assert_eq!(
        pallet.sponsor_transaction(0, 2, 2000, vec![1, 2, 3, 4], 0),
        Err(Error::ChainNotSupported)
    );
}

#[test]
fn update_pool_config_works() {
    let mut pallet = Pallet::new();
    let initial_config = base_config(vec![1000], false);

    assert!(pallet.create_pool(1, 2000, initial_config, 1).is_ok());

    let new_config = PoolConfig {
        max_transaction_value: 2000,
        daily_spending_limit: 10000,
        allowed_chains: vec![1000, 2000, 3000],
        authorization_required: true,
    };

    assert!(pallet.update_pool_config(0, 1, new_config.clone()).is_ok());

    let pool = pallet.pools(0).unwrap();
    assert_eq!(pool.config.max_transaction_value, new_config.max_transaction_value);
    assert_eq!(pool.config.daily_spending_limit, new_config.daily_spending_limit);
    assert_eq!(pool.config.allowed_chains, new_config.allowed_chains);
    assert_eq!(pool.config.authorization_required, new_config.authorization_required);

    assert_eq!(
        *pallet.events().last().unwrap(),
        Event::PoolConfigUpdated { pool_id: 0, owner: 1 }
    );
}

#[test]
fn update_pool_config_fails_for_non_owner() {
    let mut pallet = Pallet::new();
    let config = base_config(vec![1000], false);

    assert!(pallet.create_pool(1, 2000, config.clone(), 0).is_ok());
    assert_eq!(pallet.update_pool_config(0, 2, config), Err(Error::NotPoolOwner));
}

#[test]
fn update_pool_config_fails_for_nonexistent_pool() {
    let mut pallet = Pallet::new();
    let config = base_config(vec![1000], false);

    assert_eq!(pallet.update_pool_config(999, 1, config), Err(Error::PoolNotFound));
}

#[test]
fn add_authorization_rule_works() {
    let mut pallet = Pallet::new();
    let config = base_config(vec![1000], true);

    assert!(pallet.create_pool(1, 2000, config, 1).is_ok());

    let rule = AuthorizationRule {
        rule_type: AuthorizationType::UserWhitelist,
        data: vec![2u8, 3u8, 4u8],
        created_at: 1,
    };

    assert!(pallet.add_authorization_rule(0, 1, rule.clone()).is_ok());

    let stored_rule = pallet.pool_authorizations(0, AuthorizationType::UserWhitelist).unwrap();
    assert_eq!(stored_rule.rule_type, rule.rule_type);
    assert_eq!(stored_rule.data, rule.data);

    assert_eq!(
        *pallet.events().last().unwrap(),
        Event::AuthorizationRuleAdded { pool_id: 0, rule_type: AuthorizationType::UserWhitelist }
    );
}

#[test]
fn add_authorization_rule_fails_for_non_owner() {
    let mut pallet = Pallet::new();
    let config = base_config(vec![1000], true);

    assert!(pallet.create_pool(1, 2000, config, 0).is_ok());

    let rule = AuthorizationRule {
        rule_type: AuthorizationType::UserWhitelist,
        data: vec![2u8],
        created_at: 1,
    };

    assert_eq!(pallet.add_authorization_rule(0, 2, rule), Err(Error::NotPoolOwner));
}

#[test]
fn remove_authorization_rule_works() {
    let mut pallet = Pallet::new();
    let config = base_config(vec![1000], true);

    assert!(pallet.create_pool(1, 2000, config, 1).is_ok());

    let rule = AuthorizationRule {
        rule_type: AuthorizationType::SpendingLimit,
        data: vec![100u8],
        created_at: 1,
    };
    assert!(pallet.add_authorization_rule(0, 1, rule).is_ok());

    assert!(pallet.remove_authorization_rule(0, 1, AuthorizationType::SpendingLimit).is_ok());

    assert!(pallet.pool_authorizations(0, AuthorizationType::SpendingLimit).is_none());

    assert_eq!(
        *pallet.events().last().unwrap(),
        Event::AuthorizationRuleRemoved { pool_id: 0, rule_type: AuthorizationType::SpendingLimit }
    );
}

#[test]
fn remove_authorization_rule_fails_for_non_owner() {
    let mut pallet = Pallet::new();
    let config = base_config(vec![1000], true);

    assert!(pallet.create_pool(1, 2000, config, 0).is_ok());
    assert_eq!(
        pallet.remove_authorization_rule(0, 2, AuthorizationType::UserWhitelist),
        Err(Error::NotPoolOwner)
    );
}

#[test]
fn sponsor_transaction_fails_for_nonexistent_pool() {
    let mut pallet = Pallet::new();

    assert_eq!(
        pallet.sponsor_transaction(999, 1, 1000, vec![1, 2, 3, 4], 0),
        Err(Error::PoolNotFound)
    );
}

#[test]
fn sponsor_transaction_fails_for_insufficient_funds() {
    let mut pallet = Pallet::new();
    let config = base_config(vec![2006], false);

    assert!(pallet.create_pool(1, 1000, config, 0).is_ok());

    assert!(pallet.sponsor_transaction(0, 2, 2006, vec![1, 2, 3, 4], 0).is_ok());

    assert_eq!(
        pallet.sponsor_transaction(0, 2, 2006, vec![5, 6, 7, 8], 0),
        Err(Error::InsufficientFunds)
    );
}

#[test]
fn fund_pool_fails_for_nonexistent_pool() {
    let mut pallet = Pallet::new();

    assert_eq!(pallet.fund_pool(999, 1, 1000), Err(Error::PoolNotFound));
}

#[test]
fn create_pool_with_multiple_chains() {
    let mut pallet = Pallet::new();
    let config = PoolConfig {
        max_transaction_value: 2000,
        daily_spending_limit: 10000,
        allowed_chains: vec![1000, 2000, 3000, 4000],
        authorization_required: false,
    };

    assert!(pallet.create_pool(1, 5000, config.clone(), 1).is_ok());

    let pool = pallet.pools(0).unwrap();
    assert_eq!(pool.config.allowed_chains.len(), 4);
    assert!(pool.config.allowed_chains.contains(&1000));
    assert!(pool.config.allowed_chains.contains(&2000));
    assert!(pool.config.allowed_chains.contains(&3000));
    assert!(pool.config.allowed_chains.contains(&4000));
}

#[test]
fn sponsor_transaction_creates_correct_transaction_record() {
    let mut pallet = Pallet::new();
    let config = base_config(vec![2006], false);

    assert!(pallet.create_pool(1, 3000, config, 5).is_ok());

    let call_data = vec![1, 2, 3, 4, 5];
    assert!(pallet.sponsor_transaction(0, 2, 2006, call_data.clone(), 5).is_ok());

    let tx_record = pallet.transaction_log(0).unwrap();
    assert_eq!(tx_record.id, 0);
    assert_eq!(tx_record.pool_id, 0);
    assert_eq!(tx_record.user, 2);
    assert_eq!(tx_record.target_chain, 2006);
    assert_eq!(tx_record.gas_cost, 810);
    assert_eq!(tx_record.timestamp, 5);

    assert_eq!(pallet.next_transaction_id(), 1);
}

#[test]
fn multiple_pools_can_be_created() {
    let mut pallet = Pallet::new();
    let config1 = base_config(vec![1000], false);
    let config2 = PoolConfig {
        max_transaction_value: 2000,
        daily_spending_limit: 10000,
        allowed_chains: vec![2000],
        authorization_required: true,
    };

    assert!(pallet.create_pool(1, 2000, config1, 1).is_ok());
    assert!(pallet.create_pool(2, 3000, config2, 1).is_ok());

    let pool1 = pallet.pools(0).unwrap();
    assert_eq!(pool1.owner, 1);
    assert_eq!(pool1.balance, 2000);
    let pool2 = pallet.pools(1).unwrap();
    assert_eq!(pool2.owner, 2);
    assert_eq!(pool2.balance, 3000);

    assert_eq!(pallet.next_pool_id(), 2);
}

#[test]
fn pool_balance_updates_correctly_after_funding() {
    let mut pallet = Pallet::new();
    let config = base_config(vec![1000], false);

    assert!(pallet.create_pool(1, 2000, config, 1).is_ok());
    assert!(pallet.fund_pool(0, 1, 1000).is_ok());
    assert!(pallet.fund_pool(0, 1, 500).is_ok());

    let pool = pallet.pools(0).unwrap();
    assert_eq!(pool.balance, 3500);
}

#[test]
fn authorization_rules_can_be_overwritten() {
    let mut pallet = Pallet::new();
    let config = base_config(vec![1000], true);

    assert!(pallet.create_pool(1, 2000, config, 1).is_ok());

    let rule1 = AuthorizationRule {
        rule_type: AuthorizationType::UserWhitelist,
        data: vec![2u8],
        created_at: 1,
    };
    assert!(pallet.add_authorization_rule(0, 1, rule1).is_ok());

    let rule2 = AuthorizationRule {
        rule_type: AuthorizationType::UserWhitelist,
        data: vec![3u8, 4u8],
        created_at: 2,
    };
    assert!(pallet.add_authorization_rule(0, 1, rule2.clone()).is_ok());

    let stored_rule = pallet.pool_authorizations(0, AuthorizationType::UserWhitelist).unwrap();
    assert_eq!(stored_rule.data, rule2.data);
    assert_eq!(stored_rule.created_at, 2);
}
