use genesis_init::code::{implicit_address, required_code_paths, CodeBlobCache};
use genesis_init::dec::{voting_power, Dec};
use genesis_init::genesis::{
    EpochDuration, EstablishedAccount, EthBridgeParams, GenesisParameters, GenesisSpec, GovParams,
    ImplicitAccount, InitChainRequest, InitError, PosParams, Profile, Timestamp, TokenAccount,
    Validator,
};
use genesis_init::init_chain::Shell;
use genesis_init::model::{pos_address, FAUCET_VP_PATH};
use genesis_init::store::KeyMap;
use genesis_init::state::{EthBridgeStatus, StagedStore, DEFAULT_FAUCET_WITHDRAWAL_LIMIT};
use rust_decimal::Decimal;
use sha2::{Digest, Sha256};

const CHAIN: &str = "test-chain.0123";

fn sha(b: &[u8]) -> Vec<u8> {
    let mut h = Sha256::new();
    h.update(b);
    h.finalize().to_vec()
}

fn addr(s: &str) -> Vec<u8> {
    s.as_bytes().to_vec()
}

fn code_of(path: &str) -> Vec<u8> {
    format!("code:{}", path).into_bytes()
}

fn one() -> Dec {
    Dec { mantissa: 1, scale: 0 }
}

fn validator(name: &str, tokens: u64, non_staked: u64) -> Validator {
    Validator {
        address: addr(name),
        tokens,
        consensus_key: addr(&format!("{}-consensus", name)),
        account_key: addr(&format!("{}-account", name)),
        protocol_key: addr(&format!("{}-protocol", name)),
        dkg_public_key: addr(&format!("{}-dkg", name)),
        non_staked_balance: non_staked,
        validator_vp_code_path: "vp_user.wasm".to_string(),
        validator_vp_sha256: sha(&code_of("vp_user.wasm")),
    }
}

fn genesis() -> GenesisSpec {
    GenesisSpec {
        parameters: GenesisParameters {
            epoch_duration: EpochDuration { min_num_of_blocks: 10, min_duration: 60 },
            max_proposal_bytes: 1024,
            max_expected_time_per_block: 30,
            vp_whitelist: vec![],
            tx_whitelist: vec!["tx_transfer.wasm".to_string()],
            implicit_vp_code_path: "vp_implicit.wasm".to_string(),
            implicit_vp_sha256: sha(&code_of("vp_implicit.wasm")),
            epochs_per_year: 365,
            pos_gain_p: Dec { mantissa: 1, scale: 1 },
            pos_gain_d: Dec { mantissa: 1, scale: 1 },
            staked_ratio: Dec { mantissa: 0, scale: 0 },
            pos_inflation_amount: 0,
            wrapper_tx_fees: Some(100),
        },
        gov_params: GovParams {
            min_proposal_fund: 500,
            max_proposal_code_size: 300000,
            min_proposal_period: 3,
            max_proposal_period: 27,
            max_proposal_content_size: 10000,
            min_proposal_grace_epochs: 6,
        },
        ethereum_bridge_params: None,
        established_accounts: vec![EstablishedAccount {
            address: addr("albert"),
            vp_code_path: "vp_user.wasm".to_string(),
            vp_sha256: sha(&code_of("vp_user.wasm")),
            public_key: Some(addr("albert-pk")),
            storage: vec![(addr("k1"), addr("v1")), (addr("k2"), addr("v2"))],
        }],
        implicit_accounts: vec![ImplicitAccount { public_key: addr("christel-pk") }],
        token_accounts: vec![TokenAccount {
            address: addr("nam"),
            vp_code_path: "vp_token.wasm".to_string(),
            vp_sha256: sha(&code_of("vp_token.wasm")),
            balances: vec![(addr("albert"), 500_000), (addr("bertha"), 250_000)],
        }],
        validators: vec![validator("validator-0", 200_000, 50_000)],
        pos_params: PosParams { tm_votes_per_token: one() },
        native_token: addr("nam"),
        faucet_pow_difficulty: None,
        faucet_withdrawal_limit: None,
    }
}

fn cache_for(g: &GenesisSpec) -> CodeBlobCache {
    let mut cache = CodeBlobCache::new();
    for p in required_code_paths(g) {
        let code = code_of(&p);
        cache.insert_once(p, code);
    }
    cache
}

fn request() -> InitChainRequest {
    InitChainRequest {
        chain_id: CHAIN.to_string(),
        time: Some(Timestamp { seconds: 1_000, nanos: 5 }),
        initial_height: 1,
    }
}

fn shell(profile: Profile) -> Shell {
    Shell::new(StagedStore::new(CHAIN.to_string()), profile)
}

fn snapshot(store: &StagedStore, g: &GenesisSpec) -> Vec<String> {
    let mut out = vec![];
    let nam = addr("nam");
    for a in [addr("albert"), addr("bertha"), addr("validator-0"), pos_address()] {
        out.push(format!("{:?}", store.read_balance(&nam, &a)));
        out.push(format!("{:?}", store.read_vp_code(&a)));
        out.push(format!("{:?}", store.read_public_key(&a)));
        out.push(format!("{:?}", store.read_bond(&a)));
    }
    out.push(format!("{:?}", store.read_total_supply(&nam)));
    out.push(format!("{:?}", store.staked_ratio()));
    out.push(format!("{:?}", store.epoch()));
    out.push(format!("{:?}", store.governance()));
    out.push(format!("{:?}", store.parameters()));
    out.push(format!("{:?}", store.ibc_initialized()));
    for (k, _) in &g.established_accounts[0].storage {
        out.push(format!("{:?}", store.read_raw(k)));
    }
    out
}

#[test]
fn test_init_chain_doesnt_commit_db() {
    let g = genesis();
    let cache = cache_for(&g);
    let mut sh = shell(Profile::Testnet);
    sh.init_chain(request(), g.clone(), &cache).unwrap();
    let first = snapshot(&sh.store, &g);
    let second = snapshot(&sh.store, &g);
    assert_eq!(first, second);
}

#[test]
fn bootstrap_writes_accounts_and_validator_set() {
    let g = genesis();
    let cache = cache_for(&g);
    let mut sh = shell(Profile::Testnet);
    let resp = sh.init_chain(request(), g.clone(), &cache).unwrap();
    let s = &sh.store;
    assert_eq!(s.read_vp_code(&addr("albert")), Some(code_of("vp_user.wasm")));
    assert_eq!(s.read_public_key(&addr("albert")), Some(addr("albert-pk")));
    assert_eq!(s.read_raw(&addr("k1")), Some(addr("v1")));
    assert_eq!(s.read_raw(&addr("k2")), Some(addr("v2")));
    assert_eq!(s.read_vp_code(&addr("nam")), Some(code_of("vp_token.wasm")));
    assert_eq!(s.read_public_key(&implicit_address(&addr("christel-pk"))), Some(addr("christel-pk")));
    assert_eq!(s.read_public_key(&addr("validator-0")), Some(addr("validator-0-account")));
    assert_eq!(s.read_protocol_key(&addr("validator-0")), Some(addr("validator-0-protocol")));
    assert_eq!(s.read_dkg_key(&addr("validator-0")), Some(addr("validator-0-dkg")));
    assert_eq!(s.read_bond(&addr("validator-0")), 200_000);
    assert!(s.ibc_initialized());
    assert_eq!(resp.validators.len(), 1);
    assert_eq!(resp.validators[0].pub_key, addr("validator-0-consensus"));
    assert_eq!(resp.validators[0].power, 200_000);
    assert!(!resp.reconfigure_eth_oracle);
    assert!(matches!(s.eth_bridge(), Some(EthBridgeStatus::Disabled)));
    let p = s.parameters().unwrap();
    assert_eq!(p.implicit_vp, code_of("vp_implicit.wasm"));
    assert_eq!(p.faucet_account, None);
    assert_eq!(p.tx_whitelist, vec!["tx_transfer.wasm".to_string()]);
    assert_eq!(s.governance(), Some(g.gov_params));
}

#[test]
fn genesis_epoch_is_set_from_request() {
    let g = genesis();
    let cache = cache_for(&g);
    let mut sh = shell(Profile::Testnet);
    sh.init_chain(request(), g, &cache).unwrap();
    let e = sh.store.epoch().unwrap();
    assert_eq!(e.current_epoch, 0);
    assert_eq!(e.first_block_height, 1);
    assert_eq!(e.next_epoch_min_start_height, 11);
    assert_eq!(e.next_epoch_min_start_time, Timestamp { seconds: 1_060, nanos: 5 });
}

#[test]
fn supply_equals_sum_of_credits() {
    let g = genesis();
    let cache = cache_for(&g);
    let mut sh = shell(Profile::Testnet);
    sh.init_chain(request(), g, &cache).unwrap();
    let nam = addr("nam");
    let s = &sh.store;
    let credited: u64 = [addr("albert"), addr("bertha"), addr("validator-0"), pos_address()]
        .iter()
        .map(|a| s.read_balance(&nam, a))
        .sum();
    assert_eq!(credited, 500_000 + 250_000 + 50_000 + 200_000);
    assert_eq!(s.read_total_supply(&nam), credited);
}

#[test]
fn staked_ratio_is_exact_quarter() {
    let mut g = genesis();
    g.token_accounts[0].balances = vec![(addr("albert"), 750_000)];
    g.validators = vec![validator("validator-0", 250_000, 0)];
    let cache = cache_for(&g);
    let mut sh = shell(Profile::Testnet);
    sh.init_chain(request(), g, &cache).unwrap();
    assert_eq!(sh.store.read_total_supply(&addr("nam")), 1_000_000);
    let r = sh.store.staked_ratio().unwrap();
    let d = Decimal::from_i128_with_scale(r.mantissa, r.scale);
    assert_eq!(d, Decimal::new(25, 2));
}

#[test]
fn voting_power_orders_stakes() {
    let p100 = voting_power(one(), 100).unwrap();
    let p200 = voting_power(one(), 200).unwrap();
    assert_eq!(p100, 100);
    assert_eq!(p200, 200);
    assert!(p200 > p100 && p100 >= 0);
    let milli = Dec { mantissa: 1, scale: 3 };
    assert_eq!(voting_power(milli, 100_000), Some(100));
    assert_eq!(voting_power(milli, 200_999), Some(200));
    assert_eq!(voting_power(milli, 999), Some(0));
    assert_eq!(voting_power(one(), u64::MAX), None);
}

#[test]
fn validator_powers_keep_genesis_order() {
    let mut g = genesis();
    g.validators = vec![validator("validator-0", 200, 0), validator("validator-1", 100, 0)];
    let cache = cache_for(&g);
    let mut sh = shell(Profile::Testnet);
    let resp = sh.init_chain(request(), g, &cache).unwrap();
    assert_eq!(resp.validators[0].power, 200);
    assert_eq!(resp.validators[1].power, 100);
    assert_eq!(resp.validators[1].pub_key, addr("validator-1-consensus"));
}

#[test]
fn chain_id_mismatch_writes_nothing() {
    let g = genesis();
    let cache = cache_for(&g);
    let mut sh = shell(Profile::Testnet);
    let mut req = request();
    req.chain_id = "other-chain".to_string();
    let r = sh.init_chain(req, g.clone(), &cache);
    match r {
        Err(InitError::ChainIdMismatch { current, requested }) => {
            assert_eq!(current, CHAIN);
            assert_eq!(requested, "other-chain");
        }
        _ => panic!("expected a chain id mismatch"),
    }
    assert!(sh.store.parameters().is_none());
    assert!(sh.store.epoch().is_none());
    assert_eq!(sh.store.read_total_supply(&addr("nam")), 0);
}

#[test]
fn hash_mismatch_fails_with_path() {
    let mut g = genesis();
    g.established_accounts[0].vp_sha256 = sha(b"something else");
    let cache = cache_for(&g);
    let mut sh = shell(Profile::Testnet);
    let r = sh.init_chain(request(), g, &cache);
    match r {
        Err(InitError::HashVerificationFailure(p)) => assert_eq!(p, "vp_user.wasm"),
        _ => panic!("expected a hash failure"),
    }
    assert_eq!(sh.store.read_vp_code(&addr("albert")), None);
}

#[test]
fn implicit_vp_hash_mismatch_writes_nothing() {
    let mut g = genesis();
    g.parameters.implicit_vp_sha256 = vec![0; 32];
    let cache = cache_for(&g);
    let mut sh = shell(Profile::Mainnet);
    let r = sh.init_chain(request(), g, &cache);
    assert!(matches!(r, Err(InitError::HashVerificationFailure(ref p)) if p == "vp_implicit.wasm"));
    assert!(sh.store.parameters().is_none());
}

#[test]
fn development_profile_skips_hash_checks() {
    let mut g = genesis();
    g.established_accounts[0].vp_sha256 = vec![];
    g.parameters.implicit_vp_sha256 = vec![];
    let cache = cache_for(&g);
    let mut sh = shell(Profile::Development);
    assert!(sh.init_chain(request(), g, &cache).is_ok());
    assert_eq!(sh.store.read_vp_code(&addr("albert")), Some(code_of("vp_user.wasm")));
}

#[test]
fn missing_code_is_load_failure() {
    let g = genesis();
    let mut cache = CodeBlobCache::new();
    cache.insert_once("vp_implicit.wasm".to_string(), code_of("vp_implicit.wasm"));
    cache.insert_once("vp_user.wasm".to_string(), code_of("vp_user.wasm"));
    let mut sh = shell(Profile::Testnet);
    let r = sh.init_chain(request(), g, &cache);
    assert!(matches!(r, Err(InitError::CodeLoadFailure(ref p)) if p == "vp_token.wasm"));
}

#[test]
fn missing_or_invalid_request_fields() {
    let g = genesis();
    let cache = cache_for(&g);
    let mut req = request();
    req.time = None;
    let r = shell(Profile::Testnet).init_chain(req, g.clone(), &cache);
    assert!(matches!(r, Err(InitError::MissingGenesisTime)));
    let mut req = request();
    req.initial_height = -1;
    let r = shell(Profile::Testnet).init_chain(req, g.clone(), &cache);
    assert!(matches!(r, Err(InitError::InvalidInitialHeight)));
    let mut req = request();
    req.time = Some(Timestamp { seconds: 0, nanos: 1_000_000_000 });
    let r = shell(Profile::Testnet).init_chain(req, g.clone(), &cache);
    assert!(matches!(r, Err(InitError::InvalidGenesisTime)));
    let mut req = request();
    req.time = Some(Timestamp { seconds: i64::MAX, nanos: 0 });
    let r = shell(Profile::Testnet).init_chain(req, g.clone(), &cache);
    assert!(matches!(r, Err(InitError::InvalidGenesisTime)));
    let mut bad = g.clone();
    bad.pos_params.tm_votes_per_token = Dec { mantissa: -1, scale: 0 };
    let r = shell(Profile::Testnet).init_chain(request(), bad, &cache);
    assert!(matches!(r, Err(InitError::InvalidVotesPerToken)));
}

#[test]
fn zero_supply_and_overflow_errors() {
    let mut g = genesis();
    g.token_accounts[0].balances = vec![];
    g.validators = vec![validator("validator-0", 0, 0)];
    let cache = cache_for(&g);
    let r = shell(Profile::Testnet).init_chain(request(), g, &cache);
    assert!(matches!(r, Err(InitError::ZeroTotalSupply)));

    let mut g = genesis();
    g.token_accounts[0].balances = vec![(addr("albert"), u64::MAX), (addr("bertha"), 1)];
    let cache = cache_for(&g);
    let r = shell(Profile::Testnet).init_chain(request(), g, &cache);
    assert!(matches!(r, Err(InitError::BalanceOverflow)));

    let mut g = genesis();
    g.pos_params.tm_votes_per_token = Dec { mantissa: 1, scale: 0 };
    g.token_accounts[0].balances = vec![];
    g.validators = vec![validator("validator-0", u64::MAX, 0)];
    let cache = cache_for(&g);
    let r = shell(Profile::Testnet).init_chain(request(), g, &cache);
    assert!(matches!(r, Err(InitError::VotingPowerOverflow)));
}

#[test]
fn two_runs_are_identical() {
    let g = genesis();
    let cache = cache_for(&g);
    let mut a = shell(Profile::Testnet);
    let mut b = shell(Profile::Testnet);
    let ra = a.init_chain(request(), g.clone(), &cache).unwrap();
    let rb = b.init_chain(request(), g.clone(), &cache).unwrap();
    assert_eq!(snapshot(&a.store, &g), snapshot(&b.store, &g));
    assert_eq!(format!("{:?}", ra), format!("{:?}", rb));
}

#[test]
fn code_paths_are_listed_once() {
    let mut g = genesis();
    g.validators.push(validator("validator-1", 10, 0));
    g.token_accounts.push(TokenAccount {
        address: addr("btc"),
        vp_code_path: "vp_token.wasm".to_string(),
        vp_sha256: sha(&code_of("vp_token.wasm")),
        balances: vec![],
    });
    let paths = required_code_paths(&g);
    assert_eq!(
        paths,
        vec![
            "vp_implicit.wasm".to_string(),
            "vp_user.wasm".to_string(),
            "vp_token.wasm".to_string()
        ]
    );
}

#[test]
fn cache_inserts_once_per_path() {
    let mut cache = CodeBlobCache::new();
    assert!(cache.insert_once("a.wasm".to_string(), vec![1]));
    assert!(!cache.insert_once("a.wasm".to_string(), vec![2]));
    assert_eq!(cache.get(&"a.wasm".to_string()), Some(&vec![1]));
    assert!(cache.contains(&"a.wasm".to_string()));
    assert!(!cache.contains(&"b.wasm".to_string()));
}

#[test]
fn faucet_gets_default_challenge_state() {
    let mut g = genesis();
    g.established_accounts.push(EstablishedAccount {
        address: addr("faucet"),
        vp_code_path: FAUCET_VP_PATH.to_string(),
        vp_sha256: sha(&code_of(FAUCET_VP_PATH)),
        public_key: None,
        storage: vec![],
    });
    let cache = cache_for(&g);
    let mut sh = shell(Profile::Testnet);
    sh.init_chain(request(), g.clone(), &cache).unwrap();
    let f = sh.store.read_faucet(&addr("faucet")).unwrap();
    assert_eq!(f.difficulty, 0);
    assert_eq!(f.withdrawal_limit, DEFAULT_FAUCET_WITHDRAWAL_LIMIT);
    assert_eq!(f.withdrawal_limit, 1_000 * 1_000_000);
    assert_eq!(sh.store.parameters().unwrap().faucet_account, Some(addr("faucet")));

    let mut g2 = g.clone();
    g2.faucet_pow_difficulty = Some(3);
    g2.faucet_withdrawal_limit = Some(77);
    let mut sh = shell(Profile::Testnet);
    sh.init_chain(request(), g2, &cache).unwrap();
    let f = sh.store.read_faucet(&addr("faucet")).unwrap();
    assert_eq!((f.difficulty, f.withdrawal_limit), (3, 77));

    let mut sh = shell(Profile::Mainnet);
    sh.init_chain(request(), g, &cache).unwrap();
    assert_eq!(sh.store.read_faucet(&addr("faucet")), None);
    assert_eq!(sh.store.parameters().unwrap().faucet_account, None);
}

#[test]
fn bridge_enabled_when_configured() {
    let mut g = genesis();
    g.ethereum_bridge_params = Some(EthBridgeParams {
        min_confirmations: 100,
        bridge_contract: vec![1; 20],
        governance_contract: vec![2; 20],
    });
    let cache = cache_for(&g);
    let mut sh = shell(Profile::Testnet);
    let resp = sh.init_chain(request(), g, &cache).unwrap();
    assert!(resp.reconfigure_eth_oracle);
    match sh.store.eth_bridge() {
        Some(EthBridgeStatus::Enabled(c)) => assert_eq!(c.min_confirmations, 100),
        _ => panic!("expected an enabled bridge"),
    }
}

#[test]
fn implicit_address_is_tagged_digest_prefix() {
    let pk = addr("christel-pk");
    let a = implicit_address(&pk);
    assert_eq!(a.len(), 21);
    assert_eq!(a[0], 1);
    assert_eq!(&a[1..], &sha(&pk)[..20]);
}

#[test]
fn committed_entries_are_untouched() {
    let mut durable = KeyMap::new();
    durable.insert(addr("height"), addr("0"));
    let store = StagedStore::open(CHAIN.to_string(), durable);
    let mut sh = Shell::new(store, Profile::Testnet);
    let g = genesis();
    let cache = cache_for(&g);
    sh.init_chain(request(), g, &cache).unwrap();
    assert_eq!(sh.store.read_durable(&addr("height")), Some(addr("0")));
    assert_eq!(sh.store.read_durable(&addr("albert")), None);
    assert_eq!(sh.store.read_vp_code(&addr("albert")), Some(code_of("vp_user.wasm")));
}

#[test]
fn missing_epoch_is_fatal_for_validator_set() {
    let mut sh = shell(Profile::Testnet);
    let r = sh.set_initial_validators(&vec![], &PosParams { tm_votes_per_token: one() }, &addr("nam"));
    assert!(matches!(r, Err(InitError::MissingGenesisEpoch)));
    assert!(!sh.store.ibc_initialized());
}

#[test]
fn missing_staked_balance_is_fatal() {
    let mut g = genesis();
    g.validators = vec![];
    let cache = cache_for(&g);
    let mut sh = shell(Profile::Testnet);
    let r = sh.init_chain(request(), g, &cache);
    assert!(matches!(r, Err(InitError::MissingStakedBalance)));
    assert!(!sh.store.ibc_initialized());
}

#[test]
fn failures_leave_the_failing_account_unwritten() {
    let mut g = genesis();
    g.token_accounts[0].vp_sha256 = vec![7; 32];
    let cache = cache_for(&g);
    let mut sh = shell(Profile::Testnet);
    let r = sh.init_chain(request(), g, &cache);
    assert!(matches!(r, Err(InitError::HashVerificationFailure(ref p)) if p == "vp_token.wasm"));
    assert_eq!(sh.store.read_vp_code(&addr("nam")), None);
    assert_eq!(sh.store.read_total_supply(&addr("nam")), 0);
    assert_eq!(sh.store.read_vp_code(&addr("albert")), Some(code_of("vp_user.wasm")));

    let mut g = genesis();
    g.validators[0].validator_vp_code_path = "vp_missing.wasm".to_string();
    let cache = cache_for(&genesis());
    let mut sh = shell(Profile::Testnet);
    let r = sh.init_chain(request(), g, &cache);
    assert!(matches!(r, Err(InitError::CodeLoadFailure(ref p)) if p == "vp_missing.wasm"));
    assert_eq!(sh.store.read_vp_code(&addr("validator-0")), None);
    assert_eq!(sh.store.read_public_key(&addr("validator-0")), None);
    assert_eq!(sh.store.read_total_supply(&addr("nam")), 750_000);
}

#[test]
fn zero_supply_sets_no_ratio_and_no_ibc() {
    let mut g = genesis();
    g.token_accounts[0].balances = vec![];
    g.validators = vec![validator("validator-0", 0, 0)];
    g.parameters.staked_ratio = Dec { mantissa: 3, scale: 1 };
    let cache = cache_for(&g);
    let mut sh = shell(Profile::Testnet);
    let r = sh.init_chain(request(), g, &cache);
    assert!(matches!(r, Err(InitError::ZeroTotalSupply)));
    assert_eq!(sh.store.staked_ratio(), Some(Dec { mantissa: 3, scale: 1 }));
    assert!(!sh.store.ibc_initialized());
}

#[test]
fn product_past_96_bits_has_no_power() {
    let big = Dec { mantissa: 1 << 40, scale: 0 };
    assert_eq!(voting_power(big, 1 << 20), Some(1 << 60));
    assert_eq!(voting_power(big, 1 << 56), None);
}
