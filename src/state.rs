//! The state that bootstrap writes: the staged store and its abstract view.
use vstd::prelude::*;
use crate::dec::Dec;
use crate::genesis::{EpochDuration, EthBridgeParams, GovParams, InitError, Timestamp};
use crate::store::KeyMap;

verus! {

/// Withdrawal limit of a faucet whose genesis entry sets none: 1000 whole
/// tokens of one million units each.
pub const DEFAULT_FAUCET_WITHDRAWAL_LIMIT: u64 = 1_000_000_000;

/// Challenge state of a faucet account.
#[derive(Clone, Copy, Debug, PartialEq, Eq, Structural)]
pub struct FaucetParams {
    pub difficulty: u64,
    pub withdrawal_limit: u64,
}

impl View for FaucetParams {
    type V = FaucetParams;

    open spec fn view(&self) -> FaucetParams {
        *self
    }
}

/// Epoch bookkeeping set up at genesis.
#[derive(Clone, Copy, Debug, PartialEq, Eq, Structural)]
pub struct EpochState {
    pub current_epoch: u64,
    pub first_block_height: u64,
    pub next_epoch_min_start_height: u64,
    pub next_epoch_min_start_time: Timestamp,
}

/// Whether the Ethereum bridge runs, and with which configuration.
#[derive(Clone, Debug)]
pub enum EthBridgeStatus {
    Disabled,
    Enabled(EthBridgeParams),
}

/// The protocol parameters as stored.
#[derive(Clone, Debug)]
pub struct Parameters {
    pub epoch_duration: EpochDuration,
    pub max_proposal_bytes: u64,
    pub max_expected_time_per_block: u64,
    pub vp_whitelist: Vec<String>,
    pub tx_whitelist: Vec<String>,
    /// Code of implicit accounts.
    pub implicit_vp: Vec<u8>,
    pub epochs_per_year: u64,
    pub pos_gain_p: Dec,
    pub pos_gain_d: Dec,
    pub pos_inflation_amount: u64,
    pub faucet_account: Option<Vec<u8>>,
    pub wrapper_tx_fees: Option<u64>,
}

/// What the stored parameters mean.
pub struct ParametersView {
    pub epoch_duration: EpochDuration,
    pub max_proposal_bytes: u64,
    pub max_expected_time_per_block: u64,
    pub vp_whitelist: Seq<String>,
    pub tx_whitelist: Seq<String>,
    pub implicit_vp: Seq<u8>,
    pub epochs_per_year: u64,
    pub pos_gain_p: Dec,
    pub pos_gain_d: Dec,
    pub pos_inflation_amount: u64,
    pub faucet_account: Option<Seq<u8>>,
    pub wrapper_tx_fees: Option<u64>,
}

impl View for Parameters {
    type V = ParametersView;

    open spec fn view(&self) -> ParametersView {
        ParametersView {
            epoch_duration: self.epoch_duration,
            max_proposal_bytes: self.max_proposal_bytes,
            max_expected_time_per_block: self.max_expected_time_per_block,
            vp_whitelist: self.vp_whitelist@,
            tx_whitelist: self.tx_whitelist@,
            implicit_vp: self.implicit_vp@,
            epochs_per_year: self.epochs_per_year,
            pos_gain_p: self.pos_gain_p,
            pos_gain_d: self.pos_gain_d,
            pos_inflation_amount: self.pos_inflation_amount,
            faucet_account: match self.faucet_account {
                Some(a) => Some(a@),
                None => None,
            },
            wrapper_tx_fees: self.wrapper_tx_fees,
        }
    }
}

/// The meaning of a staged store: one map or record per kind of entry.
pub struct StoreView {
    pub chain_id: Seq<char>,
    /// Committed entries, as they stand in durable storage.
    pub durable: Map<Seq<u8>, Seq<u8>>,
    /// Account code by address.
    pub vp_code: Map<Seq<u8>, Seq<u8>>,
    /// Account public keys by address.
    pub public_keys: Map<Seq<u8>, Seq<u8>>,
    pub protocol_keys: Map<Seq<u8>, Seq<u8>>,
    pub dkg_keys: Map<Seq<u8>, Seq<u8>>,
    /// Entries that genesis authors supply verbatim.
    pub raw: Map<Seq<u8>, Seq<u8>>,
    /// Balances by `(token, owner)`.
    pub balances: Map<(Seq<u8>, Seq<u8>), u64>,
    /// Total supply by token.
    pub supply: Map<Seq<u8>, u64>,
    /// Bonded stake by validator.
    pub bonds: Map<Seq<u8>, u64>,
    pub faucets: Map<Seq<u8>, FaucetParams>,
    pub parameters: Option<ParametersView>,
    pub staked_ratio: Option<Dec>,
    pub governance: Option<GovParams>,
    pub eth_bridge: Option<EthBridgeStatus>,
    pub epoch: Option<EpochState>,
    pub ibc_initialized: bool,
}

/// The write-buffered state of a node. Nothing here reaches durable storage
/// until its owner commits it, which bootstrap never does.
pub struct StagedStore {
    chain_id: String,
    durable: KeyMap<Vec<u8>, Vec<u8>>,
    pub(crate) vp_code: KeyMap<Vec<u8>, Vec<u8>>,
    pub(crate) public_keys: KeyMap<Vec<u8>, Vec<u8>>,
    pub(crate) protocol_keys: KeyMap<Vec<u8>, Vec<u8>>,
    pub(crate) dkg_keys: KeyMap<Vec<u8>, Vec<u8>>,
    pub(crate) raw: KeyMap<Vec<u8>, Vec<u8>>,
    pub(crate) balances: KeyMap<(Vec<u8>, Vec<u8>), u64>,
    pub(crate) supply: KeyMap<Vec<u8>, u64>,
    pub(crate) bonds: KeyMap<Vec<u8>, u64>,
    pub(crate) faucets: KeyMap<Vec<u8>, FaucetParams>,
    pub(crate) parameters: Option<Parameters>,
    pub(crate) staked_ratio: Option<Dec>,
    pub(crate) governance: Option<GovParams>,
    pub(crate) eth_bridge: Option<EthBridgeStatus>,
    pub(crate) epoch: Option<EpochState>,
    pub(crate) ibc_initialized: bool,
}

impl View for StagedStore {
    type V = StoreView;

    closed spec fn view(&self) -> StoreView {
        StoreView {
            chain_id: self.chain_id@,
            durable: self.durable@,
            vp_code: self.vp_code@,
            public_keys: self.public_keys@,
            protocol_keys: self.protocol_keys@,
            dkg_keys: self.dkg_keys@,
            raw: self.raw@,
            balances: self.balances@,
            supply: self.supply@,
            bonds: self.bonds@,
            faucets: self.faucets@,
            parameters: match self.parameters {
                Some(p) => Some(p@),
                None => None,
            },
            staked_ratio: self.staked_ratio,
            governance: self.governance,
            eth_bridge: self.eth_bridge,
            epoch: self.epoch,
            ibc_initialized: self.ibc_initialized,
        }
    }
}

/// A balance or a supply that was never written reads as zero.
pub open spec fn amount_or_zero<K>(m: Map<K, u64>, k: K) -> nat {
    if m.contains_key(k) {
        m[k] as nat
    } else {
        0
    }
}

/// The state after crediting `amount` to `owner` in `token`: both the
/// balance and the total supply grow by `amount`, unless either would pass
/// `u64::MAX`.
pub open spec fn spec_credit(s: StoreView, token: Seq<u8>, owner: Seq<u8>, amount: u64) -> Result<
    StoreView,
    (StoreView, InitError),
> {
    let bal = amount_or_zero(s.balances, (token, owner));
    let sup = amount_or_zero(s.supply, token);
    if bal + amount > u64::MAX || sup + amount > u64::MAX {
        Err((s, InitError::BalanceOverflow))
    } else {
        Ok(
            StoreView {
                balances: s.balances.insert((token, owner), (bal + amount) as u64),
                supply: s.supply.insert(token, (sup + amount) as u64),
                ..s
            },
        )
    }
}

/// A store of the chain `chain_id` with nothing in it.
pub open spec fn empty_view(chain_id: Seq<char>) -> StoreView {
    StoreView {
        chain_id,
        durable: Map::empty(),
        vp_code: Map::empty(),
        public_keys: Map::empty(),
        protocol_keys: Map::empty(),
        dkg_keys: Map::empty(),
        raw: Map::empty(),
        balances: Map::empty(),
        supply: Map::empty(),
        bonds: Map::empty(),
        faucets: Map::empty(),
        parameters: None,
        staked_ratio: None,
        governance: None,
        eth_bridge: None,
        epoch: None,
        ibc_initialized: false,
    }
}

impl StagedStore {
    /// An empty store for the chain `chain_id`.
    pub fn new(chain_id: String) -> (r: Self)
        ensures
            r@ == empty_view(chain_id@),
    {
        StagedStore {
            chain_id,
            durable: KeyMap::new(),
            vp_code: KeyMap::new(),
            public_keys: KeyMap::new(),
            protocol_keys: KeyMap::new(),
            dkg_keys: KeyMap::new(),
            raw: KeyMap::new(),
            balances: KeyMap::new(),
            supply: KeyMap::new(),
            bonds: KeyMap::new(),
            faucets: KeyMap::new(),
            parameters: None,
            staked_ratio: None,
            governance: None,
            eth_bridge: None,
            epoch: None,
            ibc_initialized: false,
        }
    }

    /// A store for the chain `chain_id` over the committed entries
    /// `durable`, with nothing staged.
    pub fn open(chain_id: String, durable: KeyMap<Vec<u8>, Vec<u8>>) -> (r: Self)
        ensures
            r@ == (StoreView { durable: durable@, ..empty_view(chain_id@) }),
    {
        let mut r = Self::new(chain_id);
        r.durable = durable;
        r
    }

    /// The committed entry under `key`.
    pub fn read_durable(&self, key: &Vec<u8>) -> (r: Option<Vec<u8>>)
        ensures
            r is Some <==> self@.durable.contains_key(key@),
            r is Some ==> r.unwrap()@ == self@.durable[key@],
    {
        match self.durable.get(key) {
            Some(v) => Some(v.clone()),
            None => None,
        }
    }

    /// The chain this store belongs to.
    pub fn chain_id(&self) -> (r: &String)
        ensures
            r@ == self@.chain_id,
    {
        &self.chain_id
    }

    /// The balance of `owner` in `token`, zero where none was credited.
    pub fn read_balance(&self, token: &Vec<u8>, owner: &Vec<u8>) -> (r: u64)
        ensures
            r == amount_or_zero(self@.balances, (token@, owner@)),
    {
        let key = (token.clone(), owner.clone());
        match self.balances.get(&key) {
            Some(v) => *v,
            None => 0,
        }
    }

    /// Whether a balance of `owner` in `token` was ever written.
    pub fn has_balance(&self, token: &Vec<u8>, owner: &Vec<u8>) -> (r: bool)
        ensures
            r == self@.balances.contains_key((token@, owner@)),
    {
        let key = (token.clone(), owner.clone());
        self.balances.contains(&key)
    }

    /// The total supply of `token`, zero where none was credited.
    pub fn read_total_supply(&self, token: &Vec<u8>) -> (r: u64)
        ensures
            r == amount_or_zero(self@.supply, token@),
    {
        match self.supply.get(token) {
            Some(v) => *v,
            None => 0,
        }
    }

    /// The stake bonded to `validator`, zero where none was.
    pub fn read_bond(&self, validator: &Vec<u8>) -> (r: u64)
        ensures
            r == amount_or_zero(self@.bonds, validator@),
    {
        match self.bonds.get(validator) {
            Some(v) => *v,
            None => 0,
        }
    }

    /// The code stored for `address`.
    pub fn read_vp_code(&self, address: &Vec<u8>) -> (r: Option<Vec<u8>>)
        ensures
            r is Some <==> self@.vp_code.contains_key(address@),
            r is Some ==> r.unwrap()@ == self@.vp_code[address@],
    {
        match self.vp_code.get(address) {
            Some(v) => Some(v.clone()),
            None => None,
        }
    }

    /// The public key stored for `address`.
    pub fn read_public_key(&self, address: &Vec<u8>) -> (r: Option<Vec<u8>>)
        ensures
            r is Some <==> self@.public_keys.contains_key(address@),
            r is Some ==> r.unwrap()@ == self@.public_keys[address@],
    {
        match self.public_keys.get(address) {
            Some(v) => Some(v.clone()),
            None => None,
        }
    }

    /// The protocol key stored for `address`.
    pub fn read_protocol_key(&self, address: &Vec<u8>) -> (r: Option<Vec<u8>>)
        ensures
            r is Some <==> self@.protocol_keys.contains_key(address@),
            r is Some ==> r.unwrap()@ == self@.protocol_keys[address@],
    {
        match self.protocol_keys.get(address) {
            Some(v) => Some(v.clone()),
            None => None,
        }
    }

    /// The session key stored for `address`.
    pub fn read_dkg_key(&self, address: &Vec<u8>) -> (r: Option<Vec<u8>>)
        ensures
            r is Some <==> self@.dkg_keys.contains_key(address@),
            r is Some ==> r.unwrap()@ == self@.dkg_keys[address@],
    {
        match self.dkg_keys.get(address) {
            Some(v) => Some(v.clone()),
            None => None,
        }
    }

    /// The raw entry stored under `key`.
    pub fn read_raw(&self, key: &Vec<u8>) -> (r: Option<Vec<u8>>)
        ensures
            r is Some <==> self@.raw.contains_key(key@),
            r is Some ==> r.unwrap()@ == self@.raw[key@],
    {
        match self.raw.get(key) {
            Some(v) => Some(v.clone()),
            None => None,
        }
    }

    /// The faucet state of `address`.
    pub fn read_faucet(&self, address: &Vec<u8>) -> (r: Option<FaucetParams>)
        ensures
            r is Some <==> self@.faucets.contains_key(address@),
            r is Some ==> r.unwrap() == self@.faucets[address@],
    {
        match self.faucets.get(address) {
            Some(v) => Some(*v),
            None => None,
        }
    }

    /// The staked-ratio parameter.
    pub fn staked_ratio(&self) -> (r: Option<Dec>)
        ensures
            r == self@.staked_ratio,
    {
        self.staked_ratio
    }

    /// The genesis epoch bookkeeping.
    pub fn epoch(&self) -> (r: Option<EpochState>)
        ensures
            r == self@.epoch,
    {
        self.epoch
    }

    /// The governance configuration.
    pub fn governance(&self) -> (r: Option<GovParams>)
        ensures
            r == self@.governance,
    {
        self.governance
    }

    /// The stored protocol parameters.
    pub fn parameters(&self) -> (r: Option<&Parameters>)
        ensures
            r is Some <==> self@.parameters is Some,
            r is Some ==> Some(r.unwrap()@) == self@.parameters,
    {
        match &self.parameters {
            Some(p) => Some(p),
            None => None,
        }
    }

    /// Whether the Ethereum bridge was recorded as enabled, disabled, or not
    /// at all.
    pub fn eth_bridge(&self) -> (r: Option<&EthBridgeStatus>)
        ensures
            r is Some <==> self@.eth_bridge is Some,
            r is Some ==> Some(*r.unwrap()) == self@.eth_bridge,
    {
        match &self.eth_bridge {
            Some(s) => Some(s),
            None => None,
        }
    }

    /// Whether interchain messaging was set up.
    pub fn ibc_initialized(&self) -> (r: bool)
        ensures
            r == self@.ibc_initialized,
    {
        self.ibc_initialized
    }

    /// Stores `code` as the code of `address`.
    pub(crate) fn write_vp_code(&mut self, address: Vec<u8>, code: Vec<u8>)
        ensures
            final(self)@ == (StoreView { vp_code: old(self)@.vp_code.insert(address@, code@), ..old(self)@ }),
    {
        self.vp_code.insert(address, code);
    }

    /// Stores the public key of `address`.
    pub(crate) fn write_public_key(&mut self, address: Vec<u8>, key: Vec<u8>)
        ensures
            final(self)@ == (StoreView { public_keys: old(self)@.public_keys.insert(address@, key@), ..old(self)@ }),
    {
        self.public_keys.insert(address, key);
    }

    /// Stores the protocol key of `address`.
    pub(crate) fn write_protocol_key(&mut self, address: Vec<u8>, key: Vec<u8>)
        ensures
            final(self)@ == (StoreView { protocol_keys: old(self)@.protocol_keys.insert(address@, key@), ..old(self)@ }),
    {
        self.protocol_keys.insert(address, key);
    }

    /// Stores the session key of `address`.
    pub(crate) fn write_dkg_key(&mut self, address: Vec<u8>, key: Vec<u8>)
        ensures
            final(self)@ == (StoreView { dkg_keys: old(self)@.dkg_keys.insert(address@, key@), ..old(self)@ }),
    {
        self.dkg_keys.insert(address, key);
    }

    /// Stores a raw entry.
    pub(crate) fn write_raw(&mut self, key: Vec<u8>, value: Vec<u8>)
        ensures
            final(self)@ == (StoreView { raw: old(self)@.raw.insert(key@, value@), ..old(self)@ }),
    {
        self.raw.insert(key, value);
    }

    /// Records the bonded stake of `validator`.
    pub(crate) fn write_bond(&mut self, validator: Vec<u8>, amount: u64)
        ensures
            final(self)@ == (StoreView { bonds: old(self)@.bonds.insert(validator@, amount), ..old(self)@ }),
    {
        self.bonds.insert(validator, amount);
    }

    /// Records the faucet state of `address`.
    pub(crate) fn write_faucet(&mut self, address: Vec<u8>, params: FaucetParams)
        ensures
            final(self)@ == (StoreView { faucets: old(self)@.faucets.insert(address@, params), ..old(self)@ }),
    {
        self.faucets.insert(address, params);
    }

    pub(crate) fn set_parameters(&mut self, p: Parameters)
        ensures
            final(self)@ == (StoreView { parameters: Some(p@), ..old(self)@ }),
    {
        self.parameters = Some(p);
    }

    pub(crate) fn set_staked_ratio(&mut self, r: Dec)
        ensures
            final(self)@ == (StoreView { staked_ratio: Some(r), ..old(self)@ }),
    {
        self.staked_ratio = Some(r);
    }

    pub(crate) fn set_governance(&mut self, g: GovParams)
        ensures
            final(self)@ == (StoreView { governance: Some(g), ..old(self)@ }),
    {
        self.governance = Some(g);
    }

    pub(crate) fn set_eth_bridge(&mut self, status: EthBridgeStatus)
        ensures
            final(self)@ == (StoreView { eth_bridge: Some(status), ..old(self)@ }),
    {
        self.eth_bridge = Some(status);
    }

    pub(crate) fn set_epoch(&mut self, e: EpochState)
        ensures
            final(self)@ == (StoreView { epoch: Some(e), ..old(self)@ }),
    {
        self.epoch = Some(e);
    }

    pub(crate) fn set_ibc_initialized(&mut self)
        ensures
            final(self)@ == (StoreView { ibc_initialized: true, ..old(self)@ }),
    {
        self.ibc_initialized = true;
    }

    /// Adds `amount` to the balance of `owner` in `token` and to the total
    /// supply of `token`.
    pub fn credit_tokens(&mut self, token: &Vec<u8>, owner: &Vec<u8>, amount: u64) -> (r: Result<
        (),
        InitError,
    >)
        ensures
            match spec_credit(old(self)@, token@, owner@, amount) {
                Ok(s) => r is Ok && final(self)@ == s,
                Err((s, e)) => r == Err::<(), InitError>(e) && final(self)@ == s,
            },
    {
        let bal = self.read_balance(token, owner);
        let sup = self.read_total_supply(token);
        match (bal.checked_add(amount), sup.checked_add(amount)) {
            (Some(nb), Some(ns)) => {
                self.balances.insert((token.clone(), owner.clone()), nb);
                self.supply.insert(token.clone(), ns);
                Ok(())
            },
            _ => Err(InitError::BalanceOverflow),
        }
    }
}

} // verus!
