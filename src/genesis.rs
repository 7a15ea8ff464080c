//! The genesis specification and the chain-init request and response.
use vstd::prelude::*;
use crate::dec::Dec;

verus! {

/// How strictly bootstrap runs, chosen once when the node is configured.
#[derive(Clone, Copy, Debug, PartialEq, Eq, Structural)]
pub enum Profile {
    /// No hash checks; faucet accounts are set up.
    Development,
    /// Every code hash is checked; faucet accounts are set up.
    Testnet,
    /// Every code hash is checked; faucet accounts are not set up.
    Mainnet,
}

impl Profile {
    pub open spec fn spec_checks_hashes(self) -> bool {
        !(self is Development)
    }

    pub open spec fn spec_allows_faucet(self) -> bool {
        !(self is Mainnet)
    }

    /// Whether loaded code is checked against its declared hash.
    pub fn checks_hashes(&self) -> (r: bool)
        ensures
            r == self.spec_checks_hashes(),
    {
        match self {
            Profile::Development => false,
            _ => true,
        }
    }

    /// Whether faucet accounts get their challenge state.
    pub fn allows_faucet(&self) -> (r: bool)
        ensures
            r == self.spec_allows_faucet(),
    {
        match self {
            Profile::Mainnet => false,
            _ => true,
        }
    }
}

/// Minimum length of an epoch, in blocks and in seconds.
#[derive(Clone, Copy, Debug, PartialEq, Eq, Structural)]
pub struct EpochDuration {
    pub min_num_of_blocks: u64,
    pub min_duration: u64,
}

/// Protocol parameters as the genesis file declares them.
#[derive(Clone, Debug)]
pub struct GenesisParameters {
    pub epoch_duration: EpochDuration,
    pub max_proposal_bytes: u64,
    pub max_expected_time_per_block: u64,
    pub vp_whitelist: Vec<String>,
    pub tx_whitelist: Vec<String>,
    pub implicit_vp_code_path: String,
    pub implicit_vp_sha256: Vec<u8>,
    pub epochs_per_year: u64,
    pub pos_gain_p: Dec,
    pub pos_gain_d: Dec,
    pub staked_ratio: Dec,
    pub pos_inflation_amount: u64,
    pub wrapper_tx_fees: Option<u64>,
}

/// Governance configuration.
#[derive(Clone, Copy, Debug, PartialEq, Eq, Structural)]
pub struct GovParams {
    pub min_proposal_fund: u64,
    pub max_proposal_code_size: u64,
    pub min_proposal_period: u64,
    pub max_proposal_period: u64,
    pub max_proposal_content_size: u64,
    pub min_proposal_grace_epochs: u64,
}

/// Configuration of the Ethereum bridge.
#[derive(Clone, Debug)]
pub struct EthBridgeParams {
    pub min_confirmations: u64,
    pub bridge_contract: Vec<u8>,
    pub governance_contract: Vec<u8>,
}

/// Proof-of-stake parameters.
#[derive(Clone, Copy, Debug, PartialEq, Eq, Structural)]
pub struct PosParams {
    /// Consensus votes granted per staked token unit.
    pub tm_votes_per_token: Dec,
}

/// An established account: code, an optional key, and raw storage entries.
#[derive(Clone, Debug)]
pub struct EstablishedAccount {
    pub address: Vec<u8>,
    pub vp_code_path: String,
    pub vp_sha256: Vec<u8>,
    pub public_key: Option<Vec<u8>>,
    pub storage: Vec<(Vec<u8>, Vec<u8>)>,
}

/// An implicit account, known by its public key alone.
#[derive(Clone, Debug)]
pub struct ImplicitAccount {
    pub public_key: Vec<u8>,
}

/// A token account with the balances it credits at genesis.
#[derive(Clone, Debug)]
pub struct TokenAccount {
    pub address: Vec<u8>,
    pub vp_code_path: String,
    pub vp_sha256: Vec<u8>,
    /// `(owner, amount)` pairs.
    pub balances: Vec<(Vec<u8>, u64)>,
}

/// A genesis validator.
#[derive(Clone, Debug)]
pub struct Validator {
    pub address: Vec<u8>,
    /// Staked amount of the native token.
    pub tokens: u64,
    pub consensus_key: Vec<u8>,
    pub account_key: Vec<u8>,
    pub protocol_key: Vec<u8>,
    pub dkg_public_key: Vec<u8>,
    /// Native tokens held outside the stake.
    pub non_staked_balance: u64,
    pub validator_vp_code_path: String,
    pub validator_vp_sha256: Vec<u8>,
}

/// The whole genesis specification.
#[derive(Clone, Debug)]
pub struct GenesisSpec {
    pub parameters: GenesisParameters,
    pub gov_params: GovParams,
    pub ethereum_bridge_params: Option<EthBridgeParams>,
    pub established_accounts: Vec<EstablishedAccount>,
    pub implicit_accounts: Vec<ImplicitAccount>,
    pub token_accounts: Vec<TokenAccount>,
    pub validators: Vec<Validator>,
    pub pos_params: PosParams,
    /// Address of the staking (native) token.
    pub native_token: Vec<u8>,
    pub faucet_pow_difficulty: Option<u64>,
    pub faucet_withdrawal_limit: Option<u64>,
}

/// A wall-clock instant.
#[derive(Clone, Copy, Debug, PartialEq, Eq, Structural)]
pub struct Timestamp {
    pub seconds: i64,
    pub nanos: i32,
}

/// The consensus engine's chain-init request.
#[derive(Clone, Debug)]
pub struct InitChainRequest {
    pub chain_id: String,
    pub time: Option<Timestamp>,
    pub initial_height: i64,
}

/// One entry of the initial validator set.
#[derive(Clone, Debug)]
pub struct ValidatorUpdate {
    pub pub_key: Vec<u8>,
    pub power: i64,
}

/// The answer to the chain-init request.
#[derive(Clone, Debug)]
pub struct InitChainResponse {
    /// The validator set, in the order of the genesis specification.
    pub validators: Vec<ValidatorUpdate>,
    /// Whether the Ethereum oracle must be reconfigured with the new
    /// bridge configuration.
    pub reconfigure_eth_oracle: bool,
}

/// Why bootstrap stopped.
#[derive(Clone, Debug)]
pub enum InitError {
    ChainIdMismatch { current: String, requested: String },
    /// Code was not loaded for this path.
    CodeLoadFailure(String),
    /// Code at this path does not hash to its declared value.
    HashVerificationFailure(String),
    MissingGenesisTime,
    InvalidGenesisTime,
    InvalidInitialHeight,
    /// A credit would take a balance or a total supply past `u64::MAX`.
    BalanceOverflow,
    /// The votes-per-token rate is negative or has too large a scale.
    InvalidVotesPerToken,
    /// The genesis epoch was not in place when the validator set was built.
    MissingGenesisEpoch,
    /// The proof-of-stake balance was absent after bonding.
    MissingStakedBalance,
    /// Total supply of the staking token is zero or absent.
    ZeroTotalSupply,
    /// A validator's voting power does not fit.
    VotingPowerOverflow,
}

} // verus!
