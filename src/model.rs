//! Bootstrap as a function on store views: each initializer is a step, and
//! chain initialization is their composition.
use vstd::prelude::*;
use crate::code::{spec_implicit_address, spec_verified_code};
use crate::dec::{decimal_quotient, spec_voting_power, Dec};
use crate::genesis::{
    EpochDuration, EstablishedAccount, GenesisParameters, GenesisSpec, ImplicitAccount,
    InitChainRequest, InitChainResponse, InitError, PosParams, Profile, Timestamp, TokenAccount,
    Validator, ValidatorUpdate,
};
use crate::state::{
    amount_or_zero, spec_credit, EpochState, EthBridgeStatus, FaucetParams, ParametersView,
    StoreView, DEFAULT_FAUCET_WITHDRAWAL_LIMIT,
};

verus! {

/// Code path that marks an established account as a faucet.
pub const FAUCET_VP_PATH: &'static str = "vp_testnet_faucet.wasm";

/// The state after a step, or the state reached when it stopped and why.
pub type Outcome = Result<StoreView, (StoreView, InitError)>;

/// One step of bootstrap on one item.
pub type Step<A> = spec_fn(StoreView, A) -> Outcome;

/// The state an outcome leaves, whether the step finished or stopped.
pub open spec fn reached(o: Outcome) -> StoreView {
    match o {
        Ok(s) => s,
        Err((s, _)) => s,
    }
}

/// Runs `step` over `xs` in order, stopping at the first error.
pub open spec fn fold_steps<A>(s: StoreView, xs: Seq<A>, step: Step<A>) -> Outcome
    decreases xs.len(),
{
    if xs.len() == 0 {
        Ok(s)
    } else {
        match fold_steps(s, xs.drop_last(), step) {
            Ok(s1) => step(s1, xs.last()),
            Err(e) => Err(e),
        }
    }
}

/// Once a prefix of the items fails, the whole run fails the same way.
pub proof fn lemma_fold_err<A>(s: StoreView, xs: Seq<A>, step: Step<A>, i: int)
    requires
        0 <= i <= xs.len(),
        fold_steps(s, xs.take(i), step) is Err,
    ensures
        fold_steps(s, xs, step) == fold_steps(s, xs.take(i), step),
    decreases xs.len() - i,
{
    if i < xs.len() {
        assert(xs.take(i + 1).drop_last() =~= xs.take(i));
        lemma_fold_err(s, xs, step, i + 1);
    } else {
        assert(xs.take(i) =~= xs);
    }
}

/// The raw map after writing `entries` in order.
pub open spec fn raw_writes(m: Map<Seq<u8>, Seq<u8>>, entries: Seq<(Vec<u8>, Vec<u8>)>) -> Map<
    Seq<u8>,
    Seq<u8>,
>
    decreases entries.len(),
{
    if entries.len() == 0 {
        m
    } else {
        raw_writes(m, entries.drop_last()).insert(entries.last().0@, entries.last().1@)
    }
}

/// Faucet state from the genesis settings, with their defaults.
pub open spec fn spec_faucet_params(difficulty: Option<u64>, limit: Option<u64>) -> FaucetParams {
    FaucetParams {
        difficulty: match difficulty {
            Some(d) => d,
            None => 0,
        },
        withdrawal_limit: match limit {
            Some(l) => l,
            None => DEFAULT_FAUCET_WITHDRAWAL_LIMIT,
        },
    }
}

pub open spec fn is_faucet_path(path: Seq<char>) -> bool {
    path == FAUCET_VP_PATH@
}

/// Whether `path` names the faucet code.
pub fn faucet_path(path: &String) -> (r: bool)
    ensures
        r == is_faucet_path(path@),
{
    let f: String = FAUCET_VP_PATH.to_owned();
    *path == f
}

/// Setting up one established account: its verified code, its key, its raw
/// entries, and its faucet state where it is a faucet.
pub open spec fn established_step(
    s: StoreView,
    a: EstablishedAccount,
    profile: Profile,
    cache: Map<Seq<char>, Seq<u8>>,
    faucet: FaucetParams,
) -> Outcome {
    match spec_verified_code(profile, cache, a.vp_code_path, a.vp_sha256@) {
        Err(e) => Err((s, e)),
        Ok(code) => {
            let s1 = StoreView { vp_code: s.vp_code.insert(a.address@, code), ..s };
            let s2 = match a.public_key {
                Some(pk) => StoreView { public_keys: s1.public_keys.insert(a.address@, pk@), ..s1 },
                None => s1,
            };
            let s3 = StoreView { raw: raw_writes(s2.raw, a.storage@), ..s2 };
            if profile.spec_allows_faucet() && is_faucet_path(a.vp_code_path@) {
                Ok(StoreView { faucets: s3.faucets.insert(a.address@, faucet), ..s3 })
            } else {
                Ok(s3)
            }
        },
    }
}

pub open spec fn established_steps(
    profile: Profile,
    cache: Map<Seq<char>, Seq<u8>>,
    faucet: FaucetParams,
) -> Step<EstablishedAccount> {
    |s: StoreView, a: EstablishedAccount| established_step(s, a, profile, cache, faucet)
}

/// Setting up one implicit account: its key under its derived address.
pub open spec fn implicit_step(s: StoreView, a: ImplicitAccount) -> StoreView {
    StoreView {
        public_keys: s.public_keys.insert(spec_implicit_address(a.public_key@), a.public_key@),
        ..s
    }
}

pub open spec fn implicit_fold(s: StoreView, xs: Seq<ImplicitAccount>) -> StoreView
    decreases xs.len(),
{
    if xs.len() == 0 {
        s
    } else {
        implicit_step(implicit_fold(s, xs.drop_last()), xs.last())
    }
}

/// Crediting `token` to each `(owner, amount)` in turn.
pub open spec fn credit_steps(token: Seq<u8>) -> Step<(Vec<u8>, u64)> {
    |s: StoreView, b: (Vec<u8>, u64)| spec_credit(s, token, b.0@, b.1)
}

/// Setting up one token account: its verified code, then its balances.
pub open spec fn token_step(
    s: StoreView,
    a: TokenAccount,
    profile: Profile,
    cache: Map<Seq<char>, Seq<u8>>,
) -> Outcome {
    match spec_verified_code(profile, cache, a.vp_code_path, a.vp_sha256@) {
        Err(e) => Err((s, e)),
        Ok(code) => fold_steps(
            StoreView { vp_code: s.vp_code.insert(a.address@, code), ..s },
            a.balances@,
            credit_steps(a.address@),
        ),
    }
}

pub open spec fn token_steps(profile: Profile, cache: Map<Seq<char>, Seq<u8>>) -> Step<TokenAccount> {
    |s: StoreView, a: TokenAccount| token_step(s, a, profile, cache)
}

/// Setting up one validator account: verified code, account key, the
/// non-staked balance in the staking token, protocol and session keys.
pub open spec fn validator_step(
    s: StoreView,
    v: Validator,
    profile: Profile,
    cache: Map<Seq<char>, Seq<u8>>,
    staking_token: Seq<u8>,
) -> Outcome {
    match spec_verified_code(profile, cache, v.validator_vp_code_path, v.validator_vp_sha256@) {
        Err(e) => Err((s, e)),
        Ok(code) => {
            let s1 = StoreView {
                vp_code: s.vp_code.insert(v.address@, code),
                public_keys: s.public_keys.insert(v.address@, v.account_key@),
                ..s
            };
            match spec_credit(s1, staking_token, v.address@, v.non_staked_balance) {
                Err(e) => Err(e),
                Ok(s2) => Ok(
                    StoreView {
                        protocol_keys: s2.protocol_keys.insert(v.address@, v.protocol_key@),
                        dkg_keys: s2.dkg_keys.insert(v.address@, v.dkg_public_key@),
                        ..s2
                    },
                ),
            }
        },
    }
}

pub open spec fn validator_steps(
    profile: Profile,
    cache: Map<Seq<char>, Seq<u8>>,
    staking_token: Seq<u8>,
) -> Step<Validator> {
    |s: StoreView, v: Validator| validator_step(s, v, profile, cache, staking_token)
}

/// The internal address of the proof-of-stake system, which holds all
/// bonded stake.
pub open spec fn spec_pos_address() -> Seq<u8> {
    seq![2u8, 112u8, 111u8, 115u8]
}

/// The internal address of the proof-of-stake system.
pub fn pos_address() -> (r: Vec<u8>)
    ensures
        r@ == spec_pos_address(),
{
    let mut r: Vec<u8> = Vec::new();
    r.push(2u8);
    r.push(112u8);
    r.push(111u8);
    r.push(115u8);
    assert(r@ =~= spec_pos_address());
    r
}

/// Bonding one validator's stake at genesis: the stake moves into the
/// proof-of-stake account's balance and is recorded as the validator's bond.
pub open spec fn pos_genesis_steps(staking_token: Seq<u8>) -> Step<Validator> {
    |s: StoreView, v: Validator|
        match spec_credit(s, staking_token, spec_pos_address(), v.tokens) {
            Ok(s1) => Ok(StoreView { bonds: s1.bonds.insert(v.address@, v.tokens), ..s1 }),
            Err(e) => Err(e),
        }
}

/// The voting power of each validator, paired with its consensus key, in
/// order; `None` where one does not fit.
pub open spec fn spec_powers(vs: Seq<Validator>, rate: Dec) -> Option<Seq<(Seq<u8>, i64)>>
    decreases vs.len(),
{
    if vs.len() == 0 {
        Some(Seq::empty())
    } else {
        match spec_powers(vs.drop_last(), rate) {
            None => None,
            Some(ps) => match spec_voting_power(rate, vs.last().tokens) {
                None => None,
                Some(p) => Some(ps.push((vs.last().consensus_key@, p))),
            },
        }
    }
}

/// What a list of validator updates says: keys and powers, in order.
pub open spec fn updates_view(us: Seq<ValidatorUpdate>) -> Seq<(Seq<u8>, i64)> {
    Seq::new(us.len(), |i: int| (us[i].pub_key@, us[i].power))
}

/// The staked ratio as stored.
pub open spec fn spec_staked_ratio(staked: u64, total: u64) -> Dec {
    Dec { mantissa: decimal_quotient(staked, total).0, scale: decimal_quotient(staked, total).1 }
}

/// The validator-set builder: with the genesis epoch in place, bond every
/// stake, read back the staking token's total supply and the proof-of-stake
/// balance, record the staked ratio, set up interchain messaging, then derive
/// the voting powers. A missing epoch, supply or proof-of-stake balance means
/// an earlier step did not run, and stops it.
pub open spec fn spec_validator_set(
    s: StoreView,
    validators: Seq<Validator>,
    pos_params: PosParams,
    staking_token: Seq<u8>,
) -> Result<(StoreView, Seq<(Seq<u8>, i64)>), (StoreView, InitError)> {
    if s.epoch is None {
        Err((s, InitError::MissingGenesisEpoch))
    } else {
        match fold_steps(s, validators, pos_genesis_steps(staking_token)) {
            Err(e) => Err(e),
            Ok(s1) => {
                let total = amount_or_zero(s1.supply, staking_token);
                let staked = amount_or_zero(s1.balances, (staking_token, spec_pos_address()));
                if total == 0 {
                    Err((s1, InitError::ZeroTotalSupply))
                } else if !s1.balances.contains_key((staking_token, spec_pos_address())) {
                    Err((s1, InitError::MissingStakedBalance))
                } else {
                    let s2 = StoreView {
                        staked_ratio: Some(spec_staked_ratio(staked as u64, total as u64)),
                        ibc_initialized: true,
                        ..s1
                    };
                    match spec_powers(validators, pos_params.tm_votes_per_token) {
                        None => Err((s2, InitError::VotingPowerOverflow)),
                        Some(ps) => Ok((s2, ps)),
                    }
                }
            },
        }
    }
}

/// Once the powers of a prefix fail, the powers of the whole list fail.
pub proof fn lemma_powers_none(vs: Seq<Validator>, rate: Dec, i: int)
    requires
        0 <= i <= vs.len(),
        spec_powers(vs.take(i), rate) is None,
    ensures
        spec_powers(vs, rate) is None,
    decreases vs.len() - i,
{
    if i < vs.len() {
        assert(vs.take(i + 1).drop_last() =~= vs.take(i));
        lemma_powers_none(vs, rate, i + 1);
    } else {
        assert(vs.take(i) =~= vs);
    }
}

/// Nanoseconds in one second.
pub const NANOS_PER_SECOND: i32 = 1_000_000_000;

/// The genesis epoch bookkeeping for a chain that starts at `height` and
/// `time`, or why the request cannot start one.
pub open spec fn spec_genesis_epoch(height: i64, time: Timestamp, d: EpochDuration) -> Result<
    EpochState,
    InitError,
> {
    if height < 0 || height + d.min_num_of_blocks > u64::MAX {
        Err(InitError::InvalidInitialHeight)
    } else if time.nanos < 0 || time.nanos >= NANOS_PER_SECOND || time.seconds + d.min_duration
        > i64::MAX {
        Err(InitError::InvalidGenesisTime)
    } else {
        Ok(
            EpochState {
                current_epoch: 0,
                first_block_height: height as u64,
                next_epoch_min_start_height: (height + d.min_num_of_blocks) as u64,
                next_epoch_min_start_time: Timestamp {
                    seconds: (time.seconds + d.min_duration) as i64,
                    nanos: time.nanos,
                },
            },
        )
    }
}

/// Starts the genesis epoch: epoch zero, whose successor may start no
/// earlier than one minimum epoch duration later.
pub fn genesis_epoch(height: i64, time: Timestamp, d: EpochDuration) -> (r: Result<EpochState, InitError>)
    ensures
        match r {
            Ok(e) => spec_genesis_epoch(height, time, d) == Ok::<EpochState, InitError>(e),
            Err(e) => spec_genesis_epoch(height, time, d) == Err::<EpochState, InitError>(e),
        },
{
    if height < 0 {
        return Err(InitError::InvalidInitialHeight);
    }
    let h = height as u64;
    let next_height = match h.checked_add(d.min_num_of_blocks) {
        Some(n) => n,
        None => return Err(InitError::InvalidInitialHeight),
    };
    if time.nanos < 0 || time.nanos >= NANOS_PER_SECOND || (time.seconds as i128) + (d.min_duration as i128) > i64::MAX as i128 {
        return Err(InitError::InvalidGenesisTime);
    }
    let next_seconds: i64 = ((time.seconds as i128) + (d.min_duration as i128)) as i64;
    Ok(
        EpochState {
            current_epoch: 0,
            first_block_height: h,
            next_epoch_min_start_height: next_height,
            next_epoch_min_start_time: Timestamp { seconds: next_seconds, nanos: time.nanos },
        },
    )
}

/// The address of the first established account with the faucet code.
pub open spec fn find_faucet(accounts: Seq<EstablishedAccount>) -> Option<Seq<u8>>
    decreases accounts.len(),
{
    if accounts.len() == 0 {
        None
    } else if is_faucet_path(accounts[0].vp_code_path@) {
        Some(accounts[0].address@)
    } else {
        find_faucet(accounts.subrange(1, accounts.len() as int))
    }
}

/// Finds the first established account with the faucet code.
pub fn faucet_account(accounts: &Vec<EstablishedAccount>) -> (r: Option<Vec<u8>>)
    ensures
        match r {
            Some(a) => find_faucet(accounts@) == Some(a@),
            None => find_faucet(accounts@) is None,
        },
{
    let mut i: usize = 0;
    assert(accounts@.subrange(0, accounts@.len() as int) =~= accounts@);
    while i < accounts.len()
        invariant
            i <= accounts@.len(),
            find_faucet(accounts@) == find_faucet(accounts@.subrange(i as int, accounts@.len() as int)),
        decreases accounts@.len() - i,
    {
        let ghost rest = accounts@.subrange(i as int, accounts@.len() as int);
        assert(rest[0] == accounts@[i as int]);
        assert(rest.subrange(1, rest.len() as int) =~= accounts@.subrange(i + 1, accounts@.len() as int));
        if faucet_path(&accounts[i].vp_code_path) {
            return Some(accounts[i].address.clone());
        }
        i = i + 1;
    }
    None
}

/// The stored parameters for the declared ones, the implicit-account code
/// and the faucet account.
pub open spec fn spec_parameters(
    p: GenesisParameters,
    implicit_vp: Seq<u8>,
    faucet_account: Option<Seq<u8>>,
) -> ParametersView {
    ParametersView {
        epoch_duration: p.epoch_duration,
        max_proposal_bytes: p.max_proposal_bytes,
        max_expected_time_per_block: p.max_expected_time_per_block,
        vp_whitelist: p.vp_whitelist@,
        tx_whitelist: p.tx_whitelist@,
        implicit_vp,
        epochs_per_year: p.epochs_per_year,
        pos_gain_p: p.pos_gain_p,
        pos_gain_d: p.pos_gain_d,
        pos_inflation_amount: p.pos_inflation_amount,
        faucet_account,
        wrapper_tx_fees: p.wrapper_tx_fees,
    }
}

/// What bootstrap settles before its first write: the genesis epoch, the
/// implicit-account code and the faucet account; or why it stops.
pub open spec fn spec_preflight(
    profile: Profile,
    cache: Map<Seq<char>, Seq<u8>>,
    init: InitChainRequest,
    g: GenesisSpec,
) -> Result<(EpochState, Seq<u8>, Option<Seq<u8>>), InitError> {
    match init.time {
        None => Err(InitError::MissingGenesisTime),
        Some(t) => match spec_genesis_epoch(init.initial_height, t, g.parameters.epoch_duration) {
            Err(e) => Err(e),
            Ok(epoch) => if !g.pos_params.tm_votes_per_token.valid() {
                Err(InitError::InvalidVotesPerToken)
            } else {
                match spec_verified_code(
                    profile,
                    cache,
                    g.parameters.implicit_vp_code_path,
                    g.parameters.implicit_vp_sha256@,
                ) {
                    Err(e) => Err(e),
                    Ok(vp) => Ok(
                        (
                            epoch,
                            vp,
                            if profile.spec_allows_faucet() {
                                find_faucet(g.established_accounts@)
                            } else {
                                None
                            },
                        ),
                    ),
                }
            },
        },
    }
}

/// The global records: parameters, the declared staked ratio, governance,
/// the bridge status (enabled with its configuration, or disabled) and the
/// genesis epoch.
pub open spec fn spec_globals(
    s: StoreView,
    g: GenesisSpec,
    epoch: EpochState,
    implicit_vp: Seq<u8>,
    faucet_account: Option<Seq<u8>>,
) -> StoreView {
    StoreView {
        parameters: Some(spec_parameters(g.parameters, implicit_vp, faucet_account)),
        staked_ratio: Some(g.parameters.staked_ratio),
        governance: Some(g.gov_params),
        eth_bridge: Some(
            match g.ethereum_bridge_params {
                Some(c) => EthBridgeStatus::Enabled(c),
                None => EthBridgeStatus::Disabled,
            },
        ),
        epoch: Some(epoch),
        ..s
    }
}

/// Bootstrap once the chain id matches: the final state and the validator
/// set, or the state reached at the first failure and the failure.
pub open spec fn spec_init_chain(
    s: StoreView,
    profile: Profile,
    cache: Map<Seq<char>, Seq<u8>>,
    init: InitChainRequest,
    g: GenesisSpec,
) -> Result<(StoreView, Seq<(Seq<u8>, i64)>), (StoreView, InitError)> {
    match spec_preflight(profile, cache, init, g) {
        Err(e) => Err((s, e)),
        Ok((epoch, vp, faucet_account)) => {
            let s1 = spec_globals(s, g, epoch, vp, faucet_account);
            let faucet = spec_faucet_params(g.faucet_pow_difficulty, g.faucet_withdrawal_limit);
            match fold_steps(s1, g.established_accounts@, established_steps(profile, cache, faucet)) {
                Err(e) => Err(e),
                Ok(s2) => {
                    let s3 = implicit_fold(s2, g.implicit_accounts@);
                    match fold_steps(s3, g.token_accounts@, token_steps(profile, cache)) {
                        Err(e) => Err(e),
                        Ok(s4) => match fold_steps(
                            s4,
                            g.validators@,
                            validator_steps(profile, cache, g.native_token@),
                        ) {
                            Err(e) => Err(e),
                            Ok(s5) => spec_validator_set(
                                s5,
                                g.validators@,
                                g.pos_params,
                                g.native_token@,
                            ),
                        },
                    }
                },
            }
        },
    }
}

/// What a run of `init_chain` from `s` leaves behind: the state `f` and the
/// result `r`. A mismatched chain id stops it before any write; otherwise it
/// follows `spec_init_chain`, on failure as on success.
pub open spec fn init_chain_post(
    s: StoreView,
    profile: Profile,
    cache: Map<Seq<char>, Seq<u8>>,
    init: InitChainRequest,
    g: GenesisSpec,
    f: StoreView,
    r: Result<InitChainResponse, InitError>,
) -> bool {
    &&& s.chain_id != init.chain_id@ ==> f == s && match r {
        Err(InitError::ChainIdMismatch { current, requested }) => current@ == s.chain_id
            && requested == init.chain_id,
        _ => false,
    }
    &&& s.chain_id == init.chain_id@ ==> match spec_init_chain(s, profile, cache, init, g) {
        Ok((s1, ps)) => r is Ok && f == s1 && updates_view(r.unwrap().validators@) == ps
            && r.unwrap().reconfigure_eth_oracle == g.ethereum_bridge_params is Some,
        Err((s1, e)) => r matches Err(e2) && e2 == e && f == s1,
    }
}

} // verus!
