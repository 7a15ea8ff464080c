//! Chain initialization: writes genesis into the staged store and builds
//! the initial validator set.
use vstd::prelude::*;
use crate::code::{implicit_address, verified_code, CodeBlobCache};
use crate::dec::{decimal_div, pow10, voting_power};
use crate::genesis::{
    EstablishedAccount, GenesisParameters, GenesisSpec, ImplicitAccount, InitChainRequest,
    InitChainResponse, InitError, PosParams, Profile, TokenAccount, Validator, ValidatorUpdate,
};
use crate::model::{
    credit_steps, established_step, established_steps, faucet_account, faucet_path, fold_steps,
    genesis_epoch, implicit_fold, init_chain_post, lemma_fold_err, lemma_powers_none, pos_address,
    pos_genesis_steps, raw_writes, spec_faucet_params, spec_pos_address, spec_powers,
    spec_validator_set,
    token_steps, updates_view, validator_step, validator_steps,
};
use crate::state::{
    amount_or_zero, spec_credit, EthBridgeStatus, FaucetParams, Parameters, StagedStore, StoreView,
    DEFAULT_FAUCET_WITHDRAWAL_LIMIT,
};

verus! {

/// A node's application state during chain initialization.
pub struct Shell {
    pub store: StagedStore,
    pub profile: Profile,
}

impl Shell {
    /// A shell over `store` that runs bootstrap under `profile`.
    pub fn new(store: StagedStore, profile: Profile) -> (r: Self)
        ensures
            r.store@ == store@,
            r.profile == profile,
    {
        Shell { store, profile }
    }

    /// Sets up one established account.
    pub fn initialize_established_account(
        &mut self,
        a: &EstablishedAccount,
        faucet: FaucetParams,
        cache: &CodeBlobCache,
    ) -> (r: Result<(), InitError>)
        requires
            cache.wf(),
        ensures
            final(self).profile == old(self).profile,
            match established_step(old(self).store@, *a, old(self).profile, cache@, faucet) {
                Ok(s) => r is Ok && final(self).store@ == s,
                Err((s, e)) => r == Err::<(), InitError>(e) && final(self).store@ == s,
            },
    {
        let code = verified_code(self.profile, cache, &a.vp_code_path, &a.vp_sha256)?;
        self.store.write_vp_code(a.address.clone(), code);
        match &a.public_key {
            Some(pk) => self.store.write_public_key(a.address.clone(), pk.clone()),
            None => {},
        }
        let ghost s2 = self.store@;
        let mut i: usize = 0;
        while i < a.storage.len()
            invariant
                i <= a.storage@.len(),
                cache.wf(),
                self.profile == old(self).profile,
                self.store@ == (StoreView { raw: raw_writes(s2.raw, a.storage@.take(i as int)), ..s2 }),
            decreases a.storage@.len() - i,
        {
            assert(a.storage@.take(i + 1).drop_last() =~= a.storage@.take(i as int));
            let (k, v) = &a.storage[i];
            self.store.write_raw(k.clone(), v.clone());
            i = i + 1;
        }
        assert(a.storage@.take(i as int) =~= a.storage@);
        if self.profile.allows_faucet() && faucet_path(&a.vp_code_path) {
            self.store.write_faucet(a.address.clone(), faucet);
        }
        Ok(())
    }

    /// Sets up the established accounts in order, stopping at the first
    /// failure.
    pub fn initialize_established_accounts(
        &mut self,
        faucet_pow_difficulty: Option<u64>,
        faucet_withdrawal_limit: Option<u64>,
        accounts: &Vec<EstablishedAccount>,
        cache: &CodeBlobCache,
    ) -> (r: Result<(), InitError>)
        requires
            cache.wf(),
        ensures
            final(self).profile == old(self).profile,
            match fold_steps(
                old(self).store@,
                accounts@,
                established_steps(
                    old(self).profile,
                    cache@,
                    spec_faucet_params(faucet_pow_difficulty, faucet_withdrawal_limit),
                ),
            ) {
                Ok(s) => r is Ok && final(self).store@ == s,
                Err((s, e)) => r == Err::<(), InitError>(e) && final(self).store@ == s,
            },
    {
        let faucet = FaucetParams {
            difficulty: match faucet_pow_difficulty {
                Some(d) => d,
                None => 0,
            },
            withdrawal_limit: match faucet_withdrawal_limit {
                Some(l) => l,
                None => DEFAULT_FAUCET_WITHDRAWAL_LIMIT,
            },
        };
        assert(faucet == spec_faucet_params(faucet_pow_difficulty, faucet_withdrawal_limit));
        let ghost step = established_steps(self.profile, cache@, faucet);
        let ghost s0 = self.store@;
        let mut i: usize = 0;
        while i < accounts.len()
            invariant
                i <= accounts@.len(),
                self.profile == old(self).profile,
                s0 == old(self).store@,
                cache.wf(),
                faucet == spec_faucet_params(faucet_pow_difficulty, faucet_withdrawal_limit),
                step == established_steps(self.profile, cache@, faucet),
                fold_steps(s0, accounts@.take(i as int), step) == Ok::<StoreView, (StoreView, InitError)>(
                    self.store@,
                ),
            decreases accounts@.len() - i,
        {
            assert(accounts@.take(i + 1).drop_last() =~= accounts@.take(i as int));
            assert(accounts@.take(i + 1).last() == accounts@[i as int]);
            let ghost before = self.store@;
            let r = self.initialize_established_account(&accounts[i], faucet, cache);
            if let Err(e) = r {
                proof {
                    assert(fold_steps(s0, accounts@.take(i + 1), step) == step(before, accounts@[i as int]));
                    assert(step(before, accounts@[i as int]) == established_step(before, accounts@[i as int], self.profile, cache@, faucet));
                    lemma_fold_err(s0, accounts@, step, i + 1);
                }
                return Err(e);
            }
            i = i + 1;
        }
        assert(accounts@.take(i as int) =~= accounts@);
        Ok(())
    }

    /// Writes the public key of each implicit account under its derived
    /// address.
    pub fn initialize_implicit_accounts(&mut self, accounts: &Vec<ImplicitAccount>)
        ensures
            final(self).profile == old(self).profile,
            final(self).store@ == implicit_fold(old(self).store@, accounts@),
    {
        let ghost s0 = self.store@;
        let mut i: usize = 0;
        while i < accounts.len()
            invariant
                i <= accounts@.len(),
                self.profile == old(self).profile,
                self.store@ == implicit_fold(s0, accounts@.take(i as int)),
            decreases accounts@.len() - i,
        {
            assert(accounts@.take(i + 1).drop_last() =~= accounts@.take(i as int));
            let pk = &accounts[i].public_key;
            let address = implicit_address(pk);
            self.store.write_public_key(address, pk.clone());
            i = i + 1;
        }
        assert(accounts@.take(i as int) =~= accounts@);
    }

    /// Credits `token` to each `(owner, amount)` in order.
    pub fn credit_balances(&mut self, token: &Vec<u8>, balances: &Vec<(Vec<u8>, u64)>) -> (r: Result<
        (),
        InitError,
    >)
        ensures
            final(self).profile == old(self).profile,
            match fold_steps(old(self).store@, balances@, credit_steps(token@)) {
                Ok(s) => r is Ok && final(self).store@ == s,
                Err((s, e)) => r == Err::<(), InitError>(e) && final(self).store@ == s,
            },
    {
        let ghost step = credit_steps(token@);
        let ghost s0 = self.store@;
        let mut i: usize = 0;
        while i < balances.len()
            invariant
                i <= balances@.len(),
                self.profile == old(self).profile,
                s0 == old(self).store@,
                step == credit_steps(token@),
                fold_steps(s0, balances@.take(i as int), step) == Ok::<StoreView, (StoreView, InitError)>(
                    self.store@,
                ),
            decreases balances@.len() - i,
        {
            assert(balances@.take(i + 1).drop_last() =~= balances@.take(i as int));
            assert(balances@.take(i + 1).last() == balances@[i as int]);
            let ghost before = self.store@;
            let (owner, amount) = &balances[i];
            let r = self.store.credit_tokens(token, owner, *amount);
            if let Err(e) = r {
                proof {
                    assert(fold_steps(s0, balances@.take(i + 1), step) == step(before, balances@[i as int]));
                    assert(step(before, balances@[i as int]) == spec_credit(before, token@, balances@[i as int].0@, balances@[i as int].1));
                    lemma_fold_err(s0, balances@, step, i + 1);
                }
                return Err(e);
            }
            i = i + 1;
        }
        assert(balances@.take(i as int) =~= balances@);
        Ok(())
    }

    /// Sets up the token accounts in order, stopping at the first failure.
    pub fn initialize_token_accounts(&mut self, accounts: &Vec<TokenAccount>, cache: &CodeBlobCache) -> (r:
        Result<(), InitError>)
        requires
            cache.wf(),
        ensures
            final(self).profile == old(self).profile,
            match fold_steps(old(self).store@, accounts@, token_steps(old(self).profile, cache@)) {
                Ok(s) => r is Ok && final(self).store@ == s,
                Err((s, e)) => r == Err::<(), InitError>(e) && final(self).store@ == s,
            },
    {
        let ghost step = token_steps(self.profile, cache@);
        let ghost s0 = self.store@;
        let mut i: usize = 0;
        while i < accounts.len()
            invariant
                i <= accounts@.len(),
                self.profile == old(self).profile,
                s0 == old(self).store@,
                cache.wf(),
                step == token_steps(self.profile, cache@),
                fold_steps(s0, accounts@.take(i as int), step) == Ok::<StoreView, (StoreView, InitError)>(
                    self.store@,
                ),
            decreases accounts@.len() - i,
        {
            assert(accounts@.take(i + 1).drop_last() =~= accounts@.take(i as int));
            assert(accounts@.take(i + 1).last() == accounts@[i as int]);
            let ghost before = self.store@;
            let a = &accounts[i];
            let r = match verified_code(self.profile, cache, &a.vp_code_path, &a.vp_sha256) {
                Err(e) => Err(e),
                Ok(code) => {
                    self.store.write_vp_code(a.address.clone(), code);
                    self.credit_balances(&a.address, &a.balances)
                },
            };
            if let Err(e) = r {
                proof {
                    assert(fold_steps(s0, accounts@.take(i + 1), step) == step(before, accounts@[i as int]));
                    lemma_fold_err(s0, accounts@, step, i + 1);
                }
                return Err(e);
            }
            i = i + 1;
        }
        assert(accounts@.take(i as int) =~= accounts@);
        Ok(())
    }

    /// Sets up one validator account.
    pub fn initialize_validator(
        &mut self,
        v: &Validator,
        staking_token: &Vec<u8>,
        cache: &CodeBlobCache,
    ) -> (r: Result<(), InitError>)
        requires
            cache.wf(),
        ensures
            final(self).profile == old(self).profile,
            match validator_step(old(self).store@, *v, old(self).profile, cache@, staking_token@) {
                Ok(s) => r is Ok && final(self).store@ == s,
                Err((s, e)) => r == Err::<(), InitError>(e) && final(self).store@ == s,
            },
    {
        let code = verified_code(
            self.profile,
            cache,
            &v.validator_vp_code_path,
            &v.validator_vp_sha256,
        )?;
        self.store.write_vp_code(v.address.clone(), code);
        self.store.write_public_key(v.address.clone(), v.account_key.clone());
        self.store.credit_tokens(staking_token, &v.address, v.non_staked_balance)?;
        self.store.write_protocol_key(v.address.clone(), v.protocol_key.clone());
        self.store.write_dkg_key(v.address.clone(), v.dkg_public_key.clone());
        Ok(())
    }

    /// Sets up the validator accounts in order, stopping at the first
    /// failure. Their stake is left to `set_initial_validators`.
    pub fn initialize_validators(
        &mut self,
        validators: &Vec<Validator>,
        staking_token: &Vec<u8>,
        cache: &CodeBlobCache,
    ) -> (r: Result<(), InitError>)
        requires
            cache.wf(),
        ensures
            final(self).profile == old(self).profile,
            match fold_steps(
                old(self).store@,
                validators@,
                validator_steps(old(self).profile, cache@, staking_token@),
            ) {
                Ok(s) => r is Ok && final(self).store@ == s,
                Err((s, e)) => r == Err::<(), InitError>(e) && final(self).store@ == s,
            },
    {
        let ghost step = validator_steps(self.profile, cache@, staking_token@);
        let ghost s0 = self.store@;
        let mut i: usize = 0;
        while i < validators.len()
            invariant
                i <= validators@.len(),
                self.profile == old(self).profile,
                s0 == old(self).store@,
                cache.wf(),
                step == validator_steps(self.profile, cache@, staking_token@),
                fold_steps(s0, validators@.take(i as int), step) == Ok::<StoreView, (StoreView, InitError)>(
                    self.store@,
                ),
            decreases validators@.len() - i,
        {
            assert(validators@.take(i + 1).drop_last() =~= validators@.take(i as int));
            assert(validators@.take(i + 1).last() == validators@[i as int]);
            let ghost before = self.store@;
            let r = self.initialize_validator(&validators[i], staking_token, cache);
            if let Err(e) = r {
                proof {
                    assert(fold_steps(s0, validators@.take(i + 1), step) == step(before, validators@[i as int]));
                    assert(step(before, validators@[i as int]) == validator_step(before, validators@[i as int], self.profile, cache@, staking_token@));
                    lemma_fold_err(s0, validators@, step, i + 1);
                }
                return Err(e);
            }
            i = i + 1;
        }
        assert(validators@.take(i as int) =~= validators@);
        Ok(())
    }

    /// Bonds each validator's stake in order.
    fn init_pos_genesis(&mut self, validators: &Vec<Validator>, staking_token: &Vec<u8>) -> (r: Result<
        (),
        InitError,
    >)
        ensures
            final(self).profile == old(self).profile,
            match fold_steps(old(self).store@, validators@, pos_genesis_steps(staking_token@)) {
                Ok(s) => r is Ok && final(self).store@ == s,
                Err((s, e)) => r == Err::<(), InitError>(e) && final(self).store@ == s,
            },
    {
        let pos = pos_address();
        let ghost step = pos_genesis_steps(staking_token@);
        let ghost s0 = self.store@;
        let mut i: usize = 0;
        while i < validators.len()
            invariant
                i <= validators@.len(),
                self.profile == old(self).profile,
                s0 == old(self).store@,
                pos@ == spec_pos_address(),
                step == pos_genesis_steps(staking_token@),
                fold_steps(s0, validators@.take(i as int), step) == Ok::<StoreView, (StoreView, InitError)>(
                    self.store@,
                ),
            decreases validators@.len() - i,
        {
            assert(validators@.take(i + 1).drop_last() =~= validators@.take(i as int));
            assert(validators@.take(i + 1).last() == validators@[i as int]);
            let ghost before = self.store@;
            let v = &validators[i];
            let r = self.store.credit_tokens(staking_token, &pos, v.tokens);
            if let Err(e) = r {
                proof {
                    assert(fold_steps(s0, validators@.take(i + 1), step) == step(before, validators@[i as int]));
                    lemma_fold_err(s0, validators@, step, i + 1);
                }
                return Err(e);
            }
            self.store.write_bond(v.address.clone(), v.tokens);
            i = i + 1;
        }
        assert(validators@.take(i as int) =~= validators@);
        Ok(())
    }

    /// Bonds the validators' stake, records the staked ratio, sets up
    /// interchain messaging and returns the validator set with its voting
    /// powers, in the order given.
    pub fn set_initial_validators(
        &mut self,
        validators: &Vec<Validator>,
        pos_params: &PosParams,
        staking_token: &Vec<u8>,
    ) -> (r: Result<Vec<ValidatorUpdate>, InitError>)
        requires
            pos_params.tm_votes_per_token.valid(),
        ensures
            final(self).profile == old(self).profile,
            match spec_validator_set(old(self).store@, validators@, *pos_params, staking_token@) {
                Ok((s, ps)) => r is Ok && final(self).store@ == s && updates_view(r.unwrap()@) == ps,
                Err((s, e)) => r matches Err(e2) && e2 == e && final(self).store@ == s,
            },
            r is Ok && amount_or_zero(final(self).store@.balances, (staking_token@, spec_pos_address()))
                <= amount_or_zero(final(self).store@.supply, staking_token@) ==> (final(self).store@.staked_ratio matches Some(d) && d.mantissa <= pow10(d.scale as nat)),
    {
        if self.store.epoch().is_none() {
            return Err(InitError::MissingGenesisEpoch);
        }
        self.init_pos_genesis(validators, staking_token)?;
        let total = self.store.read_total_supply(staking_token);
        let pos = pos_address();
        let staked = self.store.read_balance(staking_token, &pos);
        if total == 0 {
            return Err(InitError::ZeroTotalSupply);
        }
        if !self.store.has_balance(staking_token, &pos) {
            return Err(InitError::MissingStakedBalance);
        }
        let ratio = decimal_div(staked, total);
        self.store.set_staked_ratio(ratio);
        self.store.set_ibc_initialized();
        let rate = pos_params.tm_votes_per_token;
        let ghost s2 = self.store@;
        assert(spec_validator_set(old(self).store@, validators@, *pos_params, staking_token@) == match spec_powers(validators@, rate) {
            None => Err((s2, InitError::VotingPowerOverflow)),
            Some(ps) => Ok((s2, ps)),
        });
        let mut updates: Vec<ValidatorUpdate> = Vec::new();
        let mut i: usize = 0;
        while i < validators.len()
            invariant
                i <= validators@.len(),
                rate == pos_params.tm_votes_per_token,
                rate.valid(),
                self.profile == old(self).profile,
                self.store@ == s2,
                spec_validator_set(old(self).store@, validators@, *pos_params, staking_token@) == match spec_powers(validators@, rate) {
                    None => Err((s2, InitError::VotingPowerOverflow)),
                    Some(ps) => Ok((s2, ps)),
                },
                spec_powers(validators@.take(i as int), rate) == Some(updates_view(updates@)),
            decreases validators@.len() - i,
        {
            assert(validators@.take(i + 1).drop_last() =~= validators@.take(i as int));
            assert(validators@.take(i + 1).last() == validators@[i as int]);
            let v = &validators[i];
            match voting_power(rate, v.tokens) {
                None => {
                    proof {
                        lemma_powers_none(validators@, rate, i + 1);
                    }
                    return Err(InitError::VotingPowerOverflow);
                },
                Some(power) => {
                    let ghost prev = updates@;
                    updates.push(ValidatorUpdate { pub_key: v.consensus_key.clone(), power });
                    assert(updates_view(updates@) =~= updates_view(prev).push(
                        (v.consensus_key@, power),
                    ));
                },
            }
            i = i + 1;
        }
        assert(validators@.take(i as int) =~= validators@);
        Ok(updates)
    }

    /// Creates the genesis state of the chain `init.chain_id` from `genesis`
    /// and returns the initial validator set. The code of every account is
    /// taken from `cache`. Nothing is committed: every write stays staged.
    pub fn init_chain(
        &mut self,
        init: InitChainRequest,
        genesis: GenesisSpec,
        cache: &CodeBlobCache,
    ) -> (r: Result<InitChainResponse, InitError>)
        requires
            cache.wf(),
        ensures
            final(self).profile == old(self).profile,
            init_chain_post(old(self).store@, old(self).profile, cache@, init, genesis, final(self).store@, r),
    {
        if *self.store.chain_id() != init.chain_id {
            return Err(
                InitError::ChainIdMismatch {
                    current: self.store.chain_id().clone(),
                    requested: init.chain_id,
                },
            );
        }
        let ghost g = genesis;
        let ghost s0 = self.store@;
        let time = match init.time {
            Some(t) => t,
            None => return Err(InitError::MissingGenesisTime),
        };
        let epoch = genesis_epoch(init.initial_height, time, genesis.parameters.epoch_duration)?;
        if !genesis.pos_params.tm_votes_per_token.is_valid() {
            return Err(InitError::InvalidVotesPerToken);
        }
        let implicit_vp = verified_code(
            self.profile,
            cache,
            &genesis.parameters.implicit_vp_code_path,
            &genesis.parameters.implicit_vp_sha256,
        )?;
        let faucet = if self.profile.allows_faucet() {
            faucet_account(&genesis.established_accounts)
        } else {
            None
        };
        let GenesisSpec {
            parameters,
            gov_params,
            ethereum_bridge_params,
            established_accounts,
            implicit_accounts,
            token_accounts,
            validators,
            pos_params,
            native_token,
            faucet_pow_difficulty,
            faucet_withdrawal_limit,
        } = genesis;
        let GenesisParameters {
            epoch_duration,
            max_proposal_bytes,
            max_expected_time_per_block,
            vp_whitelist,
            tx_whitelist,
            implicit_vp_code_path: _,
            implicit_vp_sha256: _,
            epochs_per_year,
            pos_gain_p,
            pos_gain_d,
            staked_ratio,
            pos_inflation_amount,
            wrapper_tx_fees,
        } = parameters;
        let params = Parameters {
            epoch_duration,
            max_proposal_bytes,
            max_expected_time_per_block,
            vp_whitelist,
            tx_whitelist,
            implicit_vp,
            epochs_per_year,
            pos_gain_p,
            pos_gain_d,
            pos_inflation_amount,
            faucet_account: faucet,
            wrapper_tx_fees,
        };
        self.store.set_parameters(params);
        self.store.set_staked_ratio(staked_ratio);
        self.store.set_governance(gov_params);
        let reconfigure_eth_oracle = match ethereum_bridge_params {
            Some(config) => {
                self.store.set_eth_bridge(EthBridgeStatus::Enabled(config));
                true
            },
            None => {
                self.store.set_eth_bridge(EthBridgeStatus::Disabled);
                false
            },
        };
        self.store.set_epoch(epoch);
        self.initialize_established_accounts(
            faucet_pow_difficulty,
            faucet_withdrawal_limit,
            &established_accounts,
            cache,
        )?;
        self.initialize_implicit_accounts(&implicit_accounts);
        self.initialize_token_accounts(&token_accounts, cache)?;
        self.initialize_validators(&validators, &native_token, cache)?;
        let updates = self.set_initial_validators(&validators, &pos_params, &native_token)?;
        Ok(InitChainResponse { validators: updates, reconfigure_eth_oracle })
    }
}

} // verus!
