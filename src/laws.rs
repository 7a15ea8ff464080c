//! What holds of every run of bootstrap.
use vstd::prelude::*;
use crate::code::{sha256_of, spec_verified_code};
use crate::genesis::{
    EstablishedAccount, GenesisSpec, ImplicitAccount, InitChainRequest, InitChainResponse,
    InitError, Profile, TokenAccount, Validator,
};
use crate::model::{
    credit_steps, established_step, established_steps, fold_steps, implicit_fold,
    init_chain_post, pos_genesis_steps, reached, spec_faucet_params, spec_globals, spec_preflight,
    token_step, token_steps, updates_view, validator_step, validator_steps, Step,
};
use crate::state::{amount_or_zero, FaucetParams, StoreView};

verus! {

/// Bootstrap is deterministic: two runs on the same state, profile, code,
/// request and genesis end in the same state, and either both give the same
/// validator set or both fail with the same error.
pub proof fn lemma_init_chain_deterministic(
    s: StoreView,
    profile: Profile,
    cache: Map<Seq<char>, Seq<u8>>,
    init: InitChainRequest,
    g: GenesisSpec,
    f1: StoreView,
    r1: Result<InitChainResponse, InitError>,
    f2: StoreView,
    r2: Result<InitChainResponse, InitError>,
)
    requires
        init_chain_post(s, profile, cache, init, g, f1, r1),
        init_chain_post(s, profile, cache, init, g, f2, r2),
    ensures
        f1 == f2,
        r1 is Ok <==> r2 is Ok,
        r1 is Ok ==> updates_view(r1.unwrap().validators@) == updates_view(
            r2.unwrap().validators@,
        ) && r1.unwrap().reconfigure_eth_oracle == r2.unwrap().reconfigure_eth_oracle,
        s.chain_id == init.chain_id@ && r1 is Err ==> r1 == r2,
{
}

/// A request for another chain fails with `ChainIdMismatch` and writes
/// nothing.
pub proof fn lemma_chain_id_gate(
    s: StoreView,
    profile: Profile,
    cache: Map<Seq<char>, Seq<u8>>,
    init: InitChainRequest,
    g: GenesisSpec,
    f: StoreView,
    r: Result<InitChainResponse, InitError>,
)
    requires
        init_chain_post(s, profile, cache, init, g, f, r),
        s.chain_id != init.chain_id@,
    ensures
        f == s,
        r matches Err(InitError::ChainIdMismatch { .. }),
{
}

/// An account whose code is missing from the cache, or (where hashes are
/// checked) does not hash to its declared digest, fails with
/// `CodeLoadFailure` or `HashVerificationFailure` naming its path, and writes
/// nothing: the state reached is the state it started from.
pub proof fn lemma_bad_code_writes_nothing(
    s: StoreView,
    a: EstablishedAccount,
    t: TokenAccount,
    v: Validator,
    profile: Profile,
    cache: Map<Seq<char>, Seq<u8>>,
    faucet: FaucetParams,
    native: Seq<u8>,
)
    ensures
        spec_verified_code(profile, cache, a.vp_code_path, a.vp_sha256@) matches Err(e)
            ==> established_step(s, a, profile, cache, faucet) == Err::<StoreView, (StoreView, InitError)>((s, e)),
        spec_verified_code(profile, cache, t.vp_code_path, t.vp_sha256@) matches Err(e)
            ==> token_step(s, t, profile, cache) == Err::<StoreView, (StoreView, InitError)>((s, e)),
        spec_verified_code(profile, cache, v.validator_vp_code_path, v.validator_vp_sha256@) matches Err(e)
            ==> validator_step(s, v, profile, cache, native) == Err::<StoreView, (StoreView, InitError)>((s, e)),
        !cache.contains_key(a.vp_code_path@) ==> spec_verified_code(profile, cache, a.vp_code_path, a.vp_sha256@)
            == Err::<Seq<u8>, InitError>(InitError::CodeLoadFailure(a.vp_code_path)),
        profile.spec_checks_hashes() && cache.contains_key(a.vp_code_path@) && sha256_of(
            cache[a.vp_code_path@],
        ) != a.vp_sha256@ ==> spec_verified_code(profile, cache, a.vp_code_path, a.vp_sha256@)
            == Err::<Seq<u8>, InitError>(InitError::HashVerificationFailure(a.vp_code_path)),
{
}

/// Sum of the amounts of a list of credits.
pub open spec fn sum_amounts(bs: Seq<(Vec<u8>, u64)>) -> nat
    decreases bs.len(),
{
    if bs.len() == 0 {
        0
    } else {
        sum_amounts(bs.drop_last()) + bs.last().1 as nat
    }
}

/// Crediting a list of balances in `token` raises its total supply by
/// exactly their sum and leaves every other token's supply as it was.
pub proof fn lemma_credits_supply(s: StoreView, token: Seq<u8>, bs: Seq<(Vec<u8>, u64)>, t: Seq<u8>)
    requires
        fold_steps(s, bs, credit_steps(token)) is Ok,
    ensures
        amount_or_zero(fold_steps(s, bs, credit_steps(token))->Ok_0.supply, t) == amount_or_zero(
            s.supply,
            t,
        ) + if t == token {
            sum_amounts(bs)
        } else {
            0
        },
    decreases bs.len(),
{
    if bs.len() > 0 {
        lemma_credits_supply(s, token, bs.drop_last(), t);
    }
}

/// What the token accounts of a list credit in `t`.
pub open spec fn token_credits(xs: Seq<TokenAccount>, t: Seq<u8>) -> nat
    decreases xs.len(),
{
    if xs.len() == 0 {
        0
    } else {
        token_credits(xs.drop_last(), t) + if xs.last().address@ == t {
            sum_amounts(xs.last().balances@)
        } else {
            0
        }
    }
}

/// The validators' balances held outside their stake.
pub open spec fn non_staked_sum(vs: Seq<Validator>) -> nat
    decreases vs.len(),
{
    if vs.len() == 0 {
        0
    } else {
        non_staked_sum(vs.drop_last()) + vs.last().non_staked_balance as nat
    }
}

/// The validators' stakes.
pub open spec fn staked_sum(vs: Seq<Validator>) -> nat
    decreases vs.len(),
{
    if vs.len() == 0 {
        0
    } else {
        staked_sum(vs.drop_last()) + vs.last().tokens as nat
    }
}

/// Everything bootstrap credits in token `t`: token-account balances, and
/// for the staking token the validators' balances and stakes.
pub open spec fn genesis_credits(g: GenesisSpec, t: Seq<u8>) -> nat {
    token_credits(g.token_accounts@, t) + if t == g.native_token@ {
        non_staked_sum(g.validators@) + staked_sum(g.validators@)
    } else {
        0
    }
}

/// Setting up established accounts changes no total supply.
pub proof fn lemma_established_supply(
    s: StoreView,
    xs: Seq<EstablishedAccount>,
    profile: Profile,
    cache: Map<Seq<char>, Seq<u8>>,
    faucet: FaucetParams,
)
    requires
        fold_steps(s, xs, established_steps(profile, cache, faucet)) is Ok,
    ensures
        fold_steps(s, xs, established_steps(profile, cache, faucet))->Ok_0.supply == s.supply,
    decreases xs.len(),
{
    if xs.len() > 0 {
        lemma_established_supply(s, xs.drop_last(), profile, cache, faucet);
    }
}

/// Setting up implicit accounts changes no total supply.
pub proof fn lemma_implicit_supply(s: StoreView, xs: Seq<ImplicitAccount>)
    ensures
        implicit_fold(s, xs).supply == s.supply,
    decreases xs.len(),
{
    if xs.len() > 0 {
        lemma_implicit_supply(s, xs.drop_last());
    }
}

/// Setting up token accounts raises each token's supply by exactly the
/// balances those accounts credit in it.
pub proof fn lemma_token_supply(
    s: StoreView,
    xs: Seq<TokenAccount>,
    profile: Profile,
    cache: Map<Seq<char>, Seq<u8>>,
    t: Seq<u8>,
)
    requires
        fold_steps(s, xs, token_steps(profile, cache)) is Ok,
    ensures
        amount_or_zero(fold_steps(s, xs, token_steps(profile, cache))->Ok_0.supply, t)
            == amount_or_zero(s.supply, t) + token_credits(xs, t),
    decreases xs.len(),
{
    if xs.len() > 0 {
        let s1 = fold_steps(s, xs.drop_last(), token_steps(profile, cache))->Ok_0;
        lemma_token_supply(s, xs.drop_last(), profile, cache, t);
        let a = xs.last();
        let code = spec_verified_code(profile, cache, a.vp_code_path, a.vp_sha256@)->Ok_0;
        let s2 = StoreView { vp_code: s1.vp_code.insert(a.address@, code), ..s1 };
        lemma_credits_supply(s2, a.address@, a.balances@, t);
    }
}

/// Setting up validator accounts raises the staking token's supply by
/// exactly their non-staked balances, and no other supply.
pub proof fn lemma_validator_supply(
    s: StoreView,
    xs: Seq<Validator>,
    profile: Profile,
    cache: Map<Seq<char>, Seq<u8>>,
    native: Seq<u8>,
    t: Seq<u8>,
)
    requires
        fold_steps(s, xs, validator_steps(profile, cache, native)) is Ok,
    ensures
        amount_or_zero(fold_steps(s, xs, validator_steps(profile, cache, native))->Ok_0.supply, t)
            == amount_or_zero(s.supply, t) + if t == native {
            non_staked_sum(xs)
        } else {
            0
        },
    decreases xs.len(),
{
    if xs.len() > 0 {
        lemma_validator_supply(s, xs.drop_last(), profile, cache, native, t);
    }
}

/// Bonding raises the staking token's supply by exactly the stakes, and no
/// other supply.
pub proof fn lemma_pos_supply(s: StoreView, xs: Seq<Validator>, native: Seq<u8>, t: Seq<u8>)
    requires
        fold_steps(s, xs, pos_genesis_steps(native)) is Ok,
    ensures
        amount_or_zero(fold_steps(s, xs, pos_genesis_steps(native))->Ok_0.supply, t)
            == amount_or_zero(s.supply, t) + if t == native {
            staked_sum(xs)
        } else {
            0
        },
    decreases xs.len(),
{
    if xs.len() > 0 {
        lemma_pos_supply(s, xs.drop_last(), native, t);
    }
}

/// After a successful bootstrap the total supply of every token is what it
/// was plus everything credited in it: the token accounts' balances, and for
/// the staking token the validators' balances and bonded stakes.
pub proof fn lemma_supply_accounting(
    s: StoreView,
    profile: Profile,
    cache: Map<Seq<char>, Seq<u8>>,
    init: InitChainRequest,
    g: GenesisSpec,
    f: StoreView,
    r: Result<InitChainResponse, InitError>,
    t: Seq<u8>,
)
    requires
        init_chain_post(s, profile, cache, init, g, f, r),
        s.chain_id == init.chain_id@,
        r is Ok,
    ensures
        amount_or_zero(f.supply, t) == amount_or_zero(s.supply, t) + genesis_credits(g, t),
{
    let (epoch, vp, faucet_account) = spec_preflight(profile, cache, init, g)->Ok_0;
    let s1 = spec_globals(s, g, epoch, vp, faucet_account);
    let faucet = spec_faucet_params(g.faucet_pow_difficulty, g.faucet_withdrawal_limit);
    lemma_established_supply(s1, g.established_accounts@, profile, cache, faucet);
    let s2 = fold_steps(s1, g.established_accounts@, established_steps(profile, cache, faucet))->Ok_0;
    let s3 = implicit_fold(s2, g.implicit_accounts@);
    lemma_implicit_supply(s2, g.implicit_accounts@);
    lemma_token_supply(s3, g.token_accounts@, profile, cache, t);
    let s4 = fold_steps(s3, g.token_accounts@, token_steps(profile, cache))->Ok_0;
    lemma_validator_supply(s4, g.validators@, profile, cache, g.native_token@, t);
    let s5 = fold_steps(s4, g.validators@, validator_steps(profile, cache, g.native_token@))->Ok_0;
    lemma_pos_supply(s5, g.validators@, g.native_token@, t);
}

/// A run of steps that each leave the committed entries alone leaves them
/// alone, whether it finishes or stops.
proof fn lemma_fold_keeps_durable<A>(s: StoreView, xs: Seq<A>, step: Step<A>)
    requires
        forall|s1: StoreView, x: A| (#[trigger] reached(step(s1, x))).durable == s1.durable,
    ensures
        reached(fold_steps(s, xs, step)).durable == s.durable,
    decreases xs.len(),
{
    if xs.len() > 0 {
        lemma_fold_keeps_durable(s, xs.drop_last(), step);
    }
}

proof fn lemma_implicit_keeps_durable(s: StoreView, xs: Seq<ImplicitAccount>)
    ensures
        implicit_fold(s, xs).durable == s.durable,
    decreases xs.len(),
{
    if xs.len() > 0 {
        lemma_implicit_keeps_durable(s, xs.drop_last());
    }
}

proof fn lemma_steps_keep_durable(
    profile: Profile,
    cache: Map<Seq<char>, Seq<u8>>,
    faucet: FaucetParams,
    native: Seq<u8>,
)
    ensures
        forall|s1: StoreView, x: EstablishedAccount|
            (#[trigger] reached(established_steps(profile, cache, faucet)(s1, x))).durable == s1.durable,
        forall|s1: StoreView, x: TokenAccount|
            (#[trigger] reached(token_steps(profile, cache)(s1, x))).durable == s1.durable,
        forall|s1: StoreView, x: Validator|
            (#[trigger] reached(validator_steps(profile, cache, native)(s1, x))).durable == s1.durable,
        forall|s1: StoreView, x: Validator|
            (#[trigger] reached(pos_genesis_steps(native)(s1, x))).durable == s1.durable,
{
    assert forall|t1: StoreView, a: TokenAccount|
        (#[trigger] reached(token_steps(profile, cache)(t1, a))).durable == t1.durable by {
        if let Ok(code) = spec_verified_code(profile, cache, a.vp_code_path, a.vp_sha256@) {
            let t2 = StoreView { vp_code: t1.vp_code.insert(a.address@, code), ..t1 };
            assert forall|u: StoreView, b: (Vec<u8>, u64)|
                (#[trigger] reached(credit_steps(a.address@)(u, b))).durable == u.durable by {}
            lemma_fold_keeps_durable(t2, a.balances@, credit_steps(a.address@));
        }
    }
}

/// Bootstrap never commits: whatever its outcome, the committed entries are
/// exactly what they were, so everything it wrote is still only staged.
pub proof fn lemma_no_commit(
    s: StoreView,
    profile: Profile,
    cache: Map<Seq<char>, Seq<u8>>,
    init: InitChainRequest,
    g: GenesisSpec,
    f: StoreView,
    r: Result<InitChainResponse, InitError>,
)
    requires
        init_chain_post(s, profile, cache, init, g, f, r),
    ensures
        f.durable == s.durable,
{
    if s.chain_id == init.chain_id@ && spec_preflight(profile, cache, init, g) is Ok {
        let (epoch, vp, faucet_account) = spec_preflight(profile, cache, init, g)->Ok_0;
        let s1 = spec_globals(s, g, epoch, vp, faucet_account);
        let faucet = spec_faucet_params(g.faucet_pow_difficulty, g.faucet_withdrawal_limit);
        lemma_steps_keep_durable(profile, cache, faucet, g.native_token@);
        let o2 = fold_steps(s1, g.established_accounts@, established_steps(profile, cache, faucet));
        lemma_fold_keeps_durable(s1, g.established_accounts@, established_steps(profile, cache, faucet));
        if let Ok(s2) = o2 {
            let s3 = implicit_fold(s2, g.implicit_accounts@);
            lemma_implicit_keeps_durable(s2, g.implicit_accounts@);
            lemma_fold_keeps_durable(s3, g.token_accounts@, token_steps(profile, cache));
            if let Ok(s4) = fold_steps(s3, g.token_accounts@, token_steps(profile, cache)) {
                let vs = validator_steps(profile, cache, g.native_token@);
                lemma_fold_keeps_durable(s4, g.validators@, vs);
                if let Ok(s5) = fold_steps(s4, g.validators@, vs) {
                    lemma_fold_keeps_durable(s5, g.validators@, pos_genesis_steps(g.native_token@));
                }
            }
        }
    }
}

} // verus!
