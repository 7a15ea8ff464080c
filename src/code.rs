//! Executable account code: the cache of loaded blobs, hash checks, and the
//! list of code paths a genesis needs.
use vstd::prelude::*;
use sha2::{Digest, Sha256};
use crate::genesis::{GenesisSpec, InitError, Profile};
use crate::store::KeyMap;

verus! {

/// SHA-256 digest of a byte string.
pub uninterp spec fn sha256_of(b: Seq<u8>) -> Seq<u8>;

/// Relies on sha2's `Sha256` (`new`, `update`, `finalize`): the 32-byte
/// SHA-256 digest of `b`.
#[verifier::external_body]
pub(crate) fn sha256(b: &Vec<u8>) -> (r: Vec<u8>)
    ensures
        r@ == sha256_of(b@),
        r@.len() == 32,
{
    let mut hasher = Sha256::new();
    hasher.update(b);
    hasher.finalize().to_vec()
}

/// Code blobs by path; each path is loaded and hashed once, then shared.
pub struct CodeBlobCache {
    blobs: KeyMap<String, Vec<u8>>,
    digests: KeyMap<String, Vec<u8>>,
}

impl View for CodeBlobCache {
    type V = Map<Seq<char>, Seq<u8>>;

    closed spec fn view(&self) -> Map<Seq<char>, Seq<u8>> {
        self.blobs@
    }
}

impl CodeBlobCache {
    /// Every path with code has the digest of that code.
    pub closed spec fn wf(&self) -> bool {
        &&& forall|p: Seq<char>| #[trigger]
            self.blobs@.contains_key(p) <==> self.digests@.contains_key(p)
        &&& forall|p: Seq<char>| #[trigger]
            self.blobs@.contains_key(p) ==> self.digests@[p] == sha256_of(self.blobs@[p])
    }

    /// An empty cache.
    pub fn new() -> (r: Self)
        ensures
            r@ == Map::<Seq<char>, Seq<u8>>::empty(),
            r.wf(),
    {
        CodeBlobCache { blobs: KeyMap::new(), digests: KeyMap::new() }
    }

    /// Records `code` for `path` unless the path already has code, and
    /// returns whether it did. Code is hashed here, once per path.
    pub fn insert_once(&mut self, path: String, code: Vec<u8>) -> (r: bool)
        requires
            old(self).wf(),
        ensures
            final(self).wf(),
            r == !old(self)@.contains_key(path@),
            final(self)@ == if r {
                old(self)@.insert(path@, code@)
            } else {
                old(self)@
            },
    {
        if self.blobs.contains(&path) {
            false
        } else {
            let digest = sha256(&code);
            self.digests.insert(path.clone(), digest);
            self.blobs.insert(path, code);
            true
        }
    }

    /// Whether code for `path` has been loaded.
    pub fn contains(&self, path: &String) -> (r: bool)
        ensures
            r == self@.contains_key(path@),
    {
        self.blobs.contains(path)
    }

    /// The code loaded for `path`.
    pub fn get(&self, path: &String) -> (r: Option<&Vec<u8>>)
        ensures
            r is Some <==> self@.contains_key(path@),
            r is Some ==> r.unwrap()@ == self@[path@],
    {
        self.blobs.get(path)
    }

    /// The code loaded for `path`, with its digest.
    pub fn get_with_digest(&self, path: &String) -> (r: Option<(&Vec<u8>, &Vec<u8>)>)
        requires
            self.wf(),
        ensures
            r is Some <==> self@.contains_key(path@),
            r matches Some((c, d)) ==> c@ == self@[path@] && d@ == sha256_of(c@),
    {
        match self.blobs.get(path) {
            None => None,
            Some(code) => match self.digests.get(path) {
                Some(d) => Some((code, d)),
                None => None,
            },
        }
    }
}

/// The outcome of checking code at `path` whose digest is `digest` against
/// the declared `expected` digest.
pub open spec fn spec_hash_check(path: String, digest: Seq<u8>, expected: Seq<u8>) -> Result<
    (),
    InitError,
> {
    if digest == expected {
        Ok(())
    } else {
        Err(InitError::HashVerificationFailure(path))
    }
}

/// Compares a computed digest with the declared one.
pub fn check_hash(path: &String, digest: &Vec<u8>, expected: &Vec<u8>) -> (r: Result<(), InitError>)
    ensures
        match r {
            Ok(()) => spec_hash_check(*path, digest@, expected@) is Ok,
            Err(e) => spec_hash_check(*path, digest@, expected@) == Err::<(), InitError>(e),
        },
{
    if crate::store::bytes_eq(digest, expected) {
        Ok(())
    } else {
        Err(InitError::HashVerificationFailure(path.clone()))
    }
}

/// What `verified_code` returns: the cached code for `path`, checked against
/// `expected` when the profile asks for it.
pub open spec fn spec_verified_code(
    profile: Profile,
    cache: Map<Seq<char>, Seq<u8>>,
    path: String,
    expected: Seq<u8>,
) -> Result<Seq<u8>, InitError> {
    if !cache.contains_key(path@) {
        Err(InitError::CodeLoadFailure(path))
    } else if profile.spec_checks_hashes() && sha256_of(cache[path@]) != expected {
        Err(InitError::HashVerificationFailure(path))
    } else {
        Ok(cache[path@])
    }
}

/// Looks up the code for `path` and checks its digest, computed when the
/// code was cached, where the profile says so.
pub fn verified_code(profile: Profile, cache: &CodeBlobCache, path: &String, expected: &Vec<u8>) -> (r:
    Result<Vec<u8>, InitError>)
    requires
        cache.wf(),
    ensures
        match r {
            Ok(c) => spec_verified_code(profile, cache@, *path, expected@) == Ok::<Seq<u8>, InitError>(c@),
            Err(e) => spec_verified_code(profile, cache@, *path, expected@) == Err::<Seq<u8>, InitError>(e),
        },
{
    match cache.get_with_digest(path) {
        None => Err(InitError::CodeLoadFailure(path.clone())),
        Some((code, digest)) => {
            if profile.checks_hashes() {
                check_hash(path, digest, expected)?;
            }
            Ok(code.clone())
        },
    }
}


/// Leading byte of every implicit address.
pub const IMPLICIT_ADDRESS_TAG: u8 = 1;

/// Number of digest bytes an implicit address keeps.
pub const PKH_LEN: usize = 20;

/// The address of the implicit account of public key `pk`: a tag, then the
/// first 20 bytes of the key's SHA-256 digest.
pub open spec fn spec_implicit_address(pk: Seq<u8>) -> Seq<u8> {
    seq![IMPLICIT_ADDRESS_TAG] + sha256_of(pk).subrange(0, PKH_LEN as int)
}

/// Derives the implicit address of a public key.
pub fn implicit_address(pk: &Vec<u8>) -> (r: Vec<u8>)
    ensures
        r@ == spec_implicit_address(pk@),
{
    let digest = sha256(pk);
    let mut r: Vec<u8> = Vec::new();
    r.push(IMPLICIT_ADDRESS_TAG);
    let mut i: usize = 0;
    while i < PKH_LEN
        invariant
            i <= PKH_LEN,
            digest@.len() == 32,
            digest@ == sha256_of(pk@),
            r@ == seq![IMPLICIT_ADDRESS_TAG] + digest@.subrange(0, i as int),
        decreases PKH_LEN - i,
    {
        r.push(digest[i]);
        assert(digest@.subrange(0, i + 1) =~= digest@.subrange(0, i as int).push(digest@[i as int]));
        i = i + 1;
    }
    r
}

/// Every code path a genesis specification refers to.
pub open spec fn referenced_paths(g: GenesisSpec) -> Set<Seq<char>> {
    set![g.parameters.implicit_vp_code_path@]
        + Set::new(|p: Seq<char>| exists|i: int| 0 <= i < g.established_accounts@.len()
            && p == #[trigger] g.established_accounts@[i].vp_code_path@)
        + Set::new(|p: Seq<char>| exists|i: int| 0 <= i < g.token_accounts@.len()
            && p == #[trigger] g.token_accounts@[i].vp_code_path@)
        + Set::new(|p: Seq<char>| exists|i: int| 0 <= i < g.validators@.len()
            && p == #[trigger] g.validators@[i].validator_vp_code_path@)
}

/// The views of a list of paths.
pub open spec fn path_views(v: Seq<String>) -> Seq<Seq<char>> {
    v.map_values(|q: String| q@)
}

/// Adds `p` to `paths` unless it is there already.
fn push_path(paths: &mut Vec<String>, p: &String)
    requires
        path_views(old(paths)@).no_duplicates(),
    ensures
        path_views(final(paths)@).no_duplicates(),
        path_views(final(paths)@).to_set() == path_views(old(paths)@).to_set().insert(p@),
{
    let ghost v = path_views(paths@);
    let mut i: usize = 0;
    while i < paths.len()
        invariant
            i <= paths@.len(),
            v == path_views(paths@),
            v == path_views(old(paths)@),
            v.no_duplicates(),
            paths@ == old(paths)@,
            forall|j: int| 0 <= j < i ==> paths@[j]@ != p@,
        decreases paths@.len() - i,
    {
        if paths[i] == *p {
            assert(v[i as int] == p@);
            assert(v.to_set().insert(p@) =~= v.to_set());
            assert(path_views(paths@) == path_views(old(paths)@));
            return;
        }
        i = i + 1;
    }
    paths.push(p.clone());
    let ghost w = path_views(paths@);
    assert(w =~= v.push(p@));
    assert(w.to_set() =~= v.to_set().insert(p@)) by {
        v.lemma_push_to_set_commute(p@);
    }
    assert(w.no_duplicates()) by {
        assert(!v.contains(p@));
    }
}

/// The code paths bootstrap loads, each exactly once: loading the list in
/// order reads every path the genesis refers to and no path twice.
pub fn required_code_paths(g: &GenesisSpec) -> (r: Vec<String>)
    ensures
        path_views(r@).no_duplicates(),
        path_views(r@).to_set() == referenced_paths(*g),
{
    let mut paths: Vec<String> = Vec::new();
    assert(path_views(paths@).to_set() =~= Set::<Seq<char>>::empty());
    push_path(&mut paths, &g.parameters.implicit_vp_code_path);
    let ghost base = path_views(paths@).to_set();
    let mut i: usize = 0;
    while i < g.established_accounts.len()
        invariant
            i <= g.established_accounts@.len(),
            path_views(paths@).no_duplicates(),
            base == set![g.parameters.implicit_vp_code_path@],
            path_views(paths@).to_set() == base + Set::new(|p: Seq<char>| exists|j: int| 0 <= j < i
                && p == #[trigger] g.established_accounts@[j].vp_code_path@),
        decreases g.established_accounts@.len() - i,
    {
        push_path(&mut paths, &g.established_accounts[i].vp_code_path);
        i = i + 1;
        assert(path_views(paths@).to_set() =~= base + Set::new(|p: Seq<char>| exists|j: int| 0 <= j < i
                && p == #[trigger] g.established_accounts@[j].vp_code_path@));
    }
    let ghost base2 = path_views(paths@).to_set();
    let mut i: usize = 0;
    while i < g.token_accounts.len()
        invariant
            i <= g.token_accounts@.len(),
            path_views(paths@).no_duplicates(),
            path_views(paths@).to_set() == base2 + Set::new(|p: Seq<char>| exists|j: int| 0 <= j < i
                && p == #[trigger] g.token_accounts@[j].vp_code_path@),
        decreases g.token_accounts@.len() - i,
    {
        push_path(&mut paths, &g.token_accounts[i].vp_code_path);
        i = i + 1;
        assert(path_views(paths@).to_set() =~= base2 + Set::new(|p: Seq<char>| exists|j: int| 0 <= j < i
                && p == #[trigger] g.token_accounts@[j].vp_code_path@));
    }
    let ghost base3 = path_views(paths@).to_set();
    let mut i: usize = 0;
    while i < g.validators.len()
        invariant
            i <= g.validators@.len(),
            path_views(paths@).no_duplicates(),
            path_views(paths@).to_set() == base3 + Set::new(|p: Seq<char>| exists|j: int| 0 <= j < i
                && p == #[trigger] g.validators@[j].validator_vp_code_path@),
        decreases g.validators@.len() - i,
    {
        push_path(&mut paths, &g.validators[i].validator_vp_code_path);
        i = i + 1;
        assert(path_views(paths@).to_set() =~= base3 + Set::new(|p: Seq<char>| exists|j: int| 0 <= j < i
                && p == #[trigger] g.validators@[j].validator_vp_code_path@));
    }
    assert(referenced_paths(*g) =~= path_views(paths@).to_set());
    paths
}

} // verus!
