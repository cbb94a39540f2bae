//! The loaded-symbol cache and the evaluate/unload decisions.
//!
//! A `Session` is scoped to one logical worker; nothing in it is shared
//! across workers, so no locking is involved. It maps each function
//! identifier to at most one loaded artifact handle. Evaluation reuses the
//! cached handle when one exists and otherwise tells the host exactly which
//! artifact to map and which symbol to resolve; a fresh load enters the
//! cache only through `cache_loaded`, which also counts it. Unloading hands
//! the cached state back to the host (which owns releasing the mapping) and
//! is a no-op for an identifier that was never loaded.

use std::collections::HashMap;
use vstd::prelude::*;
use vstd::string::*;

use crate::generation::{latest_generation, name_views, spec_latest_generation};
use crate::names::{
    crate_name, crate_name_spec, generation_name, generation_name_spec, plain_name,
    plain_name_spec, symbol_name, symbol_name_spec,
};
use crate::user_crate::state_loaded::{Invocation, StateLoaded};

verus! {

broadcast use vstd::std_specs::hash::group_hash_axioms;

/// The configuration the pipeline reads once at initialization.
#[derive(Debug, Clone)]
pub struct Config {
    /// Whether artifact names must carry a generation suffix because the
    /// platform's dynamic linker caches loaded images by path.
    pub use_generations: bool,
    /// The platform's shared-library file name suffix.
    pub dll_suffix: String,
}

/// What one evaluation requires of the host next.
pub enum EvalPlan {
    /// The identifier is cached: perform this native call; no load happens.
    Invoke(Invocation),
    /// The identifier is not cached: map `shared_object` (relative to the
    /// working directory), resolve `symbol_name` in it, and report the
    /// outcome through `StateLoaded::load` and `cache_loaded`.
    NeedLoad {
        /// The artifact file name to map.
        shared_object: String,
        /// The exported entry symbol to resolve.
        symbol_name: String,
    },
}

/// The artifact file name an evaluation must load for `fn_oid`, given the
/// working directory's listing: the latest built generation on platforms
/// with the linker caching defect, the stable name elsewhere.
pub open spec fn evaluate_name_spec(config: Config, fn_oid: u32, listing: Seq<Seq<char>>) -> Seq<
    char,
> {
    if config.use_generations {
        let g = match spec_latest_generation(
            listing,
            crate_name_spec(fn_oid),
            config.dll_suffix@,
        ) {
            Some(g) => g,
            None => 0,
        };
        generation_name_spec(crate_name_spec(fn_oid), g, config.dll_suffix@)
    } else {
        plain_name_spec(crate_name_spec(fn_oid), config.dll_suffix@)
    }
}

/// One worker's pipeline state: the loaded-symbol cache, the configuration,
/// and a counter of fresh loads.
pub struct Session {
    config: Config,
    loaded: HashMap<u32, StateLoaded>,
    loads: u64,
}

impl Session {
    /// The cache contents: each loaded identifier's state.
    pub closed spec fn spec_cache(self) -> Map<u32, StateLoaded> {
        self.loaded@
    }

    /// How many fresh loads this session has performed.
    pub closed spec fn spec_loads(self) -> u64 {
        self.loads
    }

    /// The configuration the session was initialized with.
    pub closed spec fn spec_config(self) -> Config {
        self.config
    }

    /// A fresh session: nothing loaded, no loads performed.
    pub fn new(config: Config) -> (s: Session)
        ensures
            s.spec_cache() == Map::<u32, StateLoaded>::empty(),
            s.spec_loads() == 0,
            s.spec_config() == config,
    {
        Session { config, loaded: HashMap::new(), loads: 0 }
    }

    /// Removes and returns the loaded state for `fn_oid`, if any; the host
    /// owns releasing the returned mapping. Unloading an identifier that
    /// is not loaded succeeds and changes nothing: it is the normal step
    /// before any recompilation, not an error.
    pub fn unload_function(&mut self, fn_oid: u32) -> (r: Option<StateLoaded>)
        ensures
            final(self).spec_cache() == old(self).spec_cache().remove(fn_oid),
            final(self).spec_loads() == old(self).spec_loads(),
            final(self).spec_config() == old(self).spec_config(),
            old(self).spec_cache().contains_key(fn_oid) ==> (r matches Some(st) && st == old(
                self,
            ).spec_cache()[fn_oid]),
            !old(self).spec_cache().contains_key(fn_oid) ==> r is None && final(self).spec_cache()
                == old(self).spec_cache(),
    {
        let r = self.loaded.remove(&fn_oid);
        proof {
            if !old(self).loaded@.contains_key(fn_oid) {
                assert(old(self).loaded@.remove(fn_oid) =~= old(self).loaded@);
            }
        }
        r
    }

    /// Decides one evaluation: reuse the cached handle, or name exactly
    /// which artifact to map and which symbol to resolve. Takes the
    /// session immutably — a cache hit cannot change any state, so two
    /// evaluations in a row reuse the same handle with no second load.
    pub fn evaluate_function(&self, fn_oid: u32, fcinfo: u64, listing: &Vec<String>) -> (p:
        EvalPlan)
        ensures
            self.spec_cache().contains_key(fn_oid) ==> (p matches EvalPlan::Invoke(inv)
                && inv.library == self.spec_cache()[fn_oid].library && inv.fcinfo == fcinfo),
            !self.spec_cache().contains_key(fn_oid) ==> (p matches EvalPlan::NeedLoad {
                shared_object,
                symbol_name,
            } && shared_object@ == evaluate_name_spec(
                self.spec_config(),
                fn_oid,
                name_views(listing@),
            ) && symbol_name@ == symbol_name_spec(fn_oid)),
    {
        match self.loaded.get(&fn_oid) {
            Some(st) => EvalPlan::Invoke(st.evaluate(fcinfo)),
            None => {
                let prefix = crate_name(fn_oid);
                let shared_object = if self.config.use_generations {
                    let g = match latest_generation(
                        listing,
                        prefix.as_str(),
                        self.config.dll_suffix.as_str(),
                    ) {
                        Some(g) => g,
                        None => 0,
                    };
                    generation_name(prefix.as_str(), g, self.config.dll_suffix.as_str())
                } else {
                    plain_name(prefix.as_str(), self.config.dll_suffix.as_str())
                };
                let symbol_name = symbol_name(fn_oid);
                EvalPlan::NeedLoad { shared_object, symbol_name }
            },
        }
    }

    /// Enters a freshly loaded state into the cache and counts the load.
    /// Only a vacant identifier may be filled: the old state must have
    /// been unloaded first, so the process never holds two mappings whose
    /// symbols alias.
    pub fn cache_loaded(&mut self, state: StateLoaded)
        requires
            !old(self).spec_cache().contains_key(state.fn_oid),
            old(self).spec_loads() < u64::MAX,
        ensures
            final(self).spec_cache() == old(self).spec_cache().insert(state.fn_oid, state),
            final(self).spec_loads() == old(self).spec_loads() + 1,
            final(self).spec_config() == old(self).spec_config(),
    {
        let k = state.fn_oid;
        self.loaded.insert(k, state);
        self.loads = self.loads + 1;
    }

    /// How many fresh loads the session has performed.
    pub fn load_count(&self) -> (n: u64)
        ensures
            n == self.spec_loads(),
    {
        self.loads
    }

    /// How many identifiers are currently loaded.
    pub fn cache_len(&self) -> (n: usize)
        ensures
            n == self.spec_cache().len(),
    {
        self.loaded.len()
    }

    /// Whether `fn_oid` currently holds a loaded artifact.
    pub fn is_loaded(&self, fn_oid: u32) -> (b: bool)
        ensures
            b == self.spec_cache().contains_key(fn_oid),
    {
        self.loaded.contains_key(&fn_oid)
    }
}

/// Whether `pat` occurs in `s` starting at position `i`.
pub open spec fn contains_at(s: Seq<char>, pat: Seq<char>, i: int) -> bool {
    0 <= i && i + pat.len() <= s.len() && s.subrange(i, i + pat.len()) == pat
}

/// Whether `pat` occurs anywhere in `s`.
pub open spec fn contains_pattern(s: Seq<char>, pat: Seq<char>) -> bool {
    exists|i: int| contains_at(s, pat, i)
}

/// Whether `pat` occurs in `s` at exactly position `i`.
fn match_at(s: &str, pat: &str, i: usize) -> (b: bool)
    requires
        i + pat@.len() <= s@.len(),
        s@.len() <= usize::MAX,
    ensures
        b == (s@.subrange(i as int, i + pat@.len()) == pat@),
{
    let m = pat.unicode_len();
    let mut j: usize = 0;
    while j < m
        invariant
            0 <= j <= m,
            m == pat@.len(),
            i + m <= s@.len(),
            s@.len() <= usize::MAX,
            forall|t: int| 0 <= t < j ==> s@[i + t] == pat@[t],
        decreases m - j,
    {
        if s.get_char(i + j) != pat.get_char(j) {
            proof {
                assert(s@.subrange(i as int, i + pat@.len()) != pat@) by {
                    if s@.subrange(i as int, i + pat@.len()) == pat@ {
                        assert(s@.subrange(i as int, i + pat@.len())[j as int] == s@[i + j]);
                    }
                }
            }
            return false;
        }
        j += 1;
    }
    proof {
        assert(s@.subrange(i as int, i + pat@.len()) =~= pat@);
    }
    true
}

/// Whether `pat` occurs anywhere in `s`, by scanning every position.
pub fn contains_str(s: &str, pat: &str) -> (b: bool)
    ensures
        b == contains_pattern(s@, pat@),
{
    let n = s.unicode_len();
    let m = pat.unicode_len();
    if m > n {
        proof {
            assert(!contains_pattern(s@, pat@)) by {
                if contains_pattern(s@, pat@) {
                    let i = choose|i: int| contains_at(s@, pat@, i);
                }
            }
        }
        return false;
    }
    if m == 0 {
        proof {
            assert(s@.subrange(0, 0) =~= pat@);
            assert(contains_at(s@, pat@, 0));
        }
        return true;
    }
    let mut i: usize = 0;
    while i <= n - m
        invariant
            0 <= i <= n - m + 1,
            0 < m <= n,
            n == s@.len(),
            m == pat@.len(),
            forall|k: int| 0 <= k < i ==> !contains_at(s@, pat@, k),
        decreases n - m + 1 - i,
    {
        if match_at(s, pat, i) {
            proof {
                assert(contains_at(s@, pat@, i as int));
            }
            return true;
        }
        i += 1;
    }
    proof {
        assert(!contains_pattern(s@, pat@)) by {
            if contains_pattern(s@, pat@) {
                let k = choose|k: int| contains_at(s@, pat@, k);
            }
        }
    }
    false
}

/// Whether captured toolchain output carries the warning marker the
/// validator surfaces to the user after an otherwise successful build.
pub fn output_has_warnings(output: &str) -> (b: bool)
    ensures
        b == contains_pattern(output@, "warning: "@),
{
    contains_str(output, "warning: ")
}

/// Unloading an identifier that is not loaded is a no-op on the cache.
pub proof fn lemma_unload_unloaded_is_noop(cache: Map<u32, StateLoaded>, fn_oid: u32)
    requires
        !cache.contains_key(fn_oid),
    ensures
        cache.remove(fn_oid) == cache,
{
    assert(cache.remove(fn_oid) =~= cache);
}

/// After a fresh load is cached, the cache holds exactly one entry for the
/// loaded identifier — the freshly loaded state — and every other
/// identifier is untouched. Together with the success conditions of
/// `StateGenerated::generate`, `StateProvisioned::finish_build` and
/// `StateLoaded::load`, this is why a compile followed by an evaluation
/// succeeds and leaves exactly one cache entry for the identifier.
pub proof fn lemma_fresh_load_caches_once(cache: Map<u32, StateLoaded>, state: StateLoaded)
    requires
        cache.dom().finite(),
        !cache.contains_key(state.fn_oid),
    ensures
        cache.insert(state.fn_oid, state).contains_key(state.fn_oid),
        cache.insert(state.fn_oid, state)[state.fn_oid] == state,
        cache.insert(state.fn_oid, state).len() == cache.len() + 1,
        forall|other: u32|
            other != state.fn_oid ==> cache.insert(state.fn_oid, state).contains_key(other)
                == cache.contains_key(other),
{
    assert(cache.insert(state.fn_oid, state).dom() =~= cache.dom().insert(state.fn_oid));
}

/// After an unload, the identifier is absent from the cache, so the next
/// evaluation cannot reuse a handle: by `evaluate_function`'s contract it
/// must ask for a load, and by `cache_loaded`'s contract that load is
/// counted exactly once — even though the artifact bytes at the reused
/// path are unchanged.
pub proof fn lemma_unload_forces_fresh_load(cache: Map<u32, StateLoaded>, fn_oid: u32)
    ensures
        !cache.remove(fn_oid).contains_key(fn_oid),
{
}

} // verus!
