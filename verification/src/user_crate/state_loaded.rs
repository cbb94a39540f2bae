//! The loaded state of one user function: a mapped artifact handle paired
//! with its resolved entry symbol.
//!
//! The host performs the actual mapping and symbol resolution and reports
//! the outcome; this module decides what the outcome means. The handle is
//! an opaque token minted by the host; holding it in the state keeps the
//! artifact mapped until the state is dropped back to the host at unload.

use vstd::prelude::*;

use crate::error::PlRustError;

verus! {

/// How a host load attempt ended when it did not produce a handle.
#[derive(Debug, Clone, PartialEq, Eq)]
pub enum LoadFault {
    /// The artifact could not be opened or mapped; the host's description.
    OpenFailed(String),
    /// The artifact was mapped but the entry symbol was not exported from
    /// it; the host's description.
    SymbolMissing(String),
}

/// One pending native call: the handle whose entry symbol is to be invoked
/// and the opaque call context to hand to it.
#[derive(Debug, Clone, Copy, PartialEq, Eq, Structural)]
pub struct Invocation {
    /// The host's token for the mapped artifact and resolved symbol.
    pub library: u64,
    /// The opaque call context, passed through untouched.
    pub fcinfo: u64,
}

/// A mapped artifact with its resolved entry symbol. At most one exists
/// per function identifier at a time, held in the session cache.
#[derive(Debug, Clone, PartialEq, Eq)]
pub struct StateLoaded {
    /// The function the artifact was built for.
    pub fn_oid: u32,
    /// The host's token for the mapped artifact; held so the mapping stays
    /// alive for the resolved symbol.
    pub library: u64,
    /// The entry symbol resolved in the artifact.
    pub symbol_name: String,
    /// The artifact file name the mapping was opened from.
    pub shared_object: String,
}

impl StateLoaded {
    /// Turns the host's load outcome into the loaded state, or into the
    /// error surfaced to the caller of the evaluate operation. Succeeds if
    /// and only if the host produced a handle; on failure nothing is
    /// retained, so the next call retries the load from scratch.
    pub fn load(
        fn_oid: u32,
        shared_object: String,
        symbol_name: String,
        outcome: Result<u64, LoadFault>,
    ) -> (r: Result<StateLoaded, PlRustError>)
        ensures
            r is Ok <==> outcome is Ok,
            outcome matches Ok(h) ==> (r matches Ok(st) && st.fn_oid == fn_oid && st.library == h
                && st.shared_object@ == shared_object@ && st.symbol_name@ == symbol_name@),
            outcome matches Err(LoadFault::OpenFailed(m)) ==> (r matches Err(e) && e matches
                PlRustError::Load(m2) && m2@ == m@),
            outcome matches Err(LoadFault::SymbolMissing(m)) ==> (r matches Err(e) && e matches
                PlRustError::SymbolNotFound(m2) && m2@ == m@),
    {
        match outcome {
            Ok(h) => Ok(
                StateLoaded { fn_oid, library: h, symbol_name, shared_object },
            ),
            Err(LoadFault::OpenFailed(m)) => Err(PlRustError::Load(m)),
            Err(LoadFault::SymbolMissing(m)) => Err(PlRustError::SymbolNotFound(m)),
        }
    }

    /// Pairs the resolved symbol's handle with a call context: the native
    /// call the host performs for one evaluation. The call itself is a
    /// true native call outside this library's control.
    pub fn evaluate(&self, fcinfo: u64) -> (inv: Invocation)
        ensures
            inv.library == self.library,
            inv.fcinfo == fcinfo,
    {
        Invocation { library: self.library, fcinfo }
    }
}

} // verus!
