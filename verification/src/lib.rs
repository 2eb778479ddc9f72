//! Marshalling and statement-execution bridge between a dynamically-tagged
//! host term vocabulary and an embedded columnar SQL engine.
//!
//! The bridge accepts a connection handle, a SQL string and loosely-typed
//! parameters, executes the statement against the engine, and marshals the
//! results back into tagged terms with no silent data loss.

use vstd::prelude::*;

pub mod decode;
pub mod digits;
pub mod encode;
pub mod error;
pub mod executor;
pub mod laws;
pub mod term;
pub mod value;

verus! {

/// Fixed confirmation string used only to verify that the bridge loaded
/// correctly.
pub fn test() -> (r: String)
    ensures
        r@ == "DuckDB NIF loaded successfully!"@,
{
    let s: &str = "DuckDB NIF loaded successfully!";
    s.to_owned()
}

} // verus!
