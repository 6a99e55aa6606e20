//! Declaration of the concurrent hash map used for every shared table.
//!
//! The tables themselves live in the modules that own them; each gives its
//! map a model (a `Map` from key view to entry model) and a small set of
//! trusted operations whose contracts state ordinary map semantics.

use vstd::prelude::*;

verus! {

/// `dashmap::DashMap` carries the entries of every in-memory table of this
/// crate. The type is opaque here; what each instantiation holds is named
/// by the module that owns it.
#[verifier::external_type_specification]
#[verifier::external_body]
#[verifier::reject_recursive_types(K)]
#[verifier::reject_recursive_types(V)]
#[verifier::reject_recursive_types(S)]
pub struct ExDashMap<K, V, S>(dashmap::DashMap<K, V, S>);

} // verus!
