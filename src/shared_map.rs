use vstd::prelude::*;

verus! {

/// The sharded concurrent map that holds each table of the engine. Its
/// contents are described, per table, by the wrappers of the owning module.
#[verifier::external_type_specification]
#[verifier::external_body]
#[verifier::reject_recursive_types(K)]
#[verifier::reject_recursive_types(V)]
#[verifier::reject_recursive_types(S)]
pub struct ExDashMap<K, V, S>(dashmap::DashMap<K, V, S>);

} // verus!
