//! Runtime value representation for a relational (Datalog-style) computation
//! engine.
//!
//! The engine stores values of arbitrarily many concrete types inside uniform
//! containers.  This crate provides the pieces that make that possible:
//!
//! * a capability bound ([`Val`]) that every storable type satisfies;
//! * an erased cell ([`DDVal`]) that keeps small values inline and shares
//!   large values through a reference-counted handle;
//! * a typed value handle ([`DDValue`]) whose operations (clone, equality,
//!   order, hash, record conversion, mutation, formatting) delegate to the
//!   stored type's own capability implementations;
//! * dynamic closures ([`ClosureImpl`]) with value semantics: equality, order
//!   and hash over an identity token and the captured environment;
//! * a registry of the types admitted into erased storage, and a model of the
//!   reference-count discipline the shared heap branch obeys.

use vstd::prelude::*;

mod record;
mod val;
mod cell;
mod closure;
mod refcount;
mod registry;

pub use record::Record;
pub use record::RecordV;
pub use val::Val;
pub use cell::DDVal;
pub use cell::DDValue;
pub use cell::DDValConvert;
pub use cell::erase_consume_round_trip;
pub use cell::dispatch_eq_matches_native;
pub use cell::dispatch_cmp_matches_native;
pub use cell::dispatch_hash_matches_native;
pub use cell::mutation_isolation;
pub use closure::ClosureImpl;
pub use closure::default_closure;
pub use closure::spec_closure_eq;
pub use closure::spec_closure_cmp;
pub use closure::spec_closure_hash;
pub use closure::closure_value_semantics;
pub use closure::closure_order_total;
pub use closure::closure_clone_equal;
pub use refcount::RefCounter;
pub use refcount::trace_valid;
pub use refcount::destructions;
pub use refcount::remaining;
pub use refcount::lemma_destruction_once;
pub use refcount::run_interleaving;
pub use registry::TypeRegistry;

verus! {

/// Relies on `String::push_str`: appends the slice's characters to the string.
#[verifier::external_body]
pub(crate) fn push_str_onto(s: &mut String, t: &str)
    ensures
        final(s)@ == old(s)@ + t@,
{
    s.push_str(t);
}

/// Relies on `String::push`: appends one character to the string.
#[verifier::external_body]
pub(crate) fn push_char_onto(s: &mut String, c: char)
    ensures
        final(s)@ == old(s)@.push(c),
{
    s.push(c);
}

/// String concatenation helper for generated code: append a string slice.
pub fn string_append_str(s1: String, s2: &str) -> (r: String)
    ensures
        r@ == s1@ + s2@,
{
    let mut s = s1;
    push_str_onto(&mut s, s2);
    s
}

/// String concatenation helper for generated code: append an owned string.
pub fn string_append(s1: String, s2: &String) -> (r: String)
    ensures
        r@ == s1@ + s2@,
{
    let mut s = s1;
    push_str_onto(&mut s, s2.as_str());
    s
}

} // verus!
