//! The erased cell and the typed value handle.
//!
//! An erased cell ([`DDVal`]) is one storage unit: a small value lives inline
//! (the cell is the value), a large value lives behind a shared-ownership
//! handle whose clones share one heap allocation.  The branch is decided once
//! per type by the capability bound's storage method and never re-evaluated.
//!
//! A typed value handle ([`DDValue`]) pairs an erased cell with its type's
//! dispatch operations; here the dispatch table is the type's [`Val`]
//! implementation, so every operation on the handle delegates to it and is
//! specified against the same spec functions.
//!
//! The shared heap value is treated as immutable through every clone:
//! mutation clones the value out, transforms it, and installs a brand-new
//! cell into the one handle being mutated, leaving other clones untouched.

use vstd::prelude::*;

use std::sync::Arc;
use core::cmp::Ordering;

use crate::record::Record;
use crate::record::render_v;
use crate::val::Val;

verus! {

/// Relies on `Arc::clone`: returns a new handle to the same heap
/// allocation, atomically incrementing the reference count; the shared
/// value itself is untouched and no deep copy happens.
#[verifier::external_body]
fn arc_share<T>(a: &Arc<T>) -> (r: Arc<T>)
    ensures
        r == *a,
{
    Arc::clone(a)
}

/// An erased cell: either the inline bytes of a small value or a shared
/// handle to one heap-allocated large value.  No type tag is stored; the
/// pairing with the right capability implementation is the handle's job.
pub enum DDVal<T> {
    /// The inline branch: the cell holds the value itself.
    Inline(T),
    /// The shared heap branch: cloning shares the allocation by reference
    /// count and never copies the value.
    Shared(Arc<T>),
}

impl<T: Val> DDVal<T> {
    /// The value this cell holds.
    pub open spec fn view_val(&self) -> T {
        match *self {
            DDVal::Inline(v) => v,
            DDVal::Shared(a) => *a,
        }
    }

    /// The cell's branch agrees with the storage branch declared by the
    /// type's capability implementation.
    pub open spec fn wf(&self) -> bool {
        match *self {
            DDVal::Inline(_) => T::spec_small(),
            DDVal::Shared(_) => !T::spec_small(),
        }
    }
}

/// The erasure and de-erasure protocol: how a storable value enters and
/// leaves an erased cell.  Implemented once, for every storable type.
pub trait DDValConvert: Val {
    /// Erase a value into a cell.  Never fails; the inline-versus-shared
    /// branch is fixed by the type's storage method.
    fn into_ddval(self) -> (c: DDVal<Self>)
        ensures
            c.wf(),
            c.view_val() == self,
    ;

    /// Reconstruct an owned value from a cell, consuming it.  The inline
    /// branch hands the value back unchanged; the shared branch clones the
    /// pointee out.
    fn from_ddval(c: DDVal<Self>) -> (v: Self)
        ensures
            Self::spec_cmp(&v, &c.view_val()) == Ordering::Equal,
            c is Inline ==> v == c.view_val(),
    ;

    /// Borrow the value inside a cell.
    fn from_ddval_ref(c: &DDVal<Self>) -> (v: &Self)
        ensures
            *v == c.view_val(),
    ;

    /// Erase a borrowed value into a fresh typed handle.
    fn ddvalue(&self) -> (h: DDValue<Self>)
        ensures
            h.val.wf(),
            Self::spec_cmp(&h.val.view_val(), self) == Ordering::Equal,
    ;

    /// Erase a value into a typed handle.
    fn into_ddvalue(self) -> (h: DDValue<Self>)
        ensures
            h.val.wf(),
            h.val.view_val() == self,
    ;

    /// Reconstruct an owned value from a typed handle.  The inline branch
    /// hands the value back unchanged.
    fn from_ddvalue(h: DDValue<Self>) -> (v: Self)
        ensures
            Self::spec_cmp(&v, &h.val.view_val()) == Ordering::Equal,
            h.val is Inline ==> v == h.val.view_val(),
    ;

    /// Borrow the value inside a typed handle.
    fn from_ddvalue_ref(h: &DDValue<Self>) -> (v: &Self)
        ensures
            *v == h.val.view_val(),
    ;
}

impl<T: Val> DDValConvert for T {
    fn into_ddval(self) -> (c: DDVal<T>) {
        if T::small() {
            DDVal::Inline(self)
        } else {
            DDVal::Shared(Arc::new(self))
        }
    }

    fn from_ddval(c: DDVal<T>) -> (v: T) {
        match c {
            DDVal::Inline(v) => {
                proof {
                    T::cmp_same(&v);
                }
                v
            },
            DDVal::Shared(a) => (&*a).duplicate(),
        }
    }

    fn from_ddval_ref(c: &DDVal<T>) -> (v: &T) {
        match c {
            DDVal::Inline(v) => v,
            DDVal::Shared(a) => &*a,
        }
    }

    fn ddvalue(&self) -> (h: DDValue<T>) {
        self.duplicate().into_ddvalue()
    }

    fn into_ddvalue(self) -> (h: DDValue<T>) {
        DDValue { val: self.into_ddval() }
    }

    fn from_ddvalue(h: DDValue<T>) -> (v: T) {
        T::from_ddval(h.val)
    }

    fn from_ddvalue_ref(h: &DDValue<T>) -> (v: &T) {
        T::from_ddval_ref(&h.val)
    }
}

/// The typed value handle: an erased cell paired with its type's dispatch
/// operations.  Each operation reconstructs the value through the erasure
/// protocol and delegates to the capability implementation.
pub struct DDValue<T: Val> {
    /// The erased cell.
    pub val: DDVal<T>,
}

impl<T: Val> DDValue<T> {
    /// Clone the handle.  The inline branch copies the value; the shared
    /// branch increments the reference count and shares the allocation —
    /// no deep copy.
    pub fn clone_value(&self) -> (r: DDValue<T>)
        ensures
            T::spec_cmp(&r.val.view_val(), &self.val.view_val()) == Ordering::Equal,
            r.val is Inline <==> self.val is Inline,
            self.val is Shared ==> r.val.view_val() == self.val.view_val(),
    {
        match &self.val {
            DDVal::Inline(v) => DDValue { val: DDVal::Inline(v.duplicate()) },
            DDVal::Shared(a) => {
                proof {
                    T::cmp_same(&self.val.view_val());
                }
                DDValue { val: DDVal::Shared(arc_share(a)) }
            },
        }
    }

    /// Dispatch equality: agrees with the stored type's own equality.
    pub fn eq_value(&self, other: &DDValue<T>) -> (r: bool)
        ensures
            r == (T::spec_cmp(&self.val.view_val(), &other.val.view_val()) == Ordering::Equal),
    {
        T::from_ddval_ref(&self.val).eq_val(T::from_ddval_ref(&other.val))
    }

    /// Dispatch comparison: agrees with the stored type's own total order.
    pub fn cmp_value(&self, other: &DDValue<T>) -> (r: Ordering)
        ensures
            r == T::spec_cmp(&self.val.view_val(), &other.val.view_val()),
    {
        T::from_ddval_ref(&self.val).cmp_val(T::from_ddval_ref(&other.val))
    }

    /// Dispatch partial comparison: the total order, always defined.
    pub fn partial_cmp_value(&self, other: &DDValue<T>) -> (r: Option<Ordering>)
        ensures
            r == Some(T::spec_cmp(&self.val.view_val(), &other.val.view_val())),
    {
        Some(self.cmp_value(other))
    }

    /// Dispatch hash: agrees with the stored type's own hash.
    pub fn hash_value(&self) -> (r: u64)
        ensures
            r == T::spec_hash(&self.val.view_val()),
    {
        T::from_ddval_ref(&self.val).hash_val()
    }

    /// The generic-record form of the stored value: the uniform view used
    /// for rendering and for the engine's output boundary.
    pub fn into_record(&self) -> (r: Record)
        ensures
            r@ == T::spec_to_record(&self.val.view_val()),
    {
        T::from_ddval_ref(&self.val).to_record()
    }

    /// Generic-record-driven mutation: clone the value out, convert the
    /// record, and install a brand-new cell into this one handle.  Other
    /// clones of the old cell are untouched.  Fails, leaving the handle
    /// unchanged, exactly when the record is not representable for the
    /// stored type.
    pub fn mutate(&mut self, rec: &Record) -> (res: Result<(), String>)
        ensures
            res is Ok <==> T::spec_accepts(rec@),
            res is Ok ==> final(self).val.wf() && T::spec_to_record(&final(self).val.view_val())
                == rec@,
            res is Err ==> *final(self) == *old(self),
    {
        match T::from_record(rec) {
            Ok(v) => {
                self.val = v.into_ddval();
                Ok(())
            },
            Err(e) => Err(e),
        }
    }

    /// The debug rendering of the stored value: the uniform text form of
    /// its generic record.
    pub fn fmt_debug(&self) -> (r: String)
        ensures
            r@ == render_v(T::spec_to_record(&self.val.view_val())),
    {
        self.into_record().render()
    }

    /// The display rendering of the stored value: routed through the
    /// generic-record representation, so relational facts print uniformly
    /// regardless of concrete type.
    pub fn fmt_display(&self) -> (r: String)
        ensures
            r@ == render_v(T::spec_to_record(&self.val.view_val())),
    {
        self.into_record().render()
    }
}

/// Round trip: reconstructing an erased value yields the erased value back,
/// equal under the type's order for the shared heap branch and identical
/// for the inline branch.
pub fn erase_consume_round_trip<T: Val>(v: T) -> (r: T)
    ensures
        T::spec_cmp(&r, &v) == Ordering::Equal,
        T::spec_small() ==> r == v,
{
    T::from_ddval(v.into_ddval())
}

/// Dispatch/native equivalence for equality: deciding equality through the
/// erased handles agrees with the type's own equality on the values.
pub fn dispatch_eq_matches_native<T: Val>(x: T, y: T) -> (r: (bool, bool))
    ensures
        r.0 == r.1,
{
    let native = x.eq_val(&y);
    let hx = x.into_ddvalue();
    let hy = y.into_ddvalue();
    (hx.eq_value(&hy), native)
}

/// Dispatch/native equivalence for comparison: ordering through the erased
/// handles agrees with the type's own total order on the values.
pub fn dispatch_cmp_matches_native<T: Val>(x: T, y: T) -> (r: (Ordering, Ordering))
    ensures
        r.0 == r.1,
{
    let native = x.cmp_val(&y);
    let hx = x.into_ddvalue();
    let hy = y.into_ddvalue();
    (hx.cmp_value(&hy), native)
}

/// Dispatch/native equivalence for hashing: hashing through the erased
/// handle agrees with the type's own hash of the value.
pub fn dispatch_hash_matches_native<T: Val>(x: T) -> (r: (u64, u64))
    ensures
        r.0 == r.1,
{
    let native = x.hash_val();
    let hx = x.into_ddvalue();
    (hx.hash_value(), native)
}

/// Mutation isolation: the value observed through a clone taken before a
/// mutation is the handle's old value, whatever the mutation did to the
/// one handle it was applied to.
pub fn mutation_isolation<T: Val>(handle: &mut DDValue<T>, rec: &Record) -> (witness: T)
    ensures
        T::spec_cmp(&witness, &old(handle).val.view_val()) == Ordering::Equal,
        T::spec_accepts(rec@) ==> T::spec_to_record(&final(handle).val.view_val()) == rec@,
        !T::spec_accepts(rec@) ==> *final(handle) == *old(handle),
{
    let snapshot = handle.clone_value();
    let ghost snap_view = snapshot.val.view_val();
    let _ = handle.mutate(rec);
    let witness = T::from_ddvalue(snapshot);
    proof {
        T::cmp_equal_trans(&witness, &snap_view, &old(handle).val.view_val());
    }
    witness
}

} // verus!
