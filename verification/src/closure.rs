//! Dynamic closures with value semantics.
//!
//! A closure pairs a captured environment (any type satisfying the
//! capability bound) with a function of fixed shape and a description
//! string.  So that closures can be stored as ordinary relational values,
//! they carry a stable identity token assigned at construction (an interned
//! descriptor id standing for the function's identity); equality, ordering
//! and hashing operate on the pair (identity token, captured value), never
//! on behavior.  Two closures built from different captured-environment
//! types are constructed with different tokens and therefore compare
//! unequal without their captured state ever being inspected.

use vstd::prelude::*;

use core::cmp::Ordering;

use crate::push_str_onto;
use crate::record::Record;
use crate::record::RecordV;
use crate::record::render_v;
use crate::registry::TypeRegistry;
use crate::val::Val;

verus! {

/// A concrete dynamic closure: description, identity token, captured
/// environment, and the function invoked on call.  The captured value never
/// changes after construction.
pub struct ClosureImpl<C: Val, F> {
    /// A human-readable description of the closure's origin.
    pub description: String,
    /// The stable identity token standing for the function's identity;
    /// construction assigns distinct tokens to distinct (function,
    /// captured-type) pairs.  [`ClosureImpl::new`] draws it from the
    /// registry, whose counter never repeats a token.
    pub token: u64,
    /// The captured environment.
    pub captured: C,
    /// The function: invoked with the call arguments and a reference to
    /// the captured environment.
    pub f: F,
}

/// Closure equality: identical identity tokens and order-equal captured
/// values.
pub open spec fn spec_closure_eq<C: Val, F>(a: &ClosureImpl<C, F>, b: &ClosureImpl<C, F>) -> bool {
    a.token == b.token && C::spec_cmp(&a.captured, &b.captured) == Ordering::Equal
}

/// Closure order: lexicographic on (identity token, captured value).
pub open spec fn spec_closure_cmp<C: Val, F>(
    a: &ClosureImpl<C, F>,
    b: &ClosureImpl<C, F>,
) -> Ordering {
    if a.token < b.token {
        Ordering::Less
    } else if b.token < a.token {
        Ordering::Greater
    } else {
        C::spec_cmp(&a.captured, &b.captured)
    }
}

/// Closure hash: a deterministic combination of the captured value's hash
/// and the identity token.
pub open spec fn spec_closure_hash<C: Val, F>(c: &ClosureImpl<C, F>) -> u64 {
    ((C::spec_hash(&c.captured) << 7) | (C::spec_hash(&c.captured) >> 57)) ^ c.token
}

/// The uniform text form of a closure: its description and the rendering
/// of its captured value's generic record.
pub open spec fn spec_closure_text<C: Val, F>(c: &ClosureImpl<C, F>) -> Seq<char> {
    "<closure: "@ + c.description@ + ", captured_args: "@ + render_v(
        C::spec_to_record(&c.captured),
    ) + ">"@
}

impl<C: Val, F> ClosureImpl<C, F> {
    /// Construct a closure at an elaboration site, drawing its identity
    /// token from the registry.  The registry's counter only grows, so two
    /// constructions through it never share a token: this is the discipline
    /// the cross-type comparisons rest on.
    pub fn new(reg: &mut TypeRegistry, description: String, captured: C, f: F) -> (r: ClosureImpl<
        C,
        F,
    >)
        requires
            old(reg).wf(),
            old(reg).token_counter() < u64::MAX,
        ensures
            final(reg).wf(),
            final(reg).registered() == old(reg).registered(),
            final(reg).token_counter() == old(reg).token_counter() + 1,
            r.token == old(reg).token_counter(),
            r.description == description,
            r.captured == captured,
            r.f == f,
    {
        let token = reg.fresh_token();
        ClosureImpl { description, token, captured, f }
    }

    /// Invoke the closure: pure delegation to the stored function with the
    /// arguments and the captured value.
    pub fn call<Args, Output>(&self, args: Args) -> (r: Output) where F: Fn(Args, &C) -> Output
        requires
            call_requires(self.f, (args, &self.captured)),
        ensures
            call_ensures(self.f, (args, &self.captured), r),
    {
        (self.f)(args, &self.captured)
    }

    /// The closure's identity token, for use in comparison across captured
    /// types.
    pub fn internals(&self) -> (r: u64)
        ensures
            r == self.token,
    {
        self.token
    }

    /// Clone the closure: same identity, same description, an order-equal
    /// copy of the captured environment.
    pub fn clone_dyn(&self) -> (r: ClosureImpl<C, F>) where F: Copy
        ensures
            r.token == self.token,
            r.description@ == self.description@,
            C::spec_cmp(&r.captured, &self.captured) == Ordering::Equal,
            r.f == self.f,
    {
        ClosureImpl {
            description: self.description.clone(),
            token: self.token,
            captured: self.captured.duplicate(),
            f: self.f,
        }
    }

    /// Equality with a closure of the same captured type: identity tokens
    /// first (a cheap integer compare); only if they agree are the captured
    /// values compared.
    pub fn eq_dyn(&self, other: &ClosureImpl<C, F>) -> (r: bool)
        ensures
            r == spec_closure_eq(self, other),
    {
        if self.token == other.token {
            self.captured.eq_val(&other.captured)
        } else {
            false
        }
    }

    /// Order against a closure of the same captured type: lexicographic on
    /// (identity token, captured value).
    pub fn cmp_dyn(&self, other: &ClosureImpl<C, F>) -> (r: Ordering)
        ensures
            r == spec_closure_cmp(self, other),
    {
        if self.token < other.token {
            Ordering::Less
        } else if other.token < self.token {
            Ordering::Greater
        } else {
            self.captured.cmp_val(&other.captured)
        }
    }

    /// Equality with a closure of a different captured type.  Construction
    /// assigns such closures distinct identity tokens, so they are never
    /// equal, and the captured state is never inspected.
    pub fn eq_dyn_other<C2: Val, F2>(&self, other: &ClosureImpl<C2, F2>) -> (r: bool)
        requires
            self.token != other.token,
        ensures
            r == false,
    {
        self.token == other.token
    }

    /// Order against a closure of a different captured type: the identity
    /// token order.
    pub fn cmp_dyn_other<C2: Val, F2>(&self, other: &ClosureImpl<C2, F2>) -> (r: Ordering)
        requires
            self.token != other.token,
        ensures
            self.token < other.token ==> r == Ordering::Less,
            other.token < self.token ==> r == Ordering::Greater,
    {
        if self.token < other.token {
            Ordering::Less
        } else {
            Ordering::Greater
        }
    }

    /// Partial order against a closure of the same captured type: the
    /// total order, always defined.
    pub fn partial_cmp_dyn(&self, other: &ClosureImpl<C, F>) -> (r: Option<Ordering>)
        ensures
            r == Some(spec_closure_cmp(self, other)),
    {
        Some(self.cmp_dyn(other))
    }

    /// The closure's hash: combines the captured value's hash with the
    /// identity token; deterministic for a fixed (token, captured) pair.
    pub fn hash_dyn(&self) -> (r: u64)
        ensures
            r == spec_closure_hash(self),
    {
        let h = self.captured.hash_val();
        ((h << 7u64) | (h >> 57u64)) ^ self.token
    }

    /// The closure's uniform text form.
    pub fn fmt_display_dyn(&self) -> (r: String)
        ensures
            r@ == spec_closure_text(self),
    {
        let mut out = String::new();
        push_str_onto(&mut out, "<closure: ");
        push_str_onto(&mut out, self.description.as_str());
        push_str_onto(&mut out, ", captured_args: ");
        let rec = self.captured.to_record();
        crate::record::append_record(&mut out, &rec);
        push_str_onto(&mut out, ">");
        proof {
            assert(out@ =~= spec_closure_text(self));
        }
        out
    }

    /// The closure's debug rendering: the same uniform text form.
    pub fn fmt_debug_dyn(&self) -> (r: String)
        ensures
            r@ == spec_closure_text(self),
    {
        self.fmt_display_dyn()
    }

    /// The closure's generic-record form: a text record holding the
    /// uniform text form; closures have no structural record.
    pub fn into_record_dyn(&self) -> (r: Record)
        ensures
            r@ == RecordV::Str(spec_closure_text(self)),
    {
        Record::Str(self.fmt_display_dyn())
    }

    /// The serialization view of the closure: its uniform text form, the
    /// only rendering the output boundary receives.
    pub fn serialize_dyn(&self) -> (r: String)
        ensures
            r@ == spec_closure_text(self),
    {
        self.fmt_display_dyn()
    }

    /// Generic-record-driven mutation of a closure field always fails with
    /// a reported error: closures are not field-settable generically.  The
    /// closure is left unchanged.
    pub fn mutate(&mut self, rec: &Record) -> (res: Result<(), String>)
        ensures
            res matches Err(e) && e@ == "'mutate' not implemented for closures."@,
            *final(self) == *old(self),
    {
        let _ = rec;
        Err("'mutate' not implemented for closures.".to_owned())
    }

    /// Conversion from a record always fails with a reported error:
    /// closures have no closed serialized form.
    pub fn from_record(rec: &Record) -> (res: Result<ClosureImpl<C, F>, String>)
        ensures
            res matches Err(e) && e@ == "'from_record' not implemented for closures."@,
    {
        let _ = rec;
        Err("'from_record' not implemented for closures.".to_owned())
    }

    /// Deserialization always fails with a reported, recoverable error:
    /// closures have no closed serialized form.
    pub fn deserialize(bytes: &[u8]) -> (res: Result<ClosureImpl<C, F>, String>)
        ensures
            res matches Err(e) && e@ == "Deserialization of closures is not implemented."@,
    {
        let _ = bytes;
        Err("Deserialization of closures is not implemented.".to_owned())
    }
}

/// The default closure for an output type: captures nothing and returns
/// the output type's default value.  It is the zero value for
/// closure-typed fields and carries the zero identity token.
pub fn default_closure<Args, Output: Val>() -> (r: ClosureImpl<(), impl Fn(Args, &()) -> Output + Copy>)
    ensures
        r.token == 0,
        r.description@ == "default closure"@,
        forall|args: Args| #[trigger] call_requires(r.f, (args, &r.captured)),
        forall|args: Args, o: Output|
            call_ensures(r.f, (args, &r.captured), o) ==> Output::is_default(&o),
{
    let r = ClosureImpl {
        description: "default closure".to_owned(),
        token: 0,
        captured: (),
        f: produce_default::<Args, Output>,
    };
    proof {
        assert forall|args: Args| #[trigger] call_requires(r.f, (args, &r.captured)) by {
            lemma_produce_default_accepts::<Args, Output>(args, &r.captured);
        }
        assert forall|args: Args, o: Output|
            call_ensures(r.f, (args, &r.captured), o) implies Output::is_default(&o) by {
            lemma_produce_default_defaults::<Args, Output>(args, &r.captured, o);
        }
    }
    r
}

/// The default closure's function accepts every argument.
proof fn lemma_produce_default_accepts<Args, Output: Val>(args: Args, c: &())
    ensures
        call_requires(produce_default::<Args, Output>, (args, c)),
{
}

/// Whatever the default closure's function returns is a default value.
proof fn lemma_produce_default_defaults<Args, Output: Val>(args: Args, c: &(), o: Output)
    requires
        call_ensures(produce_default::<Args, Output>, (args, c), o),
    ensures
        Output::is_default(&o),
{
}

/// The function behind the default closure: ignores its arguments and the
/// empty capture, and returns the output type's default value.
fn produce_default<Args, Output: Val>(args: Args, captured: &()) -> (o: Output)
    ensures
        Output::is_default(&o),
{
    let _ = args;
    let _ = captured;
    Output::default_val()
}

/// The closure value-semantics law.  Two closures with the same identity
/// token and order-equal captured values are equal, hash equal and order
/// equal.  Two closures with different identity tokens are never equal,
/// whatever their captured values, and their relative order is the token
/// order.  Two closures with the same token order by their captured values.
pub proof fn closure_value_semantics<C: Val, F>(a: &ClosureImpl<C, F>, b: &ClosureImpl<C, F>)
    ensures
        a.token == b.token && C::spec_cmp(&a.captured, &b.captured) == Ordering::Equal
            ==> spec_closure_eq(a, b) && spec_closure_hash(a) == spec_closure_hash(b)
            && spec_closure_cmp(a, b) == Ordering::Equal,
        a.token != b.token ==> !spec_closure_eq(a, b) && spec_closure_cmp(a, b) == (
        if a.token < b.token {
            Ordering::Less
        } else {
            Ordering::Greater
        }),
        a.token == b.token ==> spec_closure_cmp(a, b) == C::spec_cmp(&a.captured, &b.captured),
{
    if a.token == b.token && C::spec_cmp(&a.captured, &b.captured) == Ordering::Equal {
        C::hash_respects_cmp(&a.captured, &b.captured);
    }
}

/// The closure order is total: it flips when its arguments are exchanged,
/// and the strict order composes transitively, also around order-equal
/// middles.
pub proof fn closure_order_total<C: Val, F>(
    a: &ClosureImpl<C, F>,
    b: &ClosureImpl<C, F>,
    c: &ClosureImpl<C, F>,
)
    ensures
        spec_closure_cmp(a, b) == Ordering::Less <==> spec_closure_cmp(b, a) == Ordering::Greater,
        spec_closure_cmp(a, b) == Ordering::Equal <==> spec_closure_cmp(b, a) == Ordering::Equal,
        spec_closure_cmp(a, b) == Ordering::Less && spec_closure_cmp(b, c) == Ordering::Less
            ==> spec_closure_cmp(a, c) == Ordering::Less,
        spec_closure_cmp(a, b) == Ordering::Equal && spec_closure_cmp(b, c) == Ordering::Less
            ==> spec_closure_cmp(a, c) == Ordering::Less,
        spec_closure_cmp(a, b) == Ordering::Less && spec_closure_cmp(b, c) == Ordering::Equal
            ==> spec_closure_cmp(a, c) == Ordering::Less,
{
    C::cmp_total_order(&a.captured, &b.captured, &c.captured);
    if C::spec_cmp(&a.captured, &b.captured) == Ordering::Equal && C::spec_cmp(
        &b.captured,
        &c.captured,
    ) == Ordering::Equal {
        C::cmp_equal_trans(&a.captured, &b.captured, &c.captured);
    }
}

/// A clone of a closure is equal to the closure it was cloned from.
pub proof fn closure_clone_equal<C: Val, F>(a: &ClosureImpl<C, F>, c: &ClosureImpl<C, F>)
    requires
        c.token == a.token,
        C::spec_cmp(&c.captured, &a.captured) == Ordering::Equal,
    ensures
        spec_closure_eq(c, a),
{
}

} // verus!
