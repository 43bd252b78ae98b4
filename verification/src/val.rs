//! The capability bound.
//!
//! Every concrete type stored in erased cells must satisfy [`Val`]:
//! default-constructible, totally ordered, hashable, faithfully cloneable,
//! and convertible to and from the generic record format.  The per-type
//! dispatch operations of the erased layer (see [`crate::DDValue`]) delegate
//! to these implementations, and their contracts are stated over the spec
//! functions declared here.
//!
//! Built-in implementations cover the standard scalar kinds (unsigned and
//! signed integers of widths 8 to 128 bits, boolean, text string, the unit
//! value) and vectors of storable values.

use vstd::prelude::*;

use core::cmp::Ordering;

use crate::record::Record;
use crate::record::RecordV;

verus! {

/// Lexicographic order over character sequences, by code point.
pub open spec fn spec_chars_cmp(a: Seq<char>, b: Seq<char>) -> Ordering
    decreases a.len(),
{
    if a.len() == 0 && b.len() == 0 {
        Ordering::Equal
    } else if a.len() == 0 {
        Ordering::Less
    } else if b.len() == 0 {
        Ordering::Greater
    } else if a[0] == b[0] {
        spec_chars_cmp(a.subrange(1, a.len() as int), b.subrange(1, b.len() as int))
    } else if (a[0] as u32) < (b[0] as u32) {
        Ordering::Less
    } else {
        Ordering::Greater
    }
}

/// Two character sequences order as equal exactly when they are equal.
pub proof fn lemma_chars_cmp_equal(a: Seq<char>, b: Seq<char>)
    ensures
        spec_chars_cmp(a, b) == Ordering::Equal <==> a == b,
    decreases a.len(),
{
    if a.len() == 0 && b.len() == 0 {
        assert(a =~= b);
    } else if a.len() == 0 || b.len() == 0 {
    } else {
        let at = a.subrange(1, a.len() as int);
        let bt = b.subrange(1, b.len() as int);
        lemma_chars_cmp_equal(at, bt);
        if spec_chars_cmp(a, b) == Ordering::Equal {
            assert(a[0] == b[0]);
            assert(a =~= seq![a[0]] + at);
            assert(b =~= seq![b[0]] + bt);
        } else if a == b {
            assert(at =~= bt);
        }
    }
}

/// Distinct characters have distinct code points.
pub proof fn lemma_char_code_injective(a: char, b: char)
    requires
        a != b,
    ensures
        a as u32 != b as u32,
{
}

/// The character order flips when its arguments are exchanged.
pub proof fn lemma_chars_cmp_exchange(a: Seq<char>, b: Seq<char>)
    ensures
        spec_chars_cmp(a, b) == Ordering::Less <==> spec_chars_cmp(b, a) == Ordering::Greater,
        spec_chars_cmp(a, b) == Ordering::Equal <==> spec_chars_cmp(b, a) == Ordering::Equal,
    decreases a.len(),
{
    if a.len() > 0 && b.len() > 0 {
        let at = a.subrange(1, a.len() as int);
        let bt = b.subrange(1, b.len() as int);
        lemma_chars_cmp_exchange(at, bt);
        if a[0] == b[0] {
            assert(spec_chars_cmp(a, b) == spec_chars_cmp(at, bt));
            assert(spec_chars_cmp(b, a) == spec_chars_cmp(bt, at));
        } else if (a[0] as u32) < (b[0] as u32) {
            assert(spec_chars_cmp(a, b) == Ordering::Less);
            assert(spec_chars_cmp(b, a) == Ordering::Greater);
        } else {
            lemma_char_code_injective(a[0], b[0]);
            assert((b[0] as u32) < (a[0] as u32));
            assert(spec_chars_cmp(a, b) == Ordering::Greater);
            assert(spec_chars_cmp(b, a) == Ordering::Less);
        }
    }
}

/// The strict character order composes transitively, also around
/// order-equal middles.
pub proof fn lemma_chars_cmp_trans(a: Seq<char>, b: Seq<char>, c: Seq<char>)
    ensures
        spec_chars_cmp(a, b) == Ordering::Less && spec_chars_cmp(b, c) == Ordering::Less
            ==> spec_chars_cmp(a, c) == Ordering::Less,
        spec_chars_cmp(a, b) == Ordering::Equal && spec_chars_cmp(b, c) == Ordering::Less
            ==> spec_chars_cmp(a, c) == Ordering::Less,
        spec_chars_cmp(a, b) == Ordering::Less && spec_chars_cmp(b, c) == Ordering::Equal
            ==> spec_chars_cmp(a, c) == Ordering::Less,
    decreases a.len() + b.len() + c.len(),
{
    if a.len() > 0 && b.len() > 0 && c.len() > 0 {
        lemma_chars_cmp_trans(
            a.subrange(1, a.len() as int),
            b.subrange(1, b.len() as int),
            c.subrange(1, c.len() as int),
        )
    }
}

/// Relies on `str::cmp`: strings order lexicographically over their
/// characters' code points (byte-wise comparison of UTF-8 agrees with
/// code-point order).
#[verifier::external_body]
fn str_compare(a: &str, b: &str) -> (r: Ordering)
    ensures
        r == spec_chars_cmp(a@, b@),
{
    a.cmp(b)
}

/// One mixing step of the byte-sequence hash: rotate and fold in a byte.
pub open spec fn spec_hash_step(acc: u64, b: u8) -> u64 {
    ((acc << 7) | (acc >> 57)) ^ (b as u64)
}

/// The hash of a byte sequence: a rotate-and-xor fold.
pub open spec fn spec_bytes_hash(s: Seq<u8>) -> u64
    decreases s.len(),
{
    if s.len() == 0 {
        0xcbf29ce484222325u64
    } else {
        spec_hash_step(spec_bytes_hash(s.drop_last()), s.last())
    }
}

/// The hash of a byte slice.
pub fn hash_bytes(b: &[u8]) -> (r: u64)
    ensures
        r == spec_bytes_hash(b@),
{
    let mut acc: u64 = 0xcbf29ce484222325;
    let mut i: usize = 0;
    while i < b.len()
        invariant
            0 <= i <= b@.len(),
            acc == spec_bytes_hash(b@.subrange(0, i as int)),
        decreases b@.len() - i,
    {
        let byte = *vstd::slice::slice_index_get(b, i);
        acc = ((acc << 7u64) | (acc >> 57u64)) ^ (byte as u64);
        i = i + 1;
        proof {
            let pre = b@.subrange(0, i - 1);
            let cur = b@.subrange(0, i as int);
            assert(cur.drop_last() =~= pre);
            assert(cur.last() == b@[i - 1]);
        }
    }
    proof {
        assert(b@.subrange(0, b@.len() as int) =~= b@);
    }
    acc
}

/// The capability bound: the operations every storable type provides, and
/// the laws they obey.  The per-type dispatch table of the erased layer is
/// exactly an implementation of this trait.
pub trait Val: Sized {
    /// Whether values of this type are stored inline in an erased cell
    /// (`true`) or behind a shared heap handle (`false`).  The branch is
    /// fixed once per type: values no larger than one 64-bit machine word
    /// stay inline.
    spec fn spec_small() -> bool;

    /// The storage branch, agreeing with `spec_small`.
    fn small() -> (r: bool)
        ensures
            r == Self::spec_small(),
    ;

    /// A faithful clone: equal to the original under the type's order.
    fn duplicate(&self) -> (r: Self)
        ensures
            Self::spec_cmp(&r, self) == Ordering::Equal,
    ;

    /// Whether `v` is the type's default value.
    spec fn is_default(v: &Self) -> bool;

    /// The default value.
    fn default_val() -> (r: Self)
        ensures
            Self::is_default(&r),
    ;

    /// The type's total order.
    spec fn spec_cmp(a: &Self, b: &Self) -> Ordering;

    /// Comparison, agreeing with `spec_cmp`.
    fn cmp_val(&self, other: &Self) -> (r: Ordering)
        ensures
            r == Self::spec_cmp(self, other),
    ;

    /// Equality: order-equality under `spec_cmp`.
    fn eq_val(&self, other: &Self) -> (r: bool)
        ensures
            r == (Self::spec_cmp(self, other) == Ordering::Equal),
    ;

    /// The type's hash.
    spec fn spec_hash(v: &Self) -> u64;

    /// Hashing, agreeing with `spec_hash`.
    fn hash_val(&self) -> (r: u64)
        ensures
            r == Self::spec_hash(self),
    ;

    /// The generic-record form of a value.
    spec fn spec_to_record(v: &Self) -> RecordV;

    /// Record conversion, agreeing with `spec_to_record`.
    fn to_record(&self) -> (r: Record)
        ensures
            r@ == Self::spec_to_record(self),
    ;

    /// Which records convert back into a value of this type.
    spec fn spec_accepts(r: RecordV) -> bool;

    /// Conversion from a record: succeeds exactly on the records
    /// `spec_accepts` admits, and returns the value whose record form the
    /// input is.
    fn from_record(r: &Record) -> (res: Result<Self, String>)
        ensures
            res is Ok <==> Self::spec_accepts(r@),
            res matches Ok(v) ==> Self::spec_to_record(&v) == r@,
    ;

    /// The order is reflexive.
    proof fn cmp_same(a: &Self)
        ensures
            Self::spec_cmp(a, a) == Ordering::Equal,
    ;

    /// Order-equality is transitive.
    proof fn cmp_equal_trans(a: &Self, b: &Self, c: &Self)
        requires
            Self::spec_cmp(a, b) == Ordering::Equal,
            Self::spec_cmp(b, c) == Ordering::Equal,
        ensures
            Self::spec_cmp(a, c) == Ordering::Equal,
    ;

    /// The order is total: it flips when its arguments are exchanged, and
    /// the strict order composes transitively, also around order-equal
    /// middles.
    proof fn cmp_total_order(a: &Self, b: &Self, c: &Self)
        ensures
            Self::spec_cmp(a, b) == Ordering::Less <==> Self::spec_cmp(b, a) == Ordering::Greater,
            Self::spec_cmp(a, b) == Ordering::Equal <==> Self::spec_cmp(b, a) == Ordering::Equal,
            Self::spec_cmp(a, b) == Ordering::Less && Self::spec_cmp(b, c) == Ordering::Less
                ==> Self::spec_cmp(a, c) == Ordering::Less,
            Self::spec_cmp(a, b) == Ordering::Equal && Self::spec_cmp(b, c) == Ordering::Less
                ==> Self::spec_cmp(a, c) == Ordering::Less,
            Self::spec_cmp(a, b) == Ordering::Less && Self::spec_cmp(b, c) == Ordering::Equal
                ==> Self::spec_cmp(a, c) == Ordering::Less,
    ;

    /// Order-equal values hash alike.
    proof fn hash_respects_cmp(a: &Self, b: &Self)
        requires
            Self::spec_cmp(a, b) == Ordering::Equal,
        ensures
            Self::spec_hash(a) == Self::spec_hash(b),
    ;

    /// Distinct values (under the order) have distinct record forms.
    proof fn to_record_injective(a: &Self, b: &Self)
        requires
            Self::spec_to_record(a) == Self::spec_to_record(b),
        ensures
            Self::spec_cmp(a, b) == Ordering::Equal,
    ;

    /// A value's own record form converts back.
    proof fn accepts_own(v: &Self)
        ensures
            Self::spec_accepts(Self::spec_to_record(v)),
    ;
}

impl Val for u32 {
    open spec fn spec_small() -> bool {
        true
    }

    fn small() -> (r: bool) {
        true
    }

    fn duplicate(&self) -> (r: u32) {
        *self
    }

    open spec fn is_default(v: &u32) -> bool {
        *v == 0
    }

    fn default_val() -> (r: u32) {
        0
    }

    open spec fn spec_cmp(a: &u32, b: &u32) -> Ordering {
        if *a < *b {
            Ordering::Less
        } else if *a == *b {
            Ordering::Equal
        } else {
            Ordering::Greater
        }
    }

    fn cmp_val(&self, other: &u32) -> (r: Ordering) {
        if *self < *other {
            Ordering::Less
        } else if *self == *other {
            Ordering::Equal
        } else {
            Ordering::Greater
        }
    }

    fn eq_val(&self, other: &u32) -> (r: bool) {
        *self == *other
    }

    open spec fn spec_hash(v: &u32) -> u64 {
        *v as u64
    }

    fn hash_val(&self) -> (r: u64) {
        *self as u64
    }

    open spec fn spec_to_record(v: &u32) -> RecordV {
        RecordV::UInt(*v as u128)
    }

    fn to_record(&self) -> (r: Record) {
        Record::UInt(*self as u128)
    }

    open spec fn spec_accepts(r: RecordV) -> bool {
        r matches RecordV::UInt(n) && n <= u32::MAX as u128
    }

    fn from_record(r: &Record) -> (res: Result<u32, String>) {
        match r {
            Record::UInt(n) => {
                if *n <= u32::MAX as u128 {
                    Ok(*n as u32)
                } else {
                    Err("record value does not fit in a 32-bit unsigned integer".to_owned())
                }
            },
            _ => Err("record is not a 32-bit unsigned integer".to_owned()),
        }
    }

    proof fn cmp_same(a: &u32) {
    }

    proof fn cmp_equal_trans(a: &u32, b: &u32, c: &u32) {
    }

    proof fn cmp_total_order(a: &u32, b: &u32, c: &u32) {
    }

    proof fn hash_respects_cmp(a: &u32, b: &u32) {
    }

    proof fn to_record_injective(a: &u32, b: &u32) {
    }

    proof fn accepts_own(v: &u32) {
    }
}

impl Val for String {
    open spec fn spec_small() -> bool {
        false
    }

    fn small() -> (r: bool) {
        false
    }

    fn duplicate(&self) -> (r: String) {
        let r = self.clone();
        proof {
            lemma_chars_cmp_equal(r@, self@);
        }
        r
    }

    open spec fn is_default(v: &String) -> bool {
        v@ == Seq::<char>::empty()
    }

    fn default_val() -> (r: String) {
        String::new()
    }

    open spec fn spec_cmp(a: &String, b: &String) -> Ordering {
        spec_chars_cmp(a@, b@)
    }

    fn cmp_val(&self, other: &String) -> (r: Ordering) {
        str_compare(self.as_str(), other.as_str())
    }

    fn eq_val(&self, other: &String) -> (r: bool) {
        proof {
            lemma_chars_cmp_equal(self@, other@);
        }
        self.eq(other)
    }

    open spec fn spec_hash(v: &String) -> u64 {
        spec_bytes_hash(vstd::utf8::encode_utf8(v@))
    }

    fn hash_val(&self) -> (r: u64) {
        hash_bytes(self.as_str().as_bytes())
    }

    open spec fn spec_to_record(v: &String) -> RecordV {
        RecordV::Str(v@)
    }

    fn to_record(&self) -> (r: Record) {
        Record::Str(self.clone())
    }

    open spec fn spec_accepts(r: RecordV) -> bool {
        r is Str
    }

    fn from_record(r: &Record) -> (res: Result<String, String>) {
        match r {
            Record::Str(s) => Ok(s.clone()),
            _ => Err("record is not a string".to_owned()),
        }
    }

    proof fn cmp_same(a: &String) {
        lemma_chars_cmp_equal(a@, a@);
    }

    proof fn cmp_equal_trans(a: &String, b: &String, c: &String) {
        lemma_chars_cmp_equal(a@, b@);
        lemma_chars_cmp_equal(b@, c@);
        lemma_chars_cmp_equal(a@, c@);
    }

    proof fn cmp_total_order(a: &String, b: &String, c: &String) {
        lemma_chars_cmp_exchange(a@, b@);
        lemma_chars_cmp_trans(a@, b@, c@);
    }

    proof fn hash_respects_cmp(a: &String, b: &String) {
        lemma_chars_cmp_equal(a@, b@);
    }

    proof fn to_record_injective(a: &String, b: &String) {
        lemma_chars_cmp_equal(a@, b@);
    }

    proof fn accepts_own(v: &String) {
    }
}


impl Val for u8 {
    open spec fn spec_small() -> bool {
        true
    }

    fn small() -> (r: bool) {
        true
    }

    fn duplicate(&self) -> (r: u8) {
        *self
    }

    open spec fn is_default(v: &u8) -> bool {
        *v == 0
    }

    fn default_val() -> (r: u8) {
        0
    }

    open spec fn spec_cmp(a: &u8, b: &u8) -> Ordering {
        if *a < *b {
            Ordering::Less
        } else if *a == *b {
            Ordering::Equal
        } else {
            Ordering::Greater
        }
    }

    fn cmp_val(&self, other: &u8) -> (r: Ordering) {
        if *self < *other {
            Ordering::Less
        } else if *self == *other {
            Ordering::Equal
        } else {
            Ordering::Greater
        }
    }

    fn eq_val(&self, other: &u8) -> (r: bool) {
        *self == *other
    }

    open spec fn spec_hash(v: &u8) -> u64 {
        *v as u64
    }

    fn hash_val(&self) -> (r: u64) {
        *self as u64
    }

    open spec fn spec_to_record(v: &u8) -> RecordV {
        RecordV::UInt(*v as u128)
    }

    fn to_record(&self) -> (r: Record) {
        Record::UInt(*self as u128)
    }

    open spec fn spec_accepts(r: RecordV) -> bool {
        r matches RecordV::UInt(n) && n <= u8::MAX as u128
    }

    fn from_record(r: &Record) -> (res: Result<u8, String>) {
        match r {
            Record::UInt(n) => {
                if *n <= u8::MAX as u128 {
                    Ok(*n as u8)
                } else {
                    Err("record value does not fit in a 8-bit unsigned integer".to_owned())
                }
            },
            _ => Err("record is not a 8-bit unsigned integer".to_owned()),
        }
    }

    proof fn cmp_same(a: &u8) {
    }

    proof fn cmp_equal_trans(a: &u8, b: &u8, c: &u8) {
    }

    proof fn cmp_total_order(a: &u8, b: &u8, c: &u8) {
    }

    proof fn hash_respects_cmp(a: &u8, b: &u8) {
    }

    proof fn to_record_injective(a: &u8, b: &u8) {
    }

    proof fn accepts_own(v: &u8) {
    }
}


impl Val for u16 {
    open spec fn spec_small() -> bool {
        true
    }

    fn small() -> (r: bool) {
        true
    }

    fn duplicate(&self) -> (r: u16) {
        *self
    }

    open spec fn is_default(v: &u16) -> bool {
        *v == 0
    }

    fn default_val() -> (r: u16) {
        0
    }

    open spec fn spec_cmp(a: &u16, b: &u16) -> Ordering {
        if *a < *b {
            Ordering::Less
        } else if *a == *b {
            Ordering::Equal
        } else {
            Ordering::Greater
        }
    }

    fn cmp_val(&self, other: &u16) -> (r: Ordering) {
        if *self < *other {
            Ordering::Less
        } else if *self == *other {
            Ordering::Equal
        } else {
            Ordering::Greater
        }
    }

    fn eq_val(&self, other: &u16) -> (r: bool) {
        *self == *other
    }

    open spec fn spec_hash(v: &u16) -> u64 {
        *v as u64
    }

    fn hash_val(&self) -> (r: u64) {
        *self as u64
    }

    open spec fn spec_to_record(v: &u16) -> RecordV {
        RecordV::UInt(*v as u128)
    }

    fn to_record(&self) -> (r: Record) {
        Record::UInt(*self as u128)
    }

    open spec fn spec_accepts(r: RecordV) -> bool {
        r matches RecordV::UInt(n) && n <= u16::MAX as u128
    }

    fn from_record(r: &Record) -> (res: Result<u16, String>) {
        match r {
            Record::UInt(n) => {
                if *n <= u16::MAX as u128 {
                    Ok(*n as u16)
                } else {
                    Err("record value does not fit in a 16-bit unsigned integer".to_owned())
                }
            },
            _ => Err("record is not a 16-bit unsigned integer".to_owned()),
        }
    }

    proof fn cmp_same(a: &u16) {
    }

    proof fn cmp_equal_trans(a: &u16, b: &u16, c: &u16) {
    }

    proof fn cmp_total_order(a: &u16, b: &u16, c: &u16) {
    }

    proof fn hash_respects_cmp(a: &u16, b: &u16) {
    }

    proof fn to_record_injective(a: &u16, b: &u16) {
    }

    proof fn accepts_own(v: &u16) {
    }
}


impl Val for u64 {
    open spec fn spec_small() -> bool {
        true
    }

    fn small() -> (r: bool) {
        true
    }

    fn duplicate(&self) -> (r: u64) {
        *self
    }

    open spec fn is_default(v: &u64) -> bool {
        *v == 0
    }

    fn default_val() -> (r: u64) {
        0
    }

    open spec fn spec_cmp(a: &u64, b: &u64) -> Ordering {
        if *a < *b {
            Ordering::Less
        } else if *a == *b {
            Ordering::Equal
        } else {
            Ordering::Greater
        }
    }

    fn cmp_val(&self, other: &u64) -> (r: Ordering) {
        if *self < *other {
            Ordering::Less
        } else if *self == *other {
            Ordering::Equal
        } else {
            Ordering::Greater
        }
    }

    fn eq_val(&self, other: &u64) -> (r: bool) {
        *self == *other
    }

    open spec fn spec_hash(v: &u64) -> u64 {
        *v as u64
    }

    fn hash_val(&self) -> (r: u64) {
        *self as u64
    }

    open spec fn spec_to_record(v: &u64) -> RecordV {
        RecordV::UInt(*v as u128)
    }

    fn to_record(&self) -> (r: Record) {
        Record::UInt(*self as u128)
    }

    open spec fn spec_accepts(r: RecordV) -> bool {
        r matches RecordV::UInt(n) && n <= u64::MAX as u128
    }

    fn from_record(r: &Record) -> (res: Result<u64, String>) {
        match r {
            Record::UInt(n) => {
                if *n <= u64::MAX as u128 {
                    Ok(*n as u64)
                } else {
                    Err("record value does not fit in a 64-bit unsigned integer".to_owned())
                }
            },
            _ => Err("record is not a 64-bit unsigned integer".to_owned()),
        }
    }

    proof fn cmp_same(a: &u64) {
    }

    proof fn cmp_equal_trans(a: &u64, b: &u64, c: &u64) {
    }

    proof fn cmp_total_order(a: &u64, b: &u64, c: &u64) {
    }

    proof fn hash_respects_cmp(a: &u64, b: &u64) {
    }

    proof fn to_record_injective(a: &u64, b: &u64) {
    }

    proof fn accepts_own(v: &u64) {
    }
}


impl Val for i8 {
    open spec fn spec_small() -> bool {
        true
    }

    fn small() -> (r: bool) {
        true
    }

    fn duplicate(&self) -> (r: i8) {
        *self
    }

    open spec fn is_default(v: &i8) -> bool {
        *v == 0
    }

    fn default_val() -> (r: i8) {
        0
    }

    open spec fn spec_cmp(a: &i8, b: &i8) -> Ordering {
        if *a < *b {
            Ordering::Less
        } else if *a == *b {
            Ordering::Equal
        } else {
            Ordering::Greater
        }
    }

    fn cmp_val(&self, other: &i8) -> (r: Ordering) {
        if *self < *other {
            Ordering::Less
        } else if *self == *other {
            Ordering::Equal
        } else {
            Ordering::Greater
        }
    }

    fn eq_val(&self, other: &i8) -> (r: bool) {
        *self == *other
    }

    open spec fn spec_hash(v: &i8) -> u64 {
        ((*v as i128) - (i8::MIN as i128)) as u64
    }

    fn hash_val(&self) -> (r: u64) {
        ((*self as i128) - (i8::MIN as i128)) as u64
    }

    open spec fn spec_to_record(v: &i8) -> RecordV {
        RecordV::SInt(*v as i128)
    }

    fn to_record(&self) -> (r: Record) {
        Record::SInt(*self as i128)
    }

    open spec fn spec_accepts(r: RecordV) -> bool {
        r matches RecordV::SInt(n) && i8::MIN as i128 <= n <= i8::MAX as i128
    }

    fn from_record(r: &Record) -> (res: Result<i8, String>) {
        match r {
            Record::SInt(n) => {
                if i8::MIN as i128 <= *n && *n <= i8::MAX as i128 {
                    Ok(*n as i8)
                } else {
                    Err("record value does not fit in a 8-bit signed integer".to_owned())
                }
            },
            _ => Err("record is not a 8-bit signed integer".to_owned()),
        }
    }

    proof fn cmp_same(a: &i8) {
    }

    proof fn cmp_equal_trans(a: &i8, b: &i8, c: &i8) {
    }

    proof fn cmp_total_order(a: &i8, b: &i8, c: &i8) {
    }

    proof fn hash_respects_cmp(a: &i8, b: &i8) {
    }

    proof fn to_record_injective(a: &i8, b: &i8) {
    }

    proof fn accepts_own(v: &i8) {
    }
}


impl Val for i16 {
    open spec fn spec_small() -> bool {
        true
    }

    fn small() -> (r: bool) {
        true
    }

    fn duplicate(&self) -> (r: i16) {
        *self
    }

    open spec fn is_default(v: &i16) -> bool {
        *v == 0
    }

    fn default_val() -> (r: i16) {
        0
    }

    open spec fn spec_cmp(a: &i16, b: &i16) -> Ordering {
        if *a < *b {
            Ordering::Less
        } else if *a == *b {
            Ordering::Equal
        } else {
            Ordering::Greater
        }
    }

    fn cmp_val(&self, other: &i16) -> (r: Ordering) {
        if *self < *other {
            Ordering::Less
        } else if *self == *other {
            Ordering::Equal
        } else {
            Ordering::Greater
        }
    }

    fn eq_val(&self, other: &i16) -> (r: bool) {
        *self == *other
    }

    open spec fn spec_hash(v: &i16) -> u64 {
        ((*v as i128) - (i16::MIN as i128)) as u64
    }

    fn hash_val(&self) -> (r: u64) {
        ((*self as i128) - (i16::MIN as i128)) as u64
    }

    open spec fn spec_to_record(v: &i16) -> RecordV {
        RecordV::SInt(*v as i128)
    }

    fn to_record(&self) -> (r: Record) {
        Record::SInt(*self as i128)
    }

    open spec fn spec_accepts(r: RecordV) -> bool {
        r matches RecordV::SInt(n) && i16::MIN as i128 <= n <= i16::MAX as i128
    }

    fn from_record(r: &Record) -> (res: Result<i16, String>) {
        match r {
            Record::SInt(n) => {
                if i16::MIN as i128 <= *n && *n <= i16::MAX as i128 {
                    Ok(*n as i16)
                } else {
                    Err("record value does not fit in a 16-bit signed integer".to_owned())
                }
            },
            _ => Err("record is not a 16-bit signed integer".to_owned()),
        }
    }

    proof fn cmp_same(a: &i16) {
    }

    proof fn cmp_equal_trans(a: &i16, b: &i16, c: &i16) {
    }

    proof fn cmp_total_order(a: &i16, b: &i16, c: &i16) {
    }

    proof fn hash_respects_cmp(a: &i16, b: &i16) {
    }

    proof fn to_record_injective(a: &i16, b: &i16) {
    }

    proof fn accepts_own(v: &i16) {
    }
}


impl Val for i32 {
    open spec fn spec_small() -> bool {
        true
    }

    fn small() -> (r: bool) {
        true
    }

    fn duplicate(&self) -> (r: i32) {
        *self
    }

    open spec fn is_default(v: &i32) -> bool {
        *v == 0
    }

    fn default_val() -> (r: i32) {
        0
    }

    open spec fn spec_cmp(a: &i32, b: &i32) -> Ordering {
        if *a < *b {
            Ordering::Less
        } else if *a == *b {
            Ordering::Equal
        } else {
            Ordering::Greater
        }
    }

    fn cmp_val(&self, other: &i32) -> (r: Ordering) {
        if *self < *other {
            Ordering::Less
        } else if *self == *other {
            Ordering::Equal
        } else {
            Ordering::Greater
        }
    }

    fn eq_val(&self, other: &i32) -> (r: bool) {
        *self == *other
    }

    open spec fn spec_hash(v: &i32) -> u64 {
        ((*v as i128) - (i32::MIN as i128)) as u64
    }

    fn hash_val(&self) -> (r: u64) {
        ((*self as i128) - (i32::MIN as i128)) as u64
    }

    open spec fn spec_to_record(v: &i32) -> RecordV {
        RecordV::SInt(*v as i128)
    }

    fn to_record(&self) -> (r: Record) {
        Record::SInt(*self as i128)
    }

    open spec fn spec_accepts(r: RecordV) -> bool {
        r matches RecordV::SInt(n) && i32::MIN as i128 <= n <= i32::MAX as i128
    }

    fn from_record(r: &Record) -> (res: Result<i32, String>) {
        match r {
            Record::SInt(n) => {
                if i32::MIN as i128 <= *n && *n <= i32::MAX as i128 {
                    Ok(*n as i32)
                } else {
                    Err("record value does not fit in a 32-bit signed integer".to_owned())
                }
            },
            _ => Err("record is not a 32-bit signed integer".to_owned()),
        }
    }

    proof fn cmp_same(a: &i32) {
    }

    proof fn cmp_equal_trans(a: &i32, b: &i32, c: &i32) {
    }

    proof fn cmp_total_order(a: &i32, b: &i32, c: &i32) {
    }

    proof fn hash_respects_cmp(a: &i32, b: &i32) {
    }

    proof fn to_record_injective(a: &i32, b: &i32) {
    }

    proof fn accepts_own(v: &i32) {
    }
}


impl Val for i64 {
    open spec fn spec_small() -> bool {
        true
    }

    fn small() -> (r: bool) {
        true
    }

    fn duplicate(&self) -> (r: i64) {
        *self
    }

    open spec fn is_default(v: &i64) -> bool {
        *v == 0
    }

    fn default_val() -> (r: i64) {
        0
    }

    open spec fn spec_cmp(a: &i64, b: &i64) -> Ordering {
        if *a < *b {
            Ordering::Less
        } else if *a == *b {
            Ordering::Equal
        } else {
            Ordering::Greater
        }
    }

    fn cmp_val(&self, other: &i64) -> (r: Ordering) {
        if *self < *other {
            Ordering::Less
        } else if *self == *other {
            Ordering::Equal
        } else {
            Ordering::Greater
        }
    }

    fn eq_val(&self, other: &i64) -> (r: bool) {
        *self == *other
    }

    open spec fn spec_hash(v: &i64) -> u64 {
        ((*v as i128) - (i64::MIN as i128)) as u64
    }

    fn hash_val(&self) -> (r: u64) {
        ((*self as i128) - (i64::MIN as i128)) as u64
    }

    open spec fn spec_to_record(v: &i64) -> RecordV {
        RecordV::SInt(*v as i128)
    }

    fn to_record(&self) -> (r: Record) {
        Record::SInt(*self as i128)
    }

    open spec fn spec_accepts(r: RecordV) -> bool {
        r matches RecordV::SInt(n) && i64::MIN as i128 <= n <= i64::MAX as i128
    }

    fn from_record(r: &Record) -> (res: Result<i64, String>) {
        match r {
            Record::SInt(n) => {
                if i64::MIN as i128 <= *n && *n <= i64::MAX as i128 {
                    Ok(*n as i64)
                } else {
                    Err("record value does not fit in a 64-bit signed integer".to_owned())
                }
            },
            _ => Err("record is not a 64-bit signed integer".to_owned()),
        }
    }

    proof fn cmp_same(a: &i64) {
    }

    proof fn cmp_equal_trans(a: &i64, b: &i64, c: &i64) {
    }

    proof fn cmp_total_order(a: &i64, b: &i64, c: &i64) {
    }

    proof fn hash_respects_cmp(a: &i64, b: &i64) {
    }

    proof fn to_record_injective(a: &i64, b: &i64) {
    }

    proof fn accepts_own(v: &i64) {
    }
}


impl Val for bool {
    open spec fn spec_small() -> bool {
        true
    }

    fn small() -> (r: bool) {
        true
    }

    fn duplicate(&self) -> (r: bool) {
        *self
    }

    open spec fn is_default(v: &bool) -> bool {
        *v == false
    }

    fn default_val() -> (r: bool) {
        false
    }

    open spec fn spec_cmp(a: &bool, b: &bool) -> Ordering {
        if *a == *b {
            Ordering::Equal
        } else if *b {
            Ordering::Less
        } else {
            Ordering::Greater
        }
    }

    fn cmp_val(&self, other: &bool) -> (r: Ordering) {
        if *self == *other {
            Ordering::Equal
        } else if *other {
            Ordering::Less
        } else {
            Ordering::Greater
        }
    }

    fn eq_val(&self, other: &bool) -> (r: bool) {
        *self == *other
    }

    open spec fn spec_hash(v: &bool) -> u64 {
        if *v {
            1
        } else {
            0
        }
    }

    fn hash_val(&self) -> (r: u64) {
        if *self {
            1
        } else {
            0
        }
    }

    open spec fn spec_to_record(v: &bool) -> RecordV {
        RecordV::Bool(*v)
    }

    fn to_record(&self) -> (r: Record) {
        Record::Bool(*self)
    }

    open spec fn spec_accepts(r: RecordV) -> bool {
        r is Bool
    }

    fn from_record(r: &Record) -> (res: Result<bool, String>) {
        match r {
            Record::Bool(b) => Ok(*b),
            _ => Err("record is not a boolean".to_owned()),
        }
    }

    proof fn cmp_same(a: &bool) {
    }

    proof fn cmp_equal_trans(a: &bool, b: &bool, c: &bool) {
    }

    proof fn cmp_total_order(a: &bool, b: &bool, c: &bool) {
    }

    proof fn hash_respects_cmp(a: &bool, b: &bool) {
    }

    proof fn to_record_injective(a: &bool, b: &bool) {
    }

    proof fn accepts_own(v: &bool) {
    }
}

impl Val for () {
    open spec fn spec_small() -> bool {
        true
    }

    fn small() -> (r: bool) {
        true
    }

    fn duplicate(&self) -> (r: ()) {
        ()
    }

    open spec fn is_default(v: &()) -> bool {
        true
    }

    fn default_val() -> (r: ()) {
        ()
    }

    open spec fn spec_cmp(a: &(), b: &()) -> Ordering {
        Ordering::Equal
    }

    fn cmp_val(&self, other: &()) -> (r: Ordering) {
        Ordering::Equal
    }

    fn eq_val(&self, other: &()) -> (r: bool) {
        true
    }

    open spec fn spec_hash(v: &()) -> u64 {
        0
    }

    fn hash_val(&self) -> (r: u64) {
        0
    }

    open spec fn spec_to_record(v: &()) -> RecordV {
        RecordV::Tuple(Seq::empty())
    }

    fn to_record(&self) -> (r: Record) {
        let items: Vec<Record> = Vec::new();
        let rec = Record::Tuple(items);
        proof {
            assert(crate::record::deep_items(Seq::<Record>::empty()) =~= Seq::<RecordV>::empty());
        }
        rec
    }

    open spec fn spec_accepts(r: RecordV) -> bool {
        r matches RecordV::Tuple(items) && items.len() == 0
    }

    fn from_record(r: &Record) -> (res: Result<(), String>) {
        match r {
            Record::Tuple(items) => {
                if items.len() == 0 {
                    proof {
                        assert(crate::record::deep_items(items@) =~= Seq::<RecordV>::empty());
                    }
                    Ok(())
                } else {
                    proof {
                        crate::record::lemma_deep_items(items@);
                    }
                    Err("record is not the unit value".to_owned())
                }
            },
            _ => Err("record is not the unit value".to_owned()),
        }
    }

    proof fn cmp_same(a: &()) {
    }

    proof fn cmp_equal_trans(a: &(), b: &(), c: &()) {
    }

    proof fn cmp_total_order(a: &(), b: &(), c: &()) {
    }

    proof fn hash_respects_cmp(a: &(), b: &()) {
    }

    proof fn to_record_injective(a: &(), b: &()) {
    }

    proof fn accepts_own(v: &()) {
    }
}

impl Val for u128 {
    open spec fn spec_small() -> bool {
        false
    }

    fn small() -> (r: bool) {
        false
    }

    fn duplicate(&self) -> (r: u128) {
        *self
    }

    open spec fn is_default(v: &u128) -> bool {
        *v == 0
    }

    fn default_val() -> (r: u128) {
        0
    }

    open spec fn spec_cmp(a: &u128, b: &u128) -> Ordering {
        if *a < *b {
            Ordering::Less
        } else if *a == *b {
            Ordering::Equal
        } else {
            Ordering::Greater
        }
    }

    fn cmp_val(&self, other: &u128) -> (r: Ordering) {
        if *self < *other {
            Ordering::Less
        } else if *self == *other {
            Ordering::Equal
        } else {
            Ordering::Greater
        }
    }

    fn eq_val(&self, other: &u128) -> (r: bool) {
        *self == *other
    }

    open spec fn spec_hash(v: &u128) -> u64 {
        ((*v % 0x10000000000000000u128) as u64) ^ (((*v / 0x10000000000000000u128) as u64) << 1)
    }

    fn hash_val(&self) -> (r: u64) {
        ((*self % 0x10000000000000000u128) as u64) ^ (((*self / 0x10000000000000000u128) as u64)
            << 1u64)
    }

    open spec fn spec_to_record(v: &u128) -> RecordV {
        RecordV::UInt(*v)
    }

    fn to_record(&self) -> (r: Record) {
        Record::UInt(*self)
    }

    open spec fn spec_accepts(r: RecordV) -> bool {
        r is UInt
    }

    fn from_record(r: &Record) -> (res: Result<u128, String>) {
        match r {
            Record::UInt(n) => Ok(*n),
            _ => Err("record is not a 128-bit unsigned integer".to_owned()),
        }
    }

    proof fn cmp_same(a: &u128) {
    }

    proof fn cmp_equal_trans(a: &u128, b: &u128, c: &u128) {
    }

    proof fn cmp_total_order(a: &u128, b: &u128, c: &u128) {
    }

    proof fn hash_respects_cmp(a: &u128, b: &u128) {
    }

    proof fn to_record_injective(a: &u128, b: &u128) {
    }

    proof fn accepts_own(v: &u128) {
    }
}

impl Val for i128 {
    open spec fn spec_small() -> bool {
        false
    }

    fn small() -> (r: bool) {
        false
    }

    fn duplicate(&self) -> (r: i128) {
        *self
    }

    open spec fn is_default(v: &i128) -> bool {
        *v == 0
    }

    fn default_val() -> (r: i128) {
        0
    }

    open spec fn spec_cmp(a: &i128, b: &i128) -> Ordering {
        if *a < *b {
            Ordering::Less
        } else if *a == *b {
            Ordering::Equal
        } else {
            Ordering::Greater
        }
    }

    fn cmp_val(&self, other: &i128) -> (r: Ordering) {
        if *self < *other {
            Ordering::Less
        } else if *self == *other {
            Ordering::Equal
        } else {
            Ordering::Greater
        }
    }

    fn eq_val(&self, other: &i128) -> (r: bool) {
        *self == *other
    }

    open spec fn spec_hash(v: &i128) -> u64 {
        (((if *v >= 0 {
            *v as int
        } else {
            -(*v as int) - 1
        }) % 0x10000000000000000) as u64) ^ (if *v >= 0 {
            0u64
        } else {
            1u64
        })
    }

    fn hash_val(&self) -> (r: u64) {
        let m: i128 = if *self >= 0 {
            *self
        } else {
            -(*self + 1)
        };
        ((m % 0x10000000000000000i128) as u64) ^ (if *self >= 0 {
            0u64
        } else {
            1u64
        })
    }

    open spec fn spec_to_record(v: &i128) -> RecordV {
        RecordV::SInt(*v)
    }

    fn to_record(&self) -> (r: Record) {
        Record::SInt(*self)
    }

    open spec fn spec_accepts(r: RecordV) -> bool {
        r is SInt
    }

    fn from_record(r: &Record) -> (res: Result<i128, String>) {
        match r {
            Record::SInt(n) => Ok(*n),
            _ => Err("record is not a 128-bit signed integer".to_owned()),
        }
    }

    proof fn cmp_same(a: &i128) {
    }

    proof fn cmp_equal_trans(a: &i128, b: &i128, c: &i128) {
    }

    proof fn cmp_total_order(a: &i128, b: &i128, c: &i128) {
    }

    proof fn hash_respects_cmp(a: &i128, b: &i128) {
    }

    proof fn to_record_injective(a: &i128, b: &i128) {
    }

    proof fn accepts_own(v: &i128) {
    }
}


/// Lexicographic order over sequences of storable values.
pub open spec fn spec_seq_cmp<T: Val>(a: Seq<T>, b: Seq<T>) -> Ordering
    decreases a.len(),
{
    if a.len() == 0 && b.len() == 0 {
        Ordering::Equal
    } else if a.len() == 0 {
        Ordering::Less
    } else if b.len() == 0 {
        Ordering::Greater
    } else {
        match T::spec_cmp(&a[0], &b[0]) {
            Ordering::Equal => spec_seq_cmp(
                a.subrange(1, a.len() as int),
                b.subrange(1, b.len() as int),
            ),
            o => o,
        }
    }
}

/// The lexicographic order is reflexive.
pub proof fn lemma_seq_cmp_refl<T: Val>(s: Seq<T>)
    ensures
        spec_seq_cmp(s, s) == Ordering::Equal,
    decreases s.len(),
{
    if s.len() > 0 {
        T::cmp_same(&s[0]);
        lemma_seq_cmp_refl::<T>(s.subrange(1, s.len() as int));
    }
}

/// Sequences that order as equal have equal lengths and element-wise
/// order-equal entries.
pub proof fn lemma_seq_cmp_equal_parts<T: Val>(a: Seq<T>, b: Seq<T>)
    requires
        spec_seq_cmp(a, b) == Ordering::Equal,
    ensures
        a.len() == b.len(),
        forall|i: int|
            0 <= i < a.len() ==> #[trigger] T::spec_cmp(&a[i], &b[i]) == Ordering::Equal,
    decreases a.len(),
{
    if a.len() > 0 && b.len() > 0 {
        let at = a.subrange(1, a.len() as int);
        let bt = b.subrange(1, b.len() as int);
        lemma_seq_cmp_equal_parts::<T>(at, bt);
        assert forall|i: int|
            0 <= i < a.len() implies #[trigger] T::spec_cmp(&a[i], &b[i]) == Ordering::Equal by {
            if i > 0 {
                assert(T::spec_cmp(&at[i - 1], &bt[i - 1]) == Ordering::Equal);
                assert(at[i - 1] == a[i]);
                assert(bt[i - 1] == b[i]);
            }
        }
    }
}

/// Sequences of equal length with element-wise order-equal entries order as
/// equal.
pub proof fn lemma_seq_cmp_from_parts<T: Val>(a: Seq<T>, b: Seq<T>)
    requires
        a.len() == b.len(),
        forall|i: int|
            0 <= i < a.len() ==> #[trigger] T::spec_cmp(&a[i], &b[i]) == Ordering::Equal,
    ensures
        spec_seq_cmp(a, b) == Ordering::Equal,
    decreases a.len(),
{
    if a.len() > 0 {
        let at = a.subrange(1, a.len() as int);
        let bt = b.subrange(1, b.len() as int);
        assert(T::spec_cmp(&a[0], &b[0]) == Ordering::Equal);
        assert forall|i: int|
            0 <= i < at.len() implies #[trigger] T::spec_cmp(&at[i], &bt[i])
            == Ordering::Equal by {
            assert(at[i] == a[i + 1]);
            assert(bt[i] == b[i + 1]);
            assert(T::spec_cmp(&a[i + 1], &b[i + 1]) == Ordering::Equal);
        }
        lemma_seq_cmp_from_parts::<T>(at, bt);
    }
}

/// The sequence order flips when its arguments are exchanged.
pub proof fn lemma_seq_cmp_exchange<T: Val>(a: Seq<T>, b: Seq<T>)
    ensures
        spec_seq_cmp(a, b) == Ordering::Less <==> spec_seq_cmp(b, a) == Ordering::Greater,
        spec_seq_cmp(a, b) == Ordering::Equal <==> spec_seq_cmp(b, a) == Ordering::Equal,
    decreases a.len(),
{
    if a.len() > 0 && b.len() > 0 {
        T::cmp_total_order(&a[0], &b[0], &b[0]);
        lemma_seq_cmp_exchange::<T>(a.subrange(1, a.len() as int), b.subrange(1, b.len() as int));
    }
}

/// The strict sequence order composes transitively, also around
/// order-equal middles.
pub proof fn lemma_seq_cmp_strict_trans<T: Val>(a: Seq<T>, b: Seq<T>, c: Seq<T>)
    ensures
        spec_seq_cmp(a, b) == Ordering::Less && spec_seq_cmp(b, c) == Ordering::Less
            ==> spec_seq_cmp(a, c) == Ordering::Less,
        spec_seq_cmp(a, b) == Ordering::Equal && spec_seq_cmp(b, c) == Ordering::Less
            ==> spec_seq_cmp(a, c) == Ordering::Less,
        spec_seq_cmp(a, b) == Ordering::Less && spec_seq_cmp(b, c) == Ordering::Equal
            ==> spec_seq_cmp(a, c) == Ordering::Less,
    decreases a.len() + b.len() + c.len(),
{
    if a.len() > 0 && b.len() > 0 && c.len() > 0 {
        T::cmp_total_order(&a[0], &b[0], &c[0]);
        if T::spec_cmp(&a[0], &b[0]) == Ordering::Equal && T::spec_cmp(&b[0], &c[0])
            == Ordering::Equal {
            T::cmp_equal_trans(&a[0], &b[0], &c[0]);
        }
        lemma_seq_cmp_strict_trans::<T>(
            a.subrange(1, a.len() as int),
            b.subrange(1, b.len() as int),
            c.subrange(1, c.len() as int),
        );
    }
}

/// The hash of a sequence of storable values: a rotate-and-xor fold of the
/// elements' hashes.
pub open spec fn spec_seq_hash<T: Val>(s: Seq<T>) -> u64
    decreases s.len(),
{
    if s.len() == 0 {
        0x100000001b3u64
    } else {
        ((spec_seq_hash(s.drop_last()) << 7) | (spec_seq_hash(s.drop_last()) >> 57)) ^ T::spec_hash(
            &s.last(),
        )
    }
}

/// Order-equal sequences hash alike.
pub proof fn lemma_seq_hash_congruent<T: Val>(a: Seq<T>, b: Seq<T>)
    requires
        a.len() == b.len(),
        forall|i: int|
            0 <= i < a.len() ==> #[trigger] T::spec_cmp(&a[i], &b[i]) == Ordering::Equal,
    ensures
        spec_seq_hash(a) == spec_seq_hash(b),
    decreases a.len(),
{
    if a.len() > 0 {
        let ad = a.drop_last();
        let bd = b.drop_last();
        assert forall|i: int|
            0 <= i < ad.len() implies #[trigger] T::spec_cmp(&ad[i], &bd[i])
            == Ordering::Equal by {
            assert(ad[i] == a[i]);
            assert(bd[i] == b[i]);
        }
        lemma_seq_hash_congruent::<T>(ad, bd);
        assert(T::spec_cmp(&a[a.len() - 1], &b[b.len() - 1]) == Ordering::Equal);
        T::hash_respects_cmp(&a.last(), &b.last());
    }
}

/// The record forms of a sequence of storable values.
pub open spec fn spec_records_of<T: Val>(s: Seq<T>) -> Seq<RecordV> {
    Seq::new(s.len(), |i: int| T::spec_to_record(&s[i]))
}

impl<T: Val> Val for Vec<T> {
    open spec fn spec_small() -> bool {
        false
    }

    fn small() -> (r: bool) {
        false
    }

    fn duplicate(&self) -> (r: Vec<T>) {
        let mut out: Vec<T> = Vec::new();
        let mut i: usize = 0;
        while i < self.len()
            invariant
                i <= self@.len(),
                out@.len() == i,
                forall|j: int|
                    0 <= j < i ==> #[trigger] T::spec_cmp(&out@[j], &self@[j]) == Ordering::Equal,
            decreases self@.len() - i,
        {
            let d = (&self[i]).duplicate();
            out.push(d);
            i = i + 1;
        }
        proof {
            lemma_seq_cmp_from_parts::<T>(out@, self@);
        }
        out
    }

    open spec fn is_default(v: &Vec<T>) -> bool {
        v@.len() == 0
    }

    fn default_val() -> (r: Vec<T>) {
        Vec::new()
    }

    open spec fn spec_cmp(a: &Vec<T>, b: &Vec<T>) -> Ordering {
        spec_seq_cmp(a@, b@)
    }

    fn cmp_val(&self, other: &Vec<T>) -> (r: Ordering) {
        let ghost a = self@;
        let ghost b = other@;
        proof {
            assert(a.subrange(0, a.len() as int) =~= a);
            assert(b.subrange(0, b.len() as int) =~= b);
        }
        let mut i: usize = 0;
        while i < self.len() && i < other.len()
            invariant
                a == self@,
                b == other@,
                i <= a.len(),
                i <= b.len(),
                spec_seq_cmp(a, b) == spec_seq_cmp(
                    a.subrange(i as int, a.len() as int),
                    b.subrange(i as int, b.len() as int),
                ),
            decreases a.len() - i,
        {
            let ghost sa = a.subrange(i as int, a.len() as int);
            let ghost sb = b.subrange(i as int, b.len() as int);
            let c = (&self[i]).cmp_val(&other[i]);
            proof {
                assert(sa[0] == a[i as int]);
                assert(sb[0] == b[i as int]);
            }
            match c {
                Ordering::Equal => {
                    proof {
                        assert(sa.subrange(1, sa.len() as int) =~= a.subrange(
                            i + 1,
                            a.len() as int,
                        ));
                        assert(sb.subrange(1, sb.len() as int) =~= b.subrange(
                            i + 1,
                            b.len() as int,
                        ));
                    }
                    i = i + 1;
                },
                Ordering::Less => {
                    proof {
                        assert(spec_seq_cmp(sa, sb) == Ordering::Less);
                    }
                    return Ordering::Less;
                },
                Ordering::Greater => {
                    proof {
                        assert(spec_seq_cmp(sa, sb) == Ordering::Greater);
                    }
                    return Ordering::Greater;
                },
            }
        }
        proof {
            let sa = a.subrange(i as int, a.len() as int);
            let sb = b.subrange(i as int, b.len() as int);
            assert(sa.len() == 0 || sb.len() == 0);
        }
        if self.len() < other.len() {
            Ordering::Less
        } else if other.len() < self.len() {
            Ordering::Greater
        } else {
            Ordering::Equal
        }
    }

    fn eq_val(&self, other: &Vec<T>) -> (r: bool) {
        match self.cmp_val(other) {
            Ordering::Equal => true,
            _ => false,
        }
    }

    open spec fn spec_hash(v: &Vec<T>) -> u64 {
        spec_seq_hash(v@)
    }

    fn hash_val(&self) -> (r: u64) {
        let mut acc: u64 = 0x100000001b3;
        let mut i: usize = 0;
        while i < self.len()
            invariant
                i <= self@.len(),
                acc == spec_seq_hash(self@.subrange(0, i as int)),
            decreases self@.len() - i,
        {
            let h = (&self[i]).hash_val();
            acc = ((acc << 7u64) | (acc >> 57u64)) ^ h;
            i = i + 1;
            proof {
                let pre = self@.subrange(0, i - 1);
                let cur = self@.subrange(0, i as int);
                assert(cur.drop_last() =~= pre);
                assert(cur.last() == self@[i - 1]);
            }
        }
        proof {
            assert(self@.subrange(0, self@.len() as int) =~= self@);
        }
        acc
    }

    open spec fn spec_to_record(v: &Vec<T>) -> RecordV {
        RecordV::Array(spec_records_of(v@))
    }

    fn to_record(&self) -> (r: Record) {
        let mut items: Vec<Record> = Vec::new();
        let mut i: usize = 0;
        while i < self.len()
            invariant
                i <= self@.len(),
                items@.len() == i,
                forall|j: int| 0 <= j < i ==> #[trigger] items@[j]@ == T::spec_to_record(&self@[j]),
            decreases self@.len() - i,
        {
            items.push((&self[i]).to_record());
            i = i + 1;
        }
        let ghost itemsv = items@;
        let rec = Record::Array(items);
        proof {
            crate::record::lemma_deep_items(itemsv);
            assert forall|j: int|
                0 <= j < itemsv.len() implies crate::record::deep_items(itemsv)[j]
                == spec_records_of(self@)[j] by {
                assert(itemsv[j]@ == T::spec_to_record(&self@[j]));
                assert(crate::record::deep_items(itemsv)[j] == itemsv[j].deep());
            }
            assert(crate::record::deep_items(itemsv) =~= spec_records_of(self@));
        }
        rec
    }

    open spec fn spec_accepts(r: RecordV) -> bool {
        match r {
            RecordV::Array(items) => forall|i: int|
                0 <= i < items.len() ==> #[trigger] T::spec_accepts(items[i]),
            _ => false,
        }
    }

    fn from_record(r: &Record) -> (res: Result<Vec<T>, String>) {
        match r {
            Record::Array(items) => {
                proof {
                    crate::record::lemma_deep_items(items@);
                }
                let mut out: Vec<T> = Vec::new();
                let mut i: usize = 0;
                while i < items.len()
                    invariant
                        i <= items@.len(),
                        out@.len() == i,
                        r@ == RecordV::Array(crate::record::deep_items(items@)),
                        crate::record::deep_items(items@).len() == items@.len(),
                        forall|j: int|
                            0 <= j < items@.len() ==> crate::record::deep_items(items@)[j]
                                == #[trigger] items@[j].deep(),
                        forall|j: int|
                            0 <= j < i ==> #[trigger] T::spec_accepts(
                                crate::record::deep_items(items@)[j],
                            ),
                        forall|j: int|
                            0 <= j < i ==> #[trigger] T::spec_to_record(&out@[j])
                                == crate::record::deep_items(items@)[j],
                    decreases items@.len() - i,
                {
                    match T::from_record(&items[i]) {
                        Ok(v) => {
                            out.push(v);
                        },
                        Err(e) => {
                            proof {
                                assert(crate::record::deep_items(items@)[i as int] == items@[i as int].deep());
                                assert(!T::spec_accepts(items@[i as int]@));
                                assert(!T::spec_accepts(crate::record::deep_items(items@)[i as int]));
                                assert(r@ == RecordV::Array(crate::record::deep_items(items@)));
                                assert(!<Vec<T> as Val>::spec_accepts(r@)) by {
                                    if <Vec<T> as Val>::spec_accepts(r@) {
                                        let s = r@->Array_0;
                                        assert(s == crate::record::deep_items(items@));
                                        assert(!T::spec_accepts(s[i as int]));
                                    }
                                }
                            }
                            return Err(e);
                        },
                    }
                    i = i + 1;
                }
                proof {
                    assert(spec_records_of(out@) =~= crate::record::deep_items(items@));
                }
                Ok(out)
            },
            _ => Err("record is not a collection".to_owned()),
        }
    }

    proof fn cmp_same(a: &Vec<T>) {
        lemma_seq_cmp_refl::<T>(a@);
    }

    proof fn cmp_equal_trans(a: &Vec<T>, b: &Vec<T>, c: &Vec<T>) {
        lemma_seq_cmp_equal_parts::<T>(a@, b@);
        lemma_seq_cmp_equal_parts::<T>(b@, c@);
        assert forall|i: int|
            0 <= i < a@.len() implies #[trigger] T::spec_cmp(&a@[i], &c@[i])
            == Ordering::Equal by {
            T::cmp_equal_trans(&a@[i], &b@[i], &c@[i]);
        }
        lemma_seq_cmp_from_parts::<T>(a@, c@);
    }

    proof fn cmp_total_order(a: &Vec<T>, b: &Vec<T>, c: &Vec<T>) {
        lemma_seq_cmp_exchange::<T>(a@, b@);
        lemma_seq_cmp_strict_trans::<T>(a@, b@, c@);
    }

    proof fn hash_respects_cmp(a: &Vec<T>, b: &Vec<T>) {
        lemma_seq_cmp_equal_parts::<T>(a@, b@);
        lemma_seq_hash_congruent::<T>(a@, b@);
    }

    proof fn to_record_injective(a: &Vec<T>, b: &Vec<T>) {
        let ra = spec_records_of(a@);
        let rb = spec_records_of(b@);
        assert(ra == rb);
        assert forall|i: int|
            0 <= i < a@.len() implies #[trigger] T::spec_cmp(&a@[i], &b@[i])
            == Ordering::Equal by {
            assert(ra[i] == rb[i]);
            T::to_record_injective(&a@[i], &b@[i]);
        }
        lemma_seq_cmp_from_parts::<T>(a@, b@);
    }

    proof fn accepts_own(v: &Vec<T>) {
        let rs = spec_records_of(v@);
        assert forall|i: int| 0 <= i < rs.len() implies #[trigger] T::spec_accepts(rs[i]) by {
            T::accepts_own(&v@[i]);
        }
    }
}

} // verus!
