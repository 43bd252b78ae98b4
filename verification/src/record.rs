//! The generic record format: a dynamically typed tree value used for uniform
//! textual rendering of erased values and for field-level mutation requests.
//!
//! Every storable type converts to and from this format through its own
//! capability implementation (see [`crate::Val`]); the erased-value layer
//! treats the tree itself uniformly.  The mathematical model of a record is
//! [`RecordV`], a tree over sequences; [`Record::deep`] maps the executable
//! tree to its model.

use vstd::prelude::*;

use crate::push_char_onto;
use crate::push_str_onto;

verus! {

broadcast use vstd::seq::axiom_seq_index_decreases, vstd::seq::axiom_seq_subrange_decreases, vstd::std_specs::vec::axiom_vec_index_decreases, vstd::std_specs::vec::axiom_vec_decreases_to_view;

/// A dynamically typed tree value: primitives, text, tuples, structured
/// records with a constructor name, and collections.
pub enum Record {
    /// A boolean primitive.
    Bool(bool),
    /// An unsigned integer primitive.
    UInt(u128),
    /// A signed integer primitive.
    SInt(i128),
    /// A text value.
    Str(String),
    /// A positional tuple of sub-records.
    Tuple(Vec<Record>),
    /// A structured record: constructor name and its fields.
    NamedStruct(String, Vec<Record>),
    /// A collection of sub-records.
    Array(Vec<Record>),
}

/// The mathematical model of a record tree.
pub enum RecordV {
    Bool(bool),
    UInt(u128),
    SInt(i128),
    Str(Seq<char>),
    Tuple(Seq<RecordV>),
    NamedStruct(Seq<char>, Seq<RecordV>),
    Array(Seq<RecordV>),
}

/// The models of the elements of a record sequence.
pub open spec fn deep_items(s: Seq<Record>) -> Seq<RecordV>
    decreases s,
{
    if s.len() == 0 {
        Seq::empty()
    } else {
        seq![s[0].deep()] + deep_items(s.subrange(1, s.len() as int))
    }
}

/// `deep_items` maps each element to its model.
pub proof fn lemma_deep_items(s: Seq<Record>)
    ensures
        deep_items(s).len() == s.len(),
        forall|i: int| 0 <= i < s.len() ==> deep_items(s)[i] == #[trigger] s[i].deep(),
    decreases s.len(),
{
    if s.len() > 0 {
        let t = s.subrange(1, s.len() as int);
        lemma_deep_items(t);
        assert forall|i: int| 0 <= i < s.len() implies deep_items(s)[i] == #[trigger] s[i].deep() by {
            if i > 0 {
                assert(deep_items(s)[i] == deep_items(t)[i - 1]);
                assert(t[i - 1] == s[i]);
            }
        }
    }
}

impl Record {
    /// The model of this record tree.
    pub open spec fn deep(self) -> RecordV
        decreases self,
    {
        match self {
            Record::Bool(b) => RecordV::Bool(b),
            Record::UInt(n) => RecordV::UInt(n),
            Record::SInt(n) => RecordV::SInt(n),
            Record::Str(s) => RecordV::Str(s@),
            Record::Tuple(v) => RecordV::Tuple(deep_items(v@)),
            Record::NamedStruct(n, v) => RecordV::NamedStruct(n@, deep_items(v@)),
            Record::Array(v) => RecordV::Array(deep_items(v@)),
        }
    }
}

impl View for Record {
    type V = RecordV;

    open spec fn view(&self) -> RecordV {
        self.deep()
    }
}

/// The character for one decimal digit value.
pub open spec fn spec_digit(d: nat) -> char {
    if d == 0 {
        '0'
    } else if d == 1 {
        '1'
    } else if d == 2 {
        '2'
    } else if d == 3 {
        '3'
    } else if d == 4 {
        '4'
    } else if d == 5 {
        '5'
    } else if d == 6 {
        '6'
    } else if d == 7 {
        '7'
    } else if d == 8 {
        '8'
    } else {
        '9'
    }
}

/// The decimal rendering of a natural number, most significant digit first.
pub open spec fn spec_decimal(n: nat) -> Seq<char>
    decreases n,
{
    if n < 10 {
        seq![spec_digit(n)]
    } else {
        spec_decimal(n / 10).push(spec_digit(n % 10))
    }
}

/// The uniform text rendering of a record model.
pub open spec fn render_v(r: RecordV) -> Seq<char>
    decreases r,
{
    match r {
        RecordV::Bool(b) => if b {
            "true"@
        } else {
            "false"@
        },
        RecordV::UInt(n) => spec_decimal(n as nat),
        RecordV::SInt(n) => if n >= 0 {
            spec_decimal(n as nat)
        } else {
            seq!['-'] + spec_decimal((-(n as int)) as nat)
        },
        RecordV::Str(s) => seq!['"'] + s + seq!['"'],
        RecordV::Tuple(items) => seq!['('] + render_items(items) + seq![')'],
        RecordV::NamedStruct(name, items) => name + seq!['{'] + render_items(items) + seq!['}'],
        RecordV::Array(items) => seq!['['] + render_items(items) + seq![']'],
    }
}

/// The renderings of a record sequence, separated by commas.
pub open spec fn render_items(s: Seq<RecordV>) -> Seq<char>
    decreases s,
{
    if s.len() == 0 {
        Seq::empty()
    } else if s.len() == 1 {
        render_v(s[0])
    } else {
        render_v(s[0]) + ", "@ + render_items(s.subrange(1, s.len() as int))
    }
}

fn digit_char(d: u128) -> (c: char)
    requires
        d < 10,
    ensures
        c == spec_digit(d as nat),
{
    if d == 0 {
        '0'
    } else if d == 1 {
        '1'
    } else if d == 2 {
        '2'
    } else if d == 3 {
        '3'
    } else if d == 4 {
        '4'
    } else if d == 5 {
        '5'
    } else if d == 6 {
        '6'
    } else if d == 7 {
        '7'
    } else if d == 8 {
        '8'
    } else {
        '9'
    }
}

/// Append the decimal rendering of `n` to `out`.
pub fn append_decimal(out: &mut String, n: u128)
    ensures
        final(out)@ == old(out)@ + spec_decimal(n as nat),
    decreases n,
{
    if n < 10 {
        push_char_onto(out, digit_char(n));
        proof {
            assert(old(out)@ + spec_decimal(n as nat) =~= old(out)@.push(spec_digit(n as nat)));
        }
    } else {
        append_decimal(out, n / 10);
        push_char_onto(out, digit_char(n % 10));
        proof {
            assert(old(out)@ + spec_decimal(n as nat) =~= (old(out)@ + spec_decimal(
                n as nat / 10,
            )).push(spec_digit(n as nat % 10)));
        }
    }
}

/// Append the uniform text rendering of `r` to `out`.
pub fn append_record(out: &mut String, r: &Record)
    ensures
        final(out)@ == old(out)@ + render_v(r.deep()),
    decreases *r, 0int,
{
    match r {
        Record::Bool(b) => {
            if *b {
                push_str_onto(out, "true");
            } else {
                push_str_onto(out, "false");
            }
        },
        Record::UInt(n) => {
            append_decimal(out, *n);
        },
        Record::SInt(n) => {
            if *n >= 0 {
                append_decimal(out, *n as u128);
            } else {
                push_char_onto(out, '-');
                // The magnitude of `n`; stepping through `n + 1` avoids
                // overflow at the smallest representable value.
                let m: u128 = ((-(*n + 1)) as u128) + 1;
                append_decimal(out, m);
                proof {
                    assert(old(out)@ + render_v(r.deep()) =~= old(out)@.push('-') + spec_decimal(
                        (-(*n as int)) as nat,
                    ));
                }
            }
        },
        Record::Str(s) => {
            push_char_onto(out, '"');
            push_str_onto(out, s.as_str());
            push_char_onto(out, '"');
            proof {
                assert(old(out)@ + render_v(r.deep()) =~= (old(out)@.push('"') + s@).push('"'));
            }
        },
        Record::Tuple(v) => {
            push_char_onto(out, '(');
            append_record_items(out, v, 0);
            push_char_onto(out, ')');
            proof {
                lemma_deep_items(v@);
                assert(deep_items(v@).subrange(0, v@.len() as int) =~= deep_items(v@));
                assert(old(out)@ + render_v(r.deep()) =~= (old(out)@.push('(') + render_items(
                    deep_items(v@),
                )).push(')'));
            }
        },
        Record::NamedStruct(name, v) => {
            push_str_onto(out, name.as_str());
            push_char_onto(out, '{');
            append_record_items(out, v, 0);
            push_char_onto(out, '}');
            proof {
                lemma_deep_items(v@);
                assert(deep_items(v@).subrange(0, v@.len() as int) =~= deep_items(v@));
                assert(old(out)@ + render_v(r.deep()) =~= ((old(out)@ + name@).push('{')
                    + render_items(deep_items(v@))).push('}'));
            }
        },
        Record::Array(v) => {
            push_char_onto(out, '[');
            append_record_items(out, v, 0);
            push_char_onto(out, ']');
            proof {
                lemma_deep_items(v@);
                assert(deep_items(v@).subrange(0, v@.len() as int) =~= deep_items(v@));
                assert(old(out)@ + render_v(r.deep()) =~= (old(out)@.push('[') + render_items(
                    deep_items(v@),
                )).push(']'));
            }
        },
    }
}

/// Append the renderings of the records from index `from` on, separated by
/// commas.
fn append_record_items(out: &mut String, v: &Vec<Record>, from: usize)
    requires
        from <= v@.len(),
    ensures
        final(out)@ == old(out)@ + render_items(deep_items(v@).subrange(from as int, v@.len() as int)),
    decreases *v, (v@.len() - from),
{
    let ghost tail = deep_items(v@).subrange(from as int, v@.len() as int);
    proof {
        lemma_deep_items(v@);
    }
    if from < v.len() {
        append_record(out, &v[from]);
        proof {
            assert(tail[0] == v@[from as int].deep());
        }
        if from + 1 < v.len() {
            push_str_onto(out, ", ");
        }
        append_record_items(out, v, from + 1);
        proof {
            assert(deep_items(v@).subrange(from as int + 1, v@.len() as int) =~= tail.subrange(
                1,
                tail.len() as int,
            ));
            if from + 1 < v.len() {
                assert(old(out)@ + render_items(tail) =~= old(out)@ + render_v(tail[0]) + ", "@
                    + render_items(tail.subrange(1, tail.len() as int)));
            } else {
                assert(render_items(tail) =~= render_v(tail[0]));
            }
        }
    } else {
        proof {
            assert(tail =~= Seq::<RecordV>::empty());
            assert(old(out)@ + render_items(tail) =~= old(out)@);
        }
    }
}

impl Record {
    /// The uniform text rendering of this record.
    pub fn render(&self) -> (r: String)
        ensures
            r@ == render_v(self.deep()),
    {
        let mut out = String::new();
        append_record(&mut out, self);
        proof {
            assert(Seq::<char>::empty() + render_v(self.deep()) =~= render_v(self.deep()));
        }
        out
    }
}

} // verus!
