//! The duck-typed host representation, modelled as plain data.
//!
//! A host value is what the dynamically-typed caller hands over or receives
//! back: a primitive, a complex number, a sequence, a string-keyed mapping,
//! or an object seen as the ordered list of its attributes. Each host
//! primitive is carried by exactly one variant, so the primitive tests of
//! the converter are disjoint; floats are carried as `u64` bit patterns.

use vstd::prelude::*;
use crate::value::Complex;

verus! {

/// One host value, as the marshalling layer observes it.
#[derive(Debug, PartialEq)]
pub enum HostValue {
    /// The host's null/none value.
    Null,
    Bool(bool),
    Int(i64),
    /// A 64-bit float, as its bit pattern.
    Float(u64),
    Str(String),
    /// A host complex number, both parts as bit patterns.
    Complex(Complex),
    /// An ordered host sequence (a list).
    List(Vec<HostValue>),
    /// An ordered host sequence of fixed arity (a tuple).
    Tuple(Vec<HostValue>),
    /// A string-keyed host mapping, in insertion order.
    Dict(Vec<(String, HostValue)>),
    /// A host object: its attributes, each a name and a value.
    Obj(Vec<(String, HostValue)>),
}

/// The mathematical model of a host value.
pub ghost enum HostView {
    Null,
    Bool(bool),
    Int(i64),
    Float(u64),
    Str(Seq<char>),
    Complex(Complex),
    List(Seq<HostView>),
    Tuple(Seq<HostView>),
    Dict(Seq<(Seq<char>, HostView)>),
    Obj(Seq<(Seq<char>, HostView)>),
}

/// The model of a sequence of host values, element by element.
pub open spec fn host_seq_view(s: Seq<HostValue>) -> Seq<HostView>
    decreases s,
{
    if s.len() == 0 {
        Seq::empty()
    } else {
        seq![host_value_view(s[0])] + host_seq_view(s.drop_first())
    }
}

/// The model of a string-keyed sequence of host values.
pub open spec fn host_entries_view(s: Seq<(String, HostValue)>) -> Seq<(Seq<char>, HostView)>
    decreases s,
{
    if s.len() == 0 {
        Seq::empty()
    } else {
        seq![(s[0].0@, host_value_view(s[0].1))] + host_entries_view(s.drop_first())
    }
}

/// The model of one host value.
pub open spec fn host_value_view(h: HostValue) -> HostView
    decreases h,
{
    match h {
        HostValue::Null => HostView::Null,
        HostValue::Bool(b) => HostView::Bool(b),
        HostValue::Int(i) => HostView::Int(i),
        HostValue::Float(bits) => HostView::Float(bits),
        HostValue::Str(s) => HostView::Str(s@),
        HostValue::Complex(c) => HostView::Complex(c),
        HostValue::List(items) => HostView::List(host_seq_view(items@)),
        HostValue::Tuple(items) => HostView::Tuple(host_seq_view(items@)),
        HostValue::Dict(entries) => HostView::Dict(host_entries_view(entries@)),
        HostValue::Obj(attrs) => HostView::Obj(host_entries_view(attrs@)),
    }
}

impl View for HostValue {
    type V = HostView;

    open spec fn view(&self) -> HostView {
        host_value_view(*self)
    }
}

/// The first entry of the given name, in entry order; `None` if no entry
/// carries the name. This is how both attribute lookup on an object and key
/// lookup in a mapping behave.
pub open spec fn entry_of(entries: Seq<(Seq<char>, HostView)>, name: Seq<char>) -> Option<HostView>
    decreases entries,
{
    if entries.len() == 0 {
        None
    } else if entries[0].0 == name {
        Some(entries[0].1)
    } else {
        entry_of(entries.drop_first(), name)
    }
}

/// Name lookup finds the first entry carrying the name.
pub proof fn lemma_entry_of_found(
    entries: Seq<(Seq<char>, HostView)>,
    name: Seq<char>,
    i: int,
)
    requires
        0 <= i < entries.len(),
        forall|j: int| 0 <= j < i ==> !(entries[j].0 == name),
        entries[i].0 == name,
    ensures
        entry_of(entries, name) == Some(entries[i].1),
    decreases i,
{
    if i > 0 {
        lemma_entry_of_found(entries.drop_first(), name, i - 1);
    }
}

pub broadcast proof fn lemma_host_seq_view_len(s: Seq<HostValue>)
    ensures
        #[trigger] host_seq_view(s).len() == s.len(),
    decreases s,
{
    if s.len() > 0 {
        lemma_host_seq_view_len(s.drop_first());
    }
}

pub broadcast proof fn lemma_host_seq_view_index(s: Seq<HostValue>, i: int)
    requires
        0 <= i < s.len(),
    ensures
        #[trigger] host_seq_view(s)[i] == host_value_view(s[i]),
    decreases s,
{
    lemma_host_seq_view_len(s);
    if i > 0 {
        lemma_host_seq_view_index(s.drop_first(), i - 1);
    }
}

pub broadcast proof fn lemma_host_entries_view_len(s: Seq<(String, HostValue)>)
    ensures
        #[trigger] host_entries_view(s).len() == s.len(),
    decreases s,
{
    if s.len() > 0 {
        lemma_host_entries_view_len(s.drop_first());
    }
}

pub broadcast proof fn lemma_host_entries_view_index(s: Seq<(String, HostValue)>, i: int)
    requires
        0 <= i < s.len(),
    ensures
        #[trigger] host_entries_view(s)[i] == (s[i].0@, host_value_view(s[i].1)),
    decreases s,
{
    lemma_host_entries_view_len(s);
    if i > 0 {
        lemma_host_entries_view_index(s.drop_first(), i - 1);
    }
}

} // verus!
