//! Field records: the value representation for props and state.
//!
//! The framework's code generator turns a declarative field list into the
//! concrete props and state values of a component. Here that schema is an
//! explicit record of typed fields with structural equality, so the
//! per-field compare, clone and swap behaviour of the lifecycle contract is
//! ordinary verified code. A record with zero fields is the degenerate "no
//! props" / "no state" case that the dirty-tracking contract must still
//! handle.

use crate::component::BuilderCreator;
use crate::component::BuilderFinisher;
use vstd::prelude::*;

verus! {

/// The value of one declared field of a props or state struct.
pub enum FieldValue {
    /// An integer field.
    Int(i64),
    /// A boolean field.
    Flag(bool),
    /// A text field.
    Text(String),
}

/// The mathematical value of one field, used by contracts.
pub enum FieldSpec {
    /// An integer field.
    Int(int),
    /// A boolean field.
    Flag(bool),
    /// A text field.
    Text(Seq<char>),
}

impl View for FieldValue {
    type V = FieldSpec;

    open spec fn view(&self) -> FieldSpec {
        match self {
            FieldValue::Int(i) => FieldSpec::Int(*i as int),
            FieldValue::Flag(b) => FieldSpec::Flag(*b),
            FieldValue::Text(s) => FieldSpec::Text(s@),
        }
    }
}

/// A props or state value: the declared fields, in declaration order.
/// Structural equality over the fields is what `update` and `refresh_state`
/// compare.
pub struct Record {
    fields: Vec<FieldValue>,
}

impl View for Record {
    type V = Seq<FieldSpec>;

    closed spec fn view(&self) -> Seq<FieldSpec> {
        Seq::new(self.fields@.len(), |i: int| self.fields@[i]@)
    }
}

impl Record {
    /// A record with no fields: the "no props" / "no state" value of a
    /// component that declares none.
    pub fn empty() -> (r: Record)
        ensures
            r@ == Seq::<FieldSpec>::empty(),
    {
        let r = Record { fields: Vec::new() };
        proof {
            assert(r@ =~= Seq::<FieldSpec>::empty());
        }
        r
    }

    /// A record made of the given fields, in order.
    pub fn from_fields(fields: Vec<FieldValue>) -> (r: Record)
        ensures
            r@.len() == fields@.len(),
            forall|i: int| 0 <= i < fields@.len() ==> r@[i] == fields@[i]@,
    {
        Record { fields }
    }

    /// The number of declared fields.
    pub fn len(&self) -> (n: usize)
        ensures
            n == self@.len(),
    {
        self.fields.len()
    }

    /// The field at the given position.
    pub fn field_at(&self, i: usize) -> (r: &FieldValue)
        requires
            i < self@.len(),
        ensures
            r@ == self@[i as int],
    {
        &self.fields[i]
    }
}

/// Structural equality of two fields: same kind and same value.
pub fn field_eq(a: &FieldValue, b: &FieldValue) -> (r: bool)
    ensures
        r == (a@ == b@),
{
    match (a, b) {
        (FieldValue::Int(x), FieldValue::Int(y)) => *x == *y,
        (FieldValue::Flag(x), FieldValue::Flag(y)) => *x == *y,
        (FieldValue::Text(x), FieldValue::Text(y)) => *x == *y,
        _ => false,
    }
}

/// An exact copy of a field, indistinguishable from the original.
pub fn clone_field(a: &FieldValue) -> (r: FieldValue)
    ensures
        r == *a,
{
    match a {
        FieldValue::Int(i) => FieldValue::Int(*i),
        FieldValue::Flag(b) => FieldValue::Flag(*b),
        FieldValue::Text(s) => FieldValue::Text(s.clone()),
    }
}

/// Structural equality of two records: the same fields in the same order.
/// This is the comparison `update` and `refresh_state` are built on.
pub fn record_eq(a: &Record, b: &Record) -> (r: bool)
    ensures
        r == (a@ == b@),
{
    if a.fields.len() != b.fields.len() {
        return false;
    }
    let n = a.fields.len();
    let mut i: usize = 0;
    while i < n
        invariant
            n == a@.len(),
            n == b@.len(),
            i <= n,
            forall|j: int| 0 <= j < i ==> a@[j] == b@[j],
        decreases n - i,
    {
        if !field_eq(&a.fields[i], &b.fields[i]) {
            assert(a@[i as int] != b@[i as int]);
            return false;
        }
        i += 1;
    }
    proof {
        assert(a@ =~= b@);
    }
    true
}

/// Builds a record field by field, in declaration order. This is the
/// explicit builder over the field schema through which props and state
/// values are assembled.
pub struct RecordBuilder {
    fields: Vec<FieldValue>,
}

impl View for RecordBuilder {
    type V = Seq<FieldSpec>;

    closed spec fn view(&self) -> Seq<FieldSpec> {
        Seq::new(self.fields@.len(), |i: int| self.fields@[i]@)
    }
}

impl RecordBuilder {
    /// Starts with no fields.
    pub fn new() -> (b: RecordBuilder)
        ensures
            b@ == Seq::<FieldSpec>::empty(),
    {
        let b = RecordBuilder { fields: Vec::new() };
        proof {
            assert(b@ =~= Seq::<FieldSpec>::empty());
        }
        b
    }

    /// Appends an integer field.
    pub fn int_field(self, v: i64) -> (b: RecordBuilder)
        ensures
            b@ == self@.push(FieldSpec::Int(v as int)),
    {
        let ghost expected = self@.push(FieldSpec::Int(v as int));
        let mut fields = self.fields;
        fields.push(FieldValue::Int(v));
        let b = RecordBuilder { fields };
        proof {
            assert(b@ =~= expected);
        }
        b
    }

    /// Appends a boolean field.
    pub fn flag_field(self, v: bool) -> (b: RecordBuilder)
        ensures
            b@ == self@.push(FieldSpec::Flag(v)),
    {
        let ghost expected = self@.push(FieldSpec::Flag(v));
        let mut fields = self.fields;
        fields.push(FieldValue::Flag(v));
        let b = RecordBuilder { fields };
        proof {
            assert(b@ =~= expected);
        }
        b
    }

    /// Appends a text field.
    pub fn text_field(self, v: String) -> (b: RecordBuilder)
        ensures
            b@ == self@.push(FieldSpec::Text(v@)),
    {
        let ghost expected = self@.push(FieldSpec::Text(v@));
        let mut fields = self.fields;
        fields.push(FieldValue::Text(v));
        let b = RecordBuilder { fields };
        proof {
            assert(b@ =~= expected);
        }
        b
    }
}

impl BuilderCreator for Record {
    type Builder = RecordBuilder;

    fn builder() -> (b: RecordBuilder)
        ensures
            b@ == Seq::<FieldSpec>::empty(),
    {
        RecordBuilder::new()
    }
}

impl BuilderFinisher for RecordBuilder {
    type Built = Record;

    fn finish(self) -> (r: Record)
        ensures
            r@ == self@,
    {
        let ghost expected = self@;
        let r = Record { fields: self.fields };
        proof {
            assert(r@ =~= expected);
        }
        r
    }
}

/// An exact copy of a record, field by field.
pub fn clone_record(a: &Record) -> (r: Record)
    ensures
        r@ == a@,
{
    let n = a.fields.len();
    let mut fields: Vec<FieldValue> = Vec::new();
    let mut i: usize = 0;
    while i < n
        invariant
            n == a@.len(),
            i <= n,
            fields@.len() == i,
            forall|j: int| 0 <= j < i ==> fields@[j]@ == a@[j],
        decreases n - i,
    {
        fields.push(clone_field(&a.fields[i]));
        i += 1;
    }
    let r = Record { fields };
    proof {
        assert(r@ =~= a@);
    }
    r
}

} // verus!
