//! Record definitions: the unit of export.
//!
//! A record definition is a name and an ordered list of fields, each a name and
//! a semantic type. It is fixed once built: nothing adds, removes or reorders
//! fields afterwards.

use vstd::prelude::*;

verus! {

/// What a field holds, independent of any target language.
#[derive(Clone, Copy, Debug, PartialEq, Eq, Structural)]
pub enum SemanticType {
    Integer,
    Text,
}

/// A field as the contracts see it.
pub struct FieldView {
    pub name: Seq<char>,
    pub ty: SemanticType,
}

/// A record definition as the contracts see it.
pub struct RecordView {
    pub name: Seq<char>,
    pub fields: Seq<FieldView>,
}

/// One field of a record: its name and its semantic type.
#[derive(Debug, PartialEq, Eq)]
pub struct Field {
    name: String,
    ty: SemanticType,
}

impl View for Field {
    type V = FieldView;

    closed spec fn view(&self) -> FieldView {
        FieldView { name: self.name@, ty: self.ty }
    }
}

impl Clone for Field {
    fn clone(&self) -> (copy: Self)
        ensures
            copy@ == self@,
    {
        Field { name: self.name.clone(), ty: self.ty }
    }
}

impl Field {
    pub fn new(name: String, ty: SemanticType) -> (field: Field)
        ensures
            field@ == (FieldView { name: name@, ty }),
    {
        Field { name, ty }
    }

    pub fn name(&self) -> (name: &str)
        ensures
            name@ == self@.name,
    {
        self.name.as_str()
    }

    pub fn ty(&self) -> (ty: SemanticType)
        ensures
            ty == self@.ty,
    {
        self.ty
    }
}

/// The views of `fields`, in the same order.
pub open spec fn field_views(fields: Seq<Field>) -> Seq<FieldView> {
    Seq::new(fields.len(), |i: int| fields[i]@)
}

/// A named, fixed-shape record: its fields in declared order.
#[derive(Debug, PartialEq, Eq)]
pub struct RecordDefinition {
    name: String,
    fields: Vec<Field>,
}

impl View for RecordDefinition {
    type V = RecordView;

    closed spec fn view(&self) -> RecordView {
        RecordView { name: self.name@, fields: field_views(self.fields@) }
    }
}

impl Clone for RecordDefinition {
    fn clone(&self) -> (copy: Self)
        ensures
            copy@ == self@,
    {
        let mut fields: Vec<Field> = Vec::new();
        let mut i: usize = 0;
        while i < self.fields.len()
            invariant
                i <= self.fields.len(),
                fields@.len() == i,
                forall|j: int| 0 <= j < i ==> fields@[j]@ == self.fields@[j]@,
            decreases self.fields.len() - i,
        {
            fields.push(self.fields[i].clone());
            i = i + 1;
        }
        assert(field_views(fields@) =~= field_views(self.fields@));
        RecordDefinition { name: self.name.clone(), fields }
    }
}

impl RecordDefinition {
    pub fn new(name: String, fields: Vec<Field>) -> (record: RecordDefinition)
        ensures
            record@ == (RecordView { name: name@, fields: field_views(fields@) }),
    {
        RecordDefinition { name, fields }
    }

    pub fn name(&self) -> (name: &str)
        ensures
            name@ == self@.name,
    {
        self.name.as_str()
    }

    /// The number of fields.
    pub fn len(&self) -> (len: usize)
        ensures
            len == self@.fields.len(),
    {
        self.fields.len()
    }

    /// The field at position `index` of the declared order, if there is one.
    pub fn field(&self, index: usize) -> (field: Option<&Field>)
        ensures
            index < self@.fields.len() ==> field is Some
                && field.unwrap()@ == self@.fields[index as int],
            index >= self@.fields.len() ==> field is None,
    {
        if index < self.fields.len() {
            Some(&self.fields[index])
        } else {
            None
        }
    }
}

/// The views of `records`, in the same order.
pub open spec fn record_views(records: Seq<RecordDefinition>) -> Seq<RecordView> {
    Seq::new(records.len(), |i: int| records[i]@)
}

/// Whether no two of `records` share a name.
pub open spec fn distinct_names(records: Seq<RecordView>) -> bool {
    forall|i: int, j: int|
        0 <= i < j < records.len() ==> (#[trigger] records[i]).name != (#[trigger] records[j]).name
}

} // verus!
