//! From a declaration to the descriptor of a record.

use crate::declaration::{
    field_views, Data, DataView, Declaration, DeclarationView, Field, FieldView, Fields,
    FieldsView,
};
use crate::descriptor::{
    classified, classified_all, classify_field, descriptor_views, is_supported, FieldDescriptor,
    FieldDescriptorView,
};
use crate::error::{GenError, GenErrorView};
use crate::scan::{first_true, lemma_first_true_is, lemma_first_true_none};
use vstd::prelude::*;

verus! {

/// A record: its name and the descriptors of its fields, in the order of the declaration.
#[derive(Debug, PartialEq, Eq)]
pub struct RecordDescriptor {
    pub name: String,
    pub fields: Vec<FieldDescriptor>,
}

/// The mathematical value of a [`RecordDescriptor`].
pub struct RecordDescriptorView {
    pub name: Seq<char>,
    pub fields: Seq<FieldDescriptorView>,
}

impl View for RecordDescriptor {
    type V = RecordDescriptorView;

    open spec fn view(&self) -> RecordDescriptorView {
        RecordDescriptorView {
            name: self.name@,
            fields: descriptor_views(self.fields@),
        }
    }
}

impl RecordDescriptorView {
    /// Every field's descriptor is well formed.
    pub open spec fn wf(self) -> bool {
        forall|i: int| 0 <= i < self.fields.len() ==> (#[trigger] self.fields[i]).wf()
    }
}

/// The named fields of a declaration, where it is a struct that has them, else the error
/// that names its shape.
pub open spec fn shape_of(data: DataView) -> Result<Seq<FieldView>, GenErrorView> {
    match data {
        DataView::Struct { fields } => match fields {
            FieldsView::Named { named } => Ok(named),
            FieldsView::Unnamed => Err(GenErrorView::UnnamedFields),
            FieldsView::Unit => Err(GenErrorView::UnitStruct),
        },
        DataView::Enum => Err(GenErrorView::Enum),
        DataView::Union => Err(GenErrorView::Union),
    }
}

/// For each field, whether its type is one that the generator does not support.
pub open spec fn unsupported_flags(fields: Seq<FieldView>) -> Seq<bool> {
    Seq::new(fields.len(), |i: int| !is_supported(fields[i].ty))
}

/// The descriptor of the record that `input` declares: its name, and its fields classified
/// in order. Where the shape is not supported, the error of the shape; else, where a field's
/// type is not supported, the error of the first such field.
pub open spec fn described(input: DeclarationView) -> Result<RecordDescriptorView, GenErrorView> {
    match shape_of(input.data) {
        Err(e) => Err(e),
        Ok(fields) => match first_true(unsupported_flags(fields)) {
            Some(k) => Err(GenErrorView::UnsupportedFieldType { index: k, name: fields[k].ident }),
            None => Ok(RecordDescriptorView { name: input.ident, fields: classified_all(fields) }),
        },
    }
}

/// Reads the shape of a declaration: its named fields, or the error that names its shape.
pub fn named_fields(input: &Declaration) -> (r: Result<&Vec<Field>, GenError>)
    ensures
        match r {
            Ok(fields) => shape_of(input@.data) == Ok::<Seq<FieldView>, GenErrorView>(
                field_views(fields@),
            ),
            Err(e) => shape_of(input@.data) == Err::<Seq<FieldView>, GenErrorView>(e@),
        },
{
    match &input.data {
        Data::Struct { fields } => match fields {
            Fields::Named { named } => Ok(named),
            Fields::Unnamed => Err(GenError::UnnamedFields),
            Fields::Unit => Err(GenError::UnitStruct),
        },
        Data::Enum => Err(GenError::Enum),
        Data::Union => Err(GenError::Union),
    }
}

/// Describes the record that `input` declares.
pub fn describe(input: &Declaration) -> (r: Result<RecordDescriptor, GenError>)
    ensures
        match r {
            Ok(record) => described(input@) == Ok::<RecordDescriptorView, GenErrorView>(record@)
                && record@.wf(),
            Err(e) => described(input@) == Err::<RecordDescriptorView, GenErrorView>(e@),
        },
{
    let fields = match named_fields(input) {
        Ok(fields) => fields,
        Err(e) => {
            return Err(e);
        },
    };
    let ghost views = field_views(fields@);
    let mut descriptors: Vec<FieldDescriptor> = Vec::new();
    let mut i: usize = 0;
    while i < fields.len()
        invariant
            0 <= i <= fields.len(),
            views == field_views(fields@),
            shape_of(input@.data) == Ok::<Seq<FieldView>, GenErrorView>(views),
            descriptors.len() == i,
            forall|j: int| 0 <= j < i ==> is_supported(#[trigger] views[j].ty),
            forall|j: int| 0 <= j < i ==> (#[trigger] descriptors[j])@ == classified(views[j]),
            forall|j: int| 0 <= j < i ==> (#[trigger] descriptors[j])@.wf(),
        decreases fields.len() - i,
    {
        match classify_field(&fields[i]) {
            Some(descriptor) => {
                descriptors.push(descriptor);
            },
            None => {
                proof {
                    lemma_first_true_is(unsupported_flags(views), i as int);
                }
                return Err(
                    GenError::UnsupportedFieldType { index: i, name: fields[i].ident.clone() },
                );
            },
        }
        i = i + 1;
    }
    let record = RecordDescriptor { name: input.ident.clone(), fields: descriptors };
    proof {
        lemma_first_true_none(unsupported_flags(views));
        assert(record@.fields =~= classified_all(views));
    }
    Ok(record)
}

} // verus!
