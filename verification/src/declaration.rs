//! A declaration handed to the generator: its name, its shape and its fields.

use crate::types::{TypeSyntax, TypeView};
use vstd::prelude::*;

verus! {

/// The form of an attribute's content.
#[derive(Debug, Clone, Copy, PartialEq, Eq, Structural)]
pub enum Meta {
    /// A bare path: `#[name]`.
    Path,
    /// A path with a bracketed list: `#[name(..)]`.
    List,
    /// A path with a value: `#[name = value]`.
    NameValue,
}

/// An attribute attached to a field.
#[derive(Debug, PartialEq, Eq)]
pub struct Attribute {
    /// The attribute's path as written.
    pub path: String,
    pub meta: Meta,
}

/// A named field of a record.
#[derive(Debug, PartialEq, Eq)]
pub struct Field {
    pub attrs: Vec<Attribute>,
    pub ident: String,
    pub ty: TypeSyntax,
}

/// The fields of a struct.
#[derive(Debug, PartialEq, Eq)]
pub enum Fields {
    /// Fields with names, in braces.
    Named { named: Vec<Field> },
    /// Fields without names, in round brackets.
    Unnamed,
    /// No field list at all.
    Unit,
}

/// What kind of item a declaration is, with the fields of a struct.
#[derive(Debug, PartialEq, Eq)]
pub enum Data {
    Struct { fields: Fields },
    Enum,
    Union,
}

/// A declaration: the name of the declared type and what it declares.
#[derive(Debug, PartialEq, Eq)]
pub struct Declaration {
    pub ident: String,
    pub data: Data,
}

/// The mathematical value of an [`Attribute`].
pub struct AttributeView {
    pub path: Seq<char>,
    pub meta: Meta,
}

/// The mathematical value of a [`Field`].
pub struct FieldView {
    pub attrs: Seq<AttributeView>,
    pub ident: Seq<char>,
    pub ty: TypeView,
}

/// The mathematical value of a [`Fields`].
pub enum FieldsView {
    Named { named: Seq<FieldView> },
    Unnamed,
    Unit,
}

/// The mathematical value of a [`Data`].
pub enum DataView {
    Struct { fields: FieldsView },
    Enum,
    Union,
}

/// The mathematical value of a [`Declaration`].
pub struct DeclarationView {
    pub ident: Seq<char>,
    pub data: DataView,
}

/// The mathematical values of attributes, in order.
pub open spec fn attribute_views(attrs: Seq<Attribute>) -> Seq<AttributeView> {
    attrs.map_values(|a: Attribute| a@)
}

/// The mathematical values of fields, in order.
pub open spec fn field_views(fields: Seq<Field>) -> Seq<FieldView> {
    fields.map_values(|f: Field| f@)
}

impl View for Attribute {
    type V = AttributeView;

    open spec fn view(&self) -> AttributeView {
        AttributeView { path: self.path@, meta: self.meta }
    }
}

impl View for Field {
    type V = FieldView;

    open spec fn view(&self) -> FieldView {
        FieldView {
            attrs: attribute_views(self.attrs@),
            ident: self.ident@,
            ty: self.ty@,
        }
    }
}

impl View for Fields {
    type V = FieldsView;

    open spec fn view(&self) -> FieldsView {
        match self {
            Fields::Named { named } => FieldsView::Named { named: field_views(named@) },
            Fields::Unnamed => FieldsView::Unnamed,
            Fields::Unit => FieldsView::Unit,
        }
    }
}

impl View for Data {
    type V = DataView;

    open spec fn view(&self) -> DataView {
        match self {
            Data::Struct { fields } => DataView::Struct { fields: fields@ },
            Data::Enum => DataView::Enum,
            Data::Union => DataView::Union,
        }
    }
}

impl View for Declaration {
    type V = DeclarationView;

    open spec fn view(&self) -> DeclarationView {
        DeclarationView { ident: self.ident@, data: self.data@ }
    }
}

} // verus!
