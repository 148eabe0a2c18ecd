//! Field descriptors: how each field of a record is classified.

use crate::declaration::{Attribute, AttributeView, Field, FieldView, Meta};
use crate::types::{
    ArgumentView, ArgumentsView, GenericArgument, PathArguments, SegmentView, TypeSyntax, TypeView,
};
use vstd::prelude::*;

verus! {

/// The type inside the optional wrapper, where `t` is spelled as a path of the one segment
/// `Option` with exactly one argument in angle brackets, a type. Which definition the name
/// `Option` resolves to plays no part.
pub open spec fn option_inner(t: TypeView) -> Option<TypeView> {
    match t {
        TypeView::Path { leading_colon, segments } => {
            if segments.len() == 1 && segments[0].ident == "Option"@ {
                match segments[0].arguments {
                    ArgumentsView::AngleBracketed { args } => {
                        if args.len() == 1 {
                            match args[0] {
                                ArgumentView::Type { ty } => Some(ty),
                                ArgumentView::Other { text } => None,
                            }
                        } else {
                            None
                        }
                    },
                    _ => None,
                }
            } else {
                None
            }
        },
        TypeView::Other { text } => None,
    }
}

/// The type inside the optional wrapper, if `ty` is spelled as one.
pub fn option_argument(ty: &TypeSyntax) -> (r: Option<&TypeSyntax>)
    ensures
        match r {
            Some(inner) => option_inner(ty@) == Some(inner@),
            None => option_inner(ty@) is None,
        },
{
    match ty {
        TypeSyntax::Path { leading_colon: _, segments } => {
            if segments.len() != 1 {
                return None;
            }
            let wrapper = String::from_str("Option");
            if segments[0].ident != wrapper {
                return None;
            }
            match &segments[0].arguments {
                PathArguments::AngleBracketed { args } => {
                    if args.len() != 1 {
                        return None;
                    }
                    match &args[0] {
                        GenericArgument::Type { ty: inner } => Some(inner),
                        GenericArgument::Other { text: _ } => None,
                    }
                },
                _ => None,
            }
        },
        TypeSyntax::Other { text: _ } => None,
    }
}

/// The type spelled `Option<inner>`, or `::Option<inner>` with a leading colon.
pub open spec fn option_spelling(leading_colon: bool, inner: TypeView) -> TypeView {
    TypeView::Path {
        leading_colon,
        segments: seq![
            SegmentView {
                ident: "Option"@,
                arguments: ArgumentsView::AngleBracketed {
                    args: seq![ArgumentView::Type { ty: inner }],
                },
            },
        ],
    }
}

/// The optional wrapper around `inner`, spelled `Option<inner>`.
pub open spec fn option_of(inner: TypeView) -> TypeView {
    option_spelling(false, inner)
}

/// Whether a field may have the type: it is a named path of at least one segment.
pub open spec fn is_supported(t: TypeView) -> bool {
    t is Path && t->Path_segments.len() >= 1
}

/// The type that the builder stores for a field declared with type `t`: the type inside
/// the optional wrapper, or `t` itself where it is not spelled as one.
pub open spec fn effective_type(t: TypeView) -> TypeView {
    match option_inner(t) {
        Some(inner) => inner,
        None => t,
    }
}

/// Whether an attribute is the configuration attribute of a field: its path is `builder`
/// and it carries a value.
pub open spec fn is_config_attribute(a: AttributeView) -> bool {
    a.path == "builder"@ && a.meta == Meta::NameValue
}

/// What the generator knows of one field.
#[derive(Debug, PartialEq, Eq)]
pub struct FieldDescriptor {
    /// The field's identifier.
    pub name: String,
    /// The type as the declaration spells it.
    pub declared_type: TypeSyntax,
    /// The type that the builder stores.
    pub effective_type: TypeSyntax,
    /// Whether the declared type is spelled as the optional wrapper.
    pub is_optional: bool,
    /// Reserved for the name of a setter that takes one element at a time; always empty.
    pub each: Option<String>,
}

/// The mathematical value of a [`FieldDescriptor`].
pub struct FieldDescriptorView {
    pub name: Seq<char>,
    pub declared_type: TypeView,
    pub effective_type: TypeView,
    pub is_optional: bool,
    pub each: Option<Seq<char>>,
}

impl View for FieldDescriptor {
    type V = FieldDescriptorView;

    open spec fn view(&self) -> FieldDescriptorView {
        FieldDescriptorView {
            name: self.name@,
            declared_type: self.declared_type@,
            effective_type: self.effective_type@,
            is_optional: self.is_optional,
            each: match self.each {
                Some(name) => Some(name@),
                None => None,
            },
        }
    }
}

/// The mathematical values of descriptors, in order.
pub open spec fn descriptor_views(fields: Seq<FieldDescriptor>) -> Seq<FieldDescriptorView> {
    fields.map_values(|d: FieldDescriptor| d@)
}

impl FieldDescriptorView {
    /// The parts of a descriptor agree: the declared type is supported, the field is
    /// optional exactly if the declared type is spelled as the optional wrapper, the
    /// effective type follows from the declared one, and `each` is empty.
    pub open spec fn wf(self) -> bool {
        &&& is_supported(self.declared_type)
        &&& self.is_optional == (option_inner(self.declared_type) is Some)
        &&& self.effective_type == effective_type(self.declared_type)
        &&& self.each is None
    }
}

/// The descriptors of fields, in order.
pub open spec fn classified_all(fields: Seq<FieldView>) -> Seq<FieldDescriptorView> {
    fields.map_values(|f: FieldView| classified(f))
}

/// The descriptor of a field.
pub open spec fn classified(f: FieldView) -> FieldDescriptorView {
    FieldDescriptorView {
        name: f.ident,
        declared_type: f.ty,
        effective_type: effective_type(f.ty),
        is_optional: option_inner(f.ty) is Some,
        each: None,
    }
}

/// The index of the first configuration attribute among `attrs`, if there is one.
pub fn find_config_attribute(attrs: &Vec<Attribute>) -> (r: Option<usize>)
    ensures
        match r {
            Some(k) => {
                &&& k < attrs.len()
                &&& is_config_attribute(attrs[k as int]@)
                &&& forall|j: int| 0 <= j < k ==> !is_config_attribute(#[trigger] attrs[j]@)
            },
            None => forall|j: int|
                0 <= j < attrs.len() ==> !is_config_attribute(#[trigger] attrs[j]@),
        },
{
    let name = String::from_str("builder");
    let mut i: usize = 0;
    while i < attrs.len()
        invariant
            0 <= i <= attrs.len(),
            name@ == "builder"@,
            forall|j: int| 0 <= j < i ==> !is_config_attribute(#[trigger] attrs[j]@),
        decreases attrs.len() - i,
    {
        let is_value = match attrs[i].meta {
            Meta::NameValue => true,
            _ => false,
        };
        if is_value && attrs[i].path == name {
            return Some(i);
        }
        i = i + 1;
    }
    None
}

/// Classifies one field: `None` exactly if its type is not supported, else its descriptor.
///
/// The configuration attribute of the field is located, and its value is not applied:
/// `each` stays empty.
pub fn classify_field(field: &Field) -> (r: Option<FieldDescriptor>)
    ensures
        r is Some <==> is_supported(field@.ty),
        r matches Some(d) ==> d@ == classified(field@) && d@.wf(),
{
    let supported = match &field.ty {
        TypeSyntax::Path { leading_colon: _, segments } => segments.len() >= 1,
        TypeSyntax::Other { text: _ } => false,
    };
    if !supported {
        return None;
    }
    let (effective, is_optional) = match option_argument(&field.ty) {
        Some(inner) => (inner.duplicate(), true),
        None => (field.ty.duplicate(), false),
    };
    let _config = find_config_attribute(&field.attrs);
    Some(
        FieldDescriptor {
            name: field.ident.clone(),
            declared_type: field.ty.duplicate(),
            effective_type: effective,
            is_optional,
            each: None,
        },
    )
}

/// Classification goes by the spelling alone. A field whose type is spelled `Option<T>` is
/// optional whatever `T` is, and with or without a leading `::`; its effective type is `T`
/// itself, so exactly one layer is taken off: for `Option<Option<U>>` it is `Option<U>`.
pub proof fn lemma_option_spelling_is_optional(f: FieldView, leading_colon: bool, inner: TypeView)
    requires
        f.ty == option_spelling(leading_colon, inner),
    ensures
        option_inner(f.ty) == Some(inner),
        classified(f).is_optional,
        classified(f).effective_type == inner,
        classified(f).declared_type == f.ty,
        classified(f).wf(),
        effective_type(option_of(option_of(inner))) == option_of(inner),
{
}

/// A field is optional only by that spelling: the descriptor of a type spelled otherwise
/// is required, and stores the declared type as it is.
pub proof fn lemma_other_spelling_is_required(f: FieldView)
    requires
        forall|leading_colon: bool, inner: TypeView|
            f.ty != #[trigger] option_spelling(leading_colon, inner),
    ensures
        !classified(f).is_optional,
        classified(f).effective_type == f.ty,
{
    if option_inner(f.ty) is Some {
        let inner = option_inner(f.ty)->Some_0;
        let spelled = option_spelling(f.ty->Path_leading_colon, inner);
        assert(f.ty->Path_segments =~= spelled->Path_segments) by {
            assert(f.ty->Path_segments[0].arguments->AngleBracketed_args =~= seq![
                ArgumentView::Type { ty: inner },
            ]);
        }
        assert(f.ty == spelled);
    }
}

} // verus!
