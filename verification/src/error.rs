//! Why no builder can be generated for a declaration.

use vstd::prelude::*;

verus! {

/// A declaration that the generator does not support.
#[derive(Debug, PartialEq, Eq)]
pub enum GenError {
    /// The declaration is an enum.
    Enum,
    /// The declaration is a union.
    Union,
    /// The struct has fields without names.
    UnnamedFields,
    /// The struct has no field list.
    UnitStruct,
    /// The type of the field at `index`, named `name`, is not a named path.
    UnsupportedFieldType { index: usize, name: String },
}

/// The mathematical value of a [`GenError`].
pub enum GenErrorView {
    Enum,
    Union,
    UnnamedFields,
    UnitStruct,
    UnsupportedFieldType { index: int, name: Seq<char> },
}

impl View for GenError {
    type V = GenErrorView;

    open spec fn view(&self) -> GenErrorView {
        match self {
            GenError::Enum => GenErrorView::Enum,
            GenError::Union => GenErrorView::Union,
            GenError::UnnamedFields => GenErrorView::UnnamedFields,
            GenError::UnitStruct => GenErrorView::UnitStruct,
            GenError::UnsupportedFieldType { index, name } => GenErrorView::UnsupportedFieldType {
                index: *index as int,
                name: name@,
            },
        }
    }
}

/// The text that reports an error.
pub open spec fn error_text(e: GenErrorView) -> Seq<char> {
    match e {
        GenErrorView::Enum => "a builder can be generated for a struct only, not for an enum"@,
        GenErrorView::Union => "a builder can be generated for a struct only, not for a union"@,
        GenErrorView::UnnamedFields => "a builder can be generated only where the fields have names"@,
        GenErrorView::UnitStruct => "a builder can be generated only for a struct with a field list"@,
        GenErrorView::UnsupportedFieldType { index, name } => "the type of the field `"@ + name
            + "` is not a named path"@,
    }
}

impl GenError {
    /// The text that reports the error, naming what the generator does not support.
    pub fn message(&self) -> (out: String)
        ensures
            out@ == error_text(self@),
    {
        match self {
            GenError::Enum => String::from_str(
                "a builder can be generated for a struct only, not for an enum",
            ),
            GenError::Union => String::from_str(
                "a builder can be generated for a struct only, not for a union",
            ),
            GenError::UnnamedFields => String::from_str(
                "a builder can be generated only where the fields have names",
            ),
            GenError::UnitStruct => String::from_str(
                "a builder can be generated only for a struct with a field list",
            ),
            GenError::UnsupportedFieldType { index: _, name } => {
                let mut out = String::from_str("the type of the field `");
                out.append(name.as_str());
                out.append("` is not a named path");
                out
            },
        }
    }
}

} // verus!
