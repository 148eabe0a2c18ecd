//! Generator of builder types for record declarations.
//!
//! Given the declaration of a struct with named fields, [`derive`] writes the source text of
//! a companion builder: a type with one optional slot for each field, a factory on the
//! record that returns an empty builder, a setter for each field, and a build operation that
//! checks the required fields and puts the record together.
//!
//! The work is done in four steps, each a function of the step before:
//!
//! - [`record::named_fields`] reads the shape of the [`declaration`] and refuses what is no
//!   struct with named fields;
//! - [`descriptor::classify_field`] finds for each field whether it is optional and which
//!   type the builder stores for it, by the spelling of its type alone;
//! - [`structure::gen_builder_struct`] writes the builder type;
//! - [`behavior::gen_buildee_impl`] and [`behavior::gen_builder_impl`] write the factory,
//!   the setters and the build operation.
//!
//! [`instance`] states what a builder does once it runs, and [`laws`] what follows for
//! every record and every order of calls.

use crate::behavior::{buildee_impl_text, builder_impl_text, gen_buildee_impl, gen_builder_impl};
use crate::declaration::{Declaration, DeclarationView};
use crate::error::{GenError, GenErrorView};
use crate::record::{describe, described, RecordDescriptor, RecordDescriptorView};
use crate::structure::{builder_struct_text, gen_builder_struct};
use vstd::prelude::*;

pub mod behavior;
pub mod declaration;
pub mod descriptor;
pub mod error;
pub mod instance;
pub mod laws;
pub mod record;
pub mod scan;
pub mod structure;
pub mod text;
pub mod types;

verus! {

/// The name of the builder type of the record `name`.
pub open spec fn builder_name(name: Seq<char>) -> Seq<char> {
    name + "Builder"@
}

/// The generated source text for a record: the declaration of the builder type, the
/// factory on the record, and the operations on the builder, one per line.
pub open spec fn generated_text(record: RecordDescriptorView) -> Seq<char> {
    builder_struct_text(builder_name(record.name), record.fields) + "\n"@ + buildee_impl_text(
        record.name,
        builder_name(record.name),
        record.fields,
    ) + "\n"@ + builder_impl_text(record.name, builder_name(record.name), record.fields)
}

/// What the generator gives for a declaration: the generated source text of the record it
/// declares, or the error that says why it declares none that is supported.
pub open spec fn derived(input: DeclarationView) -> Result<Seq<char>, GenErrorView> {
    match described(input) {
        Ok(record) => Ok(generated_text(record)),
        Err(e) => Err(e),
    }
}

/// Writes the source text of the builder for a record.
pub fn generate(record: &RecordDescriptor) -> (out: String)
    ensures
        out@ == generated_text(record@),
{
    let mut builder_ident = record.name.clone();
    builder_ident.append("Builder");
    let builder_struct = gen_builder_struct(builder_ident.as_str(), record.fields.as_slice());
    let buildee_impl = gen_buildee_impl(
        record.name.as_str(),
        builder_ident.as_str(),
        record.fields.as_slice(),
    );
    let builder_impl = gen_builder_impl(
        record.name.as_str(),
        builder_ident.as_str(),
        record.fields.as_slice(),
    );
    let mut out = builder_struct;
    out.append("\n");
    out.append(buildee_impl.as_str());
    out.append("\n");
    out.append(builder_impl.as_str());
    out
}

/// Generates the builder for a declaration: parses its shape, classifies its fields, and
/// writes the builder type, the factory and the builder's operations.
pub fn derive(input: &Declaration) -> (r: Result<String, GenError>)
    ensures
        match r {
            Ok(text) => derived(input@) == Ok::<Seq<char>, GenErrorView>(text@),
            Err(e) => derived(input@) == Err::<Seq<char>, GenErrorView>(e@),
        },
{
    match describe(input) {
        Ok(record) => Ok(generate(&record)),
        Err(e) => Err(e),
    }
}

} // verus!
