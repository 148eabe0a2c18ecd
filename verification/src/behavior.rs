//! The operations of the generated code: the factory on the record, and the setters and
//! the build operation on the builder.

use crate::descriptor::{descriptor_views, FieldDescriptor, FieldDescriptorView};
use crate::text::{join, join_strings, texts_of};
use crate::types::type_text;
use vstd::prelude::*;

verus! {

/// What a build reports when the required field `name` was not set.
pub open spec fn missing_field_message(name: Seq<char>) -> Seq<char> {
    "The field `"@ + name + "` was not setted."@
}

/// Writes what a build reports when the required field `name` was not set.
pub fn missing_field(name: &str) -> (out: String)
    ensures
        out@ == missing_field_message(name@),
{
    let mut out = String::from_str("The field `");
    out.append(name);
    out.append("` was not setted.");
    out
}

/// The empty state of the builder's slot for a field.
pub open spec fn slot_initializer(f: FieldDescriptorView) -> Seq<char> {
    f.name + ": std::option::Option::None"@
}

/// The empty states of the builder's slots, one for each field, in order.
pub open spec fn slot_initializers(fields: Seq<FieldDescriptorView>) -> Seq<Seq<char>> {
    fields.map_values(|f: FieldDescriptorView| slot_initializer(f))
}

/// The factory on the record type `buildee_ident`: an operation `builder` without
/// arguments that returns a builder `builder_ident` with every slot empty.
pub open spec fn buildee_impl_text(
    buildee_ident: Seq<char>,
    builder_ident: Seq<char>,
    fields: Seq<FieldDescriptorView>,
) -> Seq<char> {
    "impl "@ + buildee_ident + " { pub fn builder() -> "@ + builder_ident + " { "@ + builder_ident
        + " { "@ + join(slot_initializers(fields), ", "@) + " } } }"@
}

/// Writes the factory on the record type.
pub fn gen_buildee_impl(buildee_ident: &str, builder_ident: &str, fields: &[FieldDescriptor]) -> (out:
    String)
    ensures
        out@ == buildee_impl_text(buildee_ident@, builder_ident@, descriptor_views(fields@)),
{
    let ghost views = descriptor_views(fields@);
    let mut slots: Vec<String> = Vec::new();
    let mut i: usize = 0;
    while i < fields.len()
        invariant
            0 <= i <= fields.len(),
            views == descriptor_views(fields@),
            slots.len() == i,
            forall|j: int| 0 <= j < i ==> (#[trigger] slots[j])@ == slot_initializer(views[j]),
        decreases fields.len() - i,
    {
        let mut slot = fields[i].name.clone();
        slot.append(": std::option::Option::None");
        slots.push(slot);
        i = i + 1;
    }
    proof {
        assert(texts_of(slots@) =~= slot_initializers(views));
    }
    let body = join_strings(&slots, ", ");
    let mut out = String::from_str("impl ");
    out.append(buildee_ident);
    out.append(" { pub fn builder() -> ");
    out.append(builder_ident);
    out.append(" { ");
    out.append(builder_ident);
    out.append(" { ");
    out.append(body.as_str());
    out.append(" } } }");
    out
}

/// The setter of a field: named as the field, it takes a value of the field's effective
/// type, puts it in the field's slot in place of what was there, and returns the builder
/// it was called on.
pub open spec fn setter_text(f: FieldDescriptorView) -> Seq<char> {
    "fn "@ + f.name + "(&mut self, "@ + f.name + ": "@ + type_text(f.effective_type)
        + ") -> &mut Self { self."@ + f.name + " = std::option::Option::Some("@ + f.name
        + "); self }"@
}

/// The setters, one for each field, in order.
pub open spec fn setter_texts(fields: Seq<FieldDescriptorView>) -> Seq<Seq<char>> {
    fields.map_values(|f: FieldDescriptorView| setter_text(f))
}

/// What turns an empty slot of a required field into the failure of the build.
pub open spec fn required_check(name: Seq<char>) -> Seq<char> {
    ".ok_or_else(|| std::string::String::from(\""@ + missing_field_message(name) + "\"))?"@
}

/// How the build fills a field of the record: it takes what the slot holds and leaves the
/// slot empty; for a required field an empty slot ends the build with the message that
/// names the field.
pub open spec fn field_extraction(f: FieldDescriptorView) -> Seq<char> {
    f.name + ": self."@ + f.name + ".take()"@ + if f.is_optional {
        Seq::empty()
    } else {
        required_check(f.name)
    }
}

/// How the build fills each field of the record, in order.
pub open spec fn field_extractions(fields: Seq<FieldDescriptorView>) -> Seq<Seq<char>> {
    fields.map_values(|f: FieldDescriptorView| field_extraction(f))
}

/// The operations on the builder type `builder_ident`: the setters, and `build`, which
/// fills the fields of a `buildee_ident` in the order of the declaration.
pub open spec fn builder_impl_text(
    buildee_ident: Seq<char>,
    builder_ident: Seq<char>,
    fields: Seq<FieldDescriptorView>,
) -> Seq<char> {
    "impl "@ + builder_ident + " { "@ + join(setter_texts(fields), " "@)
        + " pub fn build(&mut self) -> std::result::Result<"@ + buildee_ident
        + ", std::boxed::Box<dyn std::error::Error>> { std::result::Result::Ok("@ + buildee_ident
        + " { "@ + join(field_extractions(fields), ", "@) + " }) } }"@
}

/// Writes the setter of a field.
pub fn gen_setter(field: &FieldDescriptor) -> (out: String)
    ensures
        out@ == setter_text(field@),
{
    let name = field.name.as_str();
    let ty = field.effective_type.render();
    let mut out = String::from_str("fn ");
    out.append(name);
    out.append("(&mut self, ");
    out.append(name);
    out.append(": ");
    out.append(ty.as_str());
    out.append(") -> &mut Self { self.");
    out.append(name);
    out.append(" = std::option::Option::Some(");
    out.append(name);
    out.append("); self }");
    out
}

/// Writes how the build fills a field of the record.
pub fn gen_field_extraction(field: &FieldDescriptor) -> (out: String)
    ensures
        out@ == field_extraction(field@),
{
    let name = field.name.as_str();
    let mut check = String::new();
    if !field.is_optional {
        let error_msg = missing_field(name);
        check.append(".ok_or_else(|| std::string::String::from(\"");
        check.append(error_msg.as_str());
        check.append("\"))?");
        proof {
            assert(check@ =~= required_check(field@.name));
        }
    }
    let mut out = field.name.clone();
    out.append(": self.");
    out.append(name);
    out.append(".take()");
    out.append(check.as_str());
    out
}

/// Writes the operations on the builder type.
pub fn gen_builder_impl(buildee_ident: &str, builder_ident: &str, fields: &[FieldDescriptor]) -> (out:
    String)
    ensures
        out@ == builder_impl_text(buildee_ident@, builder_ident@, descriptor_views(fields@)),
{
    let ghost views = descriptor_views(fields@);
    let mut setters: Vec<String> = Vec::new();
    let mut init_struct_fields: Vec<String> = Vec::new();
    let mut i: usize = 0;
    while i < fields.len()
        invariant
            0 <= i <= fields.len(),
            views == descriptor_views(fields@),
            setters.len() == i,
            init_struct_fields.len() == i,
            forall|j: int| 0 <= j < i ==> (#[trigger] setters[j])@ == setter_text(views[j]),
            forall|j: int|
                0 <= j < i ==> (#[trigger] init_struct_fields[j])@ == field_extraction(views[j]),
        decreases fields.len() - i,
    {
        setters.push(gen_setter(&fields[i]));
        init_struct_fields.push(gen_field_extraction(&fields[i]));
        i = i + 1;
    }
    proof {
        assert(texts_of(setters@) =~= setter_texts(views));
        assert(texts_of(init_struct_fields@) =~= field_extractions(views));
    }
    let setters_text = join_strings(&setters, " ");
    let init_text = join_strings(&init_struct_fields, ", ");
    let mut out = String::from_str("impl ");
    out.append(builder_ident);
    out.append(" { ");
    out.append(setters_text.as_str());
    out.append(" pub fn build(&mut self) -> std::result::Result<");
    out.append(buildee_ident);
    out.append(", std::boxed::Box<dyn std::error::Error>> { std::result::Result::Ok(");
    out.append(buildee_ident);
    out.append(" { ");
    out.append(init_text.as_str());
    out.append(" }) } }");
    out
}

} // verus!
