//! The declaration of the builder type.

use crate::descriptor::{descriptor_views, FieldDescriptor, FieldDescriptorView};
use crate::text::{join, join_strings, texts_of};
use crate::types::type_text;
use vstd::prelude::*;

verus! {

/// The declaration of the builder's slot for a field: the field's name, typed as an
/// optional value of the field's effective type, whether or not the field is optional.
pub open spec fn slot_declaration(f: FieldDescriptorView) -> Seq<char> {
    f.name + ": std::option::Option<"@ + type_text(f.effective_type) + ">"@
}

/// The declarations of the builder's slots, one for each field, in order.
pub open spec fn slot_declarations(fields: Seq<FieldDescriptorView>) -> Seq<Seq<char>> {
    fields.map_values(|f: FieldDescriptorView| slot_declaration(f))
}

/// The declaration of the builder type named `ident`: a public struct with one slot for
/// each field.
pub open spec fn builder_struct_text(ident: Seq<char>, fields: Seq<FieldDescriptorView>) -> Seq<
    char,
> {
    "pub struct "@ + ident + " { "@ + join(slot_declarations(fields), ", "@) + " }"@
}

/// Writes the declaration of the builder type named `ident`.
pub fn gen_builder_struct(ident: &str, fields: &[FieldDescriptor]) -> (out: String)
    ensures
        out@ == builder_struct_text(ident@, descriptor_views(fields@)),
{
    let ghost views = descriptor_views(fields@);
    let mut slots: Vec<String> = Vec::new();
    let mut i: usize = 0;
    while i < fields.len()
        invariant
            0 <= i <= fields.len(),
            views == descriptor_views(fields@),
            slots.len() == i,
            forall|j: int| 0 <= j < i ==> (#[trigger] slots[j])@ == slot_declaration(views[j]),
        decreases fields.len() - i,
    {
        let mut slot = fields[i].name.clone();
        slot.append(": std::option::Option<");
        let ty = fields[i].effective_type.render();
        slot.append(ty.as_str());
        slot.append(">");
        slots.push(slot);
        i = i + 1;
    }
    proof {
        assert(texts_of(slots@) =~= slot_declarations(views));
    }
    let body = join_strings(&slots, ", ");
    let mut out = String::from_str("pub struct ");
    out.append(ident);
    out.append(" { ");
    out.append(body.as_str());
    out.append(" }");
    out
}

} // verus!
