//! The source text of a builder.
//!
//! Four declarations make up the code of a builder: the storage struct,
//! the setters, the factory on the record itself, and the assembly
//! operation. Each is a fixed frame around one piece of text per slot, in
//! declaration order.

use vstd::prelude::*;
use vstd::string::*;
use crate::descriptor::{
    BuilderDescriptor, BuilderDescriptorView, SlotDescriptor, SlotDescriptorView,
};
use crate::runtime::BuildErrorView;

verus! {

/// The pieces that `piece` makes of `items`, joined in order.
pub open spec fn joined<T>(items: Seq<T>, piece: spec_fn(T) -> Seq<char>) -> Seq<char>
    decreases items.len(),
{
    if items.len() == 0 {
        Seq::empty()
    } else {
        joined(items.drop_last(), piece) + piece(items.last())
    }
}

/// Joining one item more appends its piece.
pub proof fn lemma_joined_step<T>(items: Seq<T>, piece: spec_fn(T) -> Seq<char>, i: int)
    requires
        0 <= i < items.len(),
    ensures
        joined(items.take(i + 1), piece) == joined(items.take(i), piece) + piece(items[i]),
{
    assert(items.take(i + 1).drop_last() =~= items.take(i));
}

/// The line that declares a slot in the storage struct.
pub open spec fn storage_line(slot: SlotDescriptorView) -> Seq<char> {
    "    "@ + slot.name + ": "@ + slot.storage_type + ",\n"@
}

/// The declaration of the builder's storage struct.
pub open spec fn storage_text(d: BuilderDescriptorView) -> Seq<char> {
    "pub struct "@ + d.builder_name + " {\n"@ + joined(
        d.slots,
        |s: SlotDescriptorView| storage_line(s),
    ) + "}\n"@
}

/// The setter of a slot: it takes a bare value, stores it as present and
/// hands the builder back.
pub open spec fn setter_item(slot: SlotDescriptorView) -> Seq<char> {
    "    pub fn "@ + slot.name + "(&mut self, "@ + slot.name + ": "@ + slot.value_type
        + ") -> &mut Self {\n        self."@ + slot.name + " = Some("@ + slot.name
        + ");\n        self\n    }\n"@
}

/// The block that holds one setter per slot.
pub open spec fn setters_text(d: BuilderDescriptorView) -> Seq<char> {
    "impl "@ + d.builder_name + " {\n"@ + joined(
        d.slots,
        |s: SlotDescriptorView| setter_item(s),
    ) + "}\n"@
}

/// The line that starts a slot as absent.
pub open spec fn initial_line(slot: SlotDescriptorView) -> Seq<char> {
    "            "@ + slot.name + ": None,\n"@
}

/// The factory on the record: a builder with every slot absent.
pub open spec fn factory_text(d: BuilderDescriptorView) -> Seq<char> {
    "impl "@ + d.record_name + " {\n    pub fn builder() -> "@ + d.builder_name + " {\n        "@
        + d.builder_name + " {\n"@ + joined(d.slots, |s: SlotDescriptorView| initial_line(s))
        + "        }\n    }\n}\n"@
}

/// The line that computes a field's final value: a copy of the slot as it
/// is for an optional field; for a required one a copy of the value in
/// it, or else the early return of an error that says, in the words of
/// [`BuildErrorView::message`], that the field is missing.
pub open spec fn assembly_line(slot: SlotDescriptorView) -> Seq<char> {
    if slot.required {
        "            "@ + slot.name + ": self."@ + slot.name + ".clone().ok_or(\""@
            + BuildErrorView::RequiredFieldMissing(slot.name).message() + "\")?,\n"@
    } else {
        "            "@ + slot.name + ": self."@ + slot.name + ".clone(),\n"@
    }
}

/// The assembly operation of the builder.
pub open spec fn assembly_text(d: BuilderDescriptorView) -> Seq<char> {
    "impl "@ + d.builder_name + " {\n    pub fn build(&mut self) -> Result<"@ + d.record_name
        + ", Box<dyn std::error::Error>> {\n        Ok("@ + d.record_name + " {\n"@ + joined(
        d.slots,
        |s: SlotDescriptorView| assembly_line(s),
    ) + "        })\n    }\n}\n"@
}

/// The code of a builder: four declarations, each as source text.
#[derive(Debug, PartialEq, Eq)]
pub struct CodeBundle {
    /// The declaration of the builder's storage struct.
    pub storage: String,
    /// The builder's setters.
    pub setters: String,
    /// The factory on the record.
    pub factory: String,
    /// The builder's assembly operation.
    pub assembly: String,
}

/// Mathematical counterpart of [`CodeBundle`].
pub struct CodeBundleView {
    pub storage: Seq<char>,
    pub setters: Seq<char>,
    pub factory: Seq<char>,
    pub assembly: Seq<char>,
}

impl View for CodeBundle {
    type V = CodeBundleView;

    open spec fn view(&self) -> CodeBundleView {
        CodeBundleView {
            storage: self.storage@,
            setters: self.setters@,
            factory: self.factory@,
            assembly: self.assembly@,
        }
    }
}

/// The code of the builder that `d` describes.
pub open spec fn bundle_of(d: BuilderDescriptorView) -> CodeBundleView {
    CodeBundleView {
        storage: storage_text(d),
        setters: setters_text(d),
        factory: factory_text(d),
        assembly: assembly_text(d),
    }
}

fn push_storage_line(out: &mut String, slot: &SlotDescriptor)
    ensures
        final(out)@ == old(out)@ + storage_line(slot@),
{
    out.append("    ");
    out.append(slot.name.as_str());
    out.append(": ");
    out.append(slot.storage_type.as_str());
    out.append(",\n");
    assert(out@ =~= old(out)@ + storage_line(slot@));
}

fn push_setter_item(out: &mut String, slot: &SlotDescriptor)
    ensures
        final(out)@ == old(out)@ + setter_item(slot@),
{
    out.append("    pub fn ");
    out.append(slot.name.as_str());
    out.append("(&mut self, ");
    out.append(slot.name.as_str());
    out.append(": ");
    out.append(slot.value_type.as_str());
    out.append(") -> &mut Self {\n        self.");
    out.append(slot.name.as_str());
    out.append(" = Some(");
    out.append(slot.name.as_str());
    out.append(");\n        self\n    }\n");
    assert(out@ =~= old(out)@ + setter_item(slot@));
}

fn push_initial_line(out: &mut String, slot: &SlotDescriptor)
    ensures
        final(out)@ == old(out)@ + initial_line(slot@),
{
    out.append("            ");
    out.append(slot.name.as_str());
    out.append(": None,\n");
    assert(out@ =~= old(out)@ + initial_line(slot@));
}

fn push_assembly_line(out: &mut String, slot: &SlotDescriptor)
    ensures
        final(out)@ == old(out)@ + assembly_line(slot@),
{
    out.append("            ");
    out.append(slot.name.as_str());
    out.append(": self.");
    out.append(slot.name.as_str());
    if slot.required {
        out.append(".clone().ok_or(\"");
        out.append(slot.name.as_str());
        out.append(" not set");
        out.append("\")?,\n");
    } else {
        out.append(".clone(),\n");
    }
    assert(out@ =~= old(out)@ + assembly_line(slot@));
}

/// Writes the declaration of the builder's storage struct.
pub fn emit_storage(d: &BuilderDescriptor) -> (text: String)
    ensures
        text@ == storage_text(d@),
{
    let mut out = String::from_str("pub struct ");
    out.append(d.builder_name.as_str());
    out.append(" {\n");
    let ghost head = out@;
    let ghost piece = |s: SlotDescriptorView| storage_line(s);
    let mut i: usize = 0;
    while i < d.slots.len()
        invariant
            i <= d.slots.len(),
            piece == (|s: SlotDescriptorView| storage_line(s)),
            out@ == head + joined(d@.slots.take(i as int), piece),
        decreases d.slots.len() - i,
    {
        proof {
            lemma_joined_step(d@.slots, piece, i as int);
        }
        push_storage_line(&mut out, &d.slots[i]);
        i += 1;
        assert(out@ =~= head + joined(d@.slots.take(i as int), piece));
    }
    assert(d@.slots.take(i as int) =~= d@.slots);
    out.append("}\n");
    out
}

/// Writes the block of setters, one per slot.
pub fn emit_setters(d: &BuilderDescriptor) -> (text: String)
    ensures
        text@ == setters_text(d@),
{
    let mut out = String::from_str("impl ");
    out.append(d.builder_name.as_str());
    out.append(" {\n");
    let ghost head = out@;
    let ghost piece = |s: SlotDescriptorView| setter_item(s);
    let mut i: usize = 0;
    while i < d.slots.len()
        invariant
            i <= d.slots.len(),
            piece == (|s: SlotDescriptorView| setter_item(s)),
            out@ == head + joined(d@.slots.take(i as int), piece),
        decreases d.slots.len() - i,
    {
        proof {
            lemma_joined_step(d@.slots, piece, i as int);
        }
        push_setter_item(&mut out, &d.slots[i]);
        i += 1;
        assert(out@ =~= head + joined(d@.slots.take(i as int), piece));
    }
    assert(d@.slots.take(i as int) =~= d@.slots);
    out.append("}\n");
    out
}

/// Writes the factory that the record gets.
pub fn emit_factory(d: &BuilderDescriptor) -> (text: String)
    ensures
        text@ == factory_text(d@),
{
    let mut out = String::from_str("impl ");
    out.append(d.record_name.as_str());
    out.append(" {\n    pub fn builder() -> ");
    out.append(d.builder_name.as_str());
    out.append(" {\n        ");
    out.append(d.builder_name.as_str());
    out.append(" {\n");
    let ghost head = out@;
    let ghost piece = |s: SlotDescriptorView| initial_line(s);
    let mut i: usize = 0;
    while i < d.slots.len()
        invariant
            i <= d.slots.len(),
            piece == (|s: SlotDescriptorView| initial_line(s)),
            out@ == head + joined(d@.slots.take(i as int), piece),
        decreases d.slots.len() - i,
    {
        proof {
            lemma_joined_step(d@.slots, piece, i as int);
        }
        push_initial_line(&mut out, &d.slots[i]);
        i += 1;
        assert(out@ =~= head + joined(d@.slots.take(i as int), piece));
    }
    assert(d@.slots.take(i as int) =~= d@.slots);
    out.append("        }\n    }\n}\n");
    out
}

/// Writes the builder's assembly operation.
pub fn emit_assembly(d: &BuilderDescriptor) -> (text: String)
    ensures
        text@ == assembly_text(d@),
{
    let mut out = String::from_str("impl ");
    out.append(d.builder_name.as_str());
    out.append(" {\n    pub fn build(&mut self) -> Result<");
    out.append(d.record_name.as_str());
    out.append(", Box<dyn std::error::Error>> {\n        Ok(");
    out.append(d.record_name.as_str());
    out.append(" {\n");
    let ghost head = out@;
    let ghost piece = |s: SlotDescriptorView| assembly_line(s);
    let mut i: usize = 0;
    while i < d.slots.len()
        invariant
            i <= d.slots.len(),
            piece == (|s: SlotDescriptorView| assembly_line(s)),
            out@ == head + joined(d@.slots.take(i as int), piece),
        decreases d.slots.len() - i,
    {
        proof {
            lemma_joined_step(d@.slots, piece, i as int);
        }
        push_assembly_line(&mut out, &d.slots[i]);
        i += 1;
        assert(out@ =~= head + joined(d@.slots.take(i as int), piece));
    }
    assert(d@.slots.take(i as int) =~= d@.slots);
    out.append("        })\n    }\n}\n");
    out
}

/// Writes all four declarations of the builder that `d` describes.
pub fn emit(d: &BuilderDescriptor) -> (bundle: CodeBundle)
    ensures
        bundle@ == bundle_of(d@),
{
    CodeBundle {
        storage: emit_storage(d),
        setters: emit_setters(d),
        factory: emit_factory(d),
        assembly: emit_assembly(d),
    }
}

impl CodeBundle {
    /// The four declarations as one text, in the order storage, setters,
    /// factory, assembly.
    pub fn source(&self) -> (text: String)
        ensures
            text@ == self@.storage + self@.setters + self@.factory + self@.assembly,
    {
        let mut out = self.storage.clone();
        out.append(self.setters.as_str());
        out.append(self.factory.as_str());
        out.append(self.assembly.as_str());
        out
    }
}

} // verus!
