//! The builder that belongs to a record, described slot by slot.
//!
//! Every field of the record gets one storage slot in the builder. A slot
//! is always an optional wrapper, so that "not set yet" can be told from
//! any value: an optional field keeps its declared type, a required field
//! gets its declared type wrapped once.

use vstd::prelude::*;
use vstd::string::*;
use crate::classify::{classify, classify_spec, wrapper_name, Optionality, OptionalityView};
use crate::record::{
    extract_fields, extract_spec, fields_view, FieldDescriptor, FieldDescriptorView,
    RecordDefinition, RecordDefinitionView, ShapeError,
};
use crate::type_expr::{
    GenericArgumentView, PathArgumentsView, PathSegmentView, TypeExprView, TypeShapeView,
};

verus! {

/// The optional wrapper written around `inner`.
pub open spec fn option_of(inner: TypeExprView) -> TypeExprView {
    TypeExprView {
        text: wrapper_name() + "<"@ + inner.text + ">"@,
        shape: TypeShapeView::Path(
            seq![
                PathSegmentView {
                    ident: wrapper_name(),
                    arguments: PathArgumentsView::AngleBracketed(
                        seq![GenericArgumentView::Type(inner)],
                    ),
                },
            ],
        ),
    }
}

/// The type of the slot that stores a field declared as `declared`.
pub open spec fn storage_type(declared: TypeExprView) -> TypeExprView {
    match classify_spec(declared) {
        OptionalityView::Optional(_) => declared,
        OptionalityView::Required(ty) => option_of(ty),
    }
}

/// The suffix that turns a record's name into its builder's name.
pub open spec fn builder_suffix() -> Seq<char> {
    "Builder"@
}

/// One storage slot of a builder.
#[derive(Debug, PartialEq, Eq)]
pub struct SlotDescriptor {
    /// The field's name, which is also the name of its setter.
    pub name: String,
    /// Whether assembly insists on a value.
    pub required: bool,
    /// The slot's type, as text.
    pub storage_type: String,
    /// The type of the values that the setter takes, as text.
    pub value_type: String,
}

/// Mathematical counterpart of [`SlotDescriptor`].
pub struct SlotDescriptorView {
    pub name: Seq<char>,
    pub required: bool,
    pub storage_type: Seq<char>,
    pub value_type: Seq<char>,
}

impl View for SlotDescriptor {
    type V = SlotDescriptorView;

    open spec fn view(&self) -> SlotDescriptorView {
        SlotDescriptorView {
            name: self.name@,
            required: self.required,
            storage_type: self.storage_type@,
            value_type: self.value_type@,
        }
    }
}

/// The slots of a list, each by its view, in order.
pub open spec fn slots_view(slots: Seq<SlotDescriptor>) -> Seq<SlotDescriptorView> {
    slots.map_values(|s: SlotDescriptor| s@)
}

/// A record's builder: its names and its slots in declaration order.
#[derive(Debug, PartialEq, Eq)]
pub struct BuilderDescriptor {
    pub record_name: String,
    pub builder_name: String,
    pub slots: Vec<SlotDescriptor>,
}

/// Mathematical counterpart of [`BuilderDescriptor`].
pub struct BuilderDescriptorView {
    pub record_name: Seq<char>,
    pub builder_name: Seq<char>,
    pub slots: Seq<SlotDescriptorView>,
}

impl View for BuilderDescriptor {
    type V = BuilderDescriptorView;

    open spec fn view(&self) -> BuilderDescriptorView {
        BuilderDescriptorView {
            record_name: self.record_name@,
            builder_name: self.builder_name@,
            slots: slots_view(self.slots@),
        }
    }
}

/// The slot that stores `field`.
pub open spec fn slot_of(field: FieldDescriptorView) -> SlotDescriptorView {
    SlotDescriptorView {
        name: field.name,
        required: classify_spec(field.ty) is Required,
        storage_type: storage_type(field.ty).text,
        value_type: classify_spec(field.ty).value_type().text,
    }
}

/// The builder of a record with the given name and fields.
pub open spec fn descriptor_of(
    name: Seq<char>,
    fields: Seq<FieldDescriptorView>,
) -> BuilderDescriptorView {
    BuilderDescriptorView {
        record_name: name,
        builder_name: name + builder_suffix(),
        slots: fields.map_values(|f: FieldDescriptorView| slot_of(f)),
    }
}

/// The builder of a definition, or the reason why it has none.
pub open spec fn describe_spec(def: RecordDefinitionView) -> Result<
    BuilderDescriptorView,
    ShapeError,
> {
    match extract_spec(def) {
        Ok(fields) => Ok(descriptor_of(def.name, fields)),
        Err(e) => Err(e),
    }
}

/// Works out the slot that stores `field`.
pub fn describe_slot(field: &FieldDescriptor) -> (slot: SlotDescriptor)
    ensures
        slot@ == slot_of(field@),
{
    match classify(&field.ty) {
        Optionality::Optional(inner) => SlotDescriptor {
            name: field.name.clone(),
            required: false,
            storage_type: field.ty.text.clone(),
            value_type: inner.text.clone(),
        },
        Optionality::Required(ty) => {
            let mut storage = String::from_str("Option");
            storage.append("<");
            storage.append(ty.text.as_str());
            storage.append(">");
            SlotDescriptor {
                name: field.name.clone(),
                required: true,
                storage_type: storage,
                value_type: ty.text.clone(),
            }
        },
    }
}

/// Works out the builder of a definition: one slot per field, in
/// declaration order. Fails exactly where extraction fails.
pub fn describe(def: &RecordDefinition) -> (r: Result<BuilderDescriptor, ShapeError>)
    ensures
        match r {
            Ok(d) => describe_spec(def@) == Ok::<BuilderDescriptorView, ShapeError>(d@),
            Err(e) => describe_spec(def@) == Err::<BuilderDescriptorView, ShapeError>(e),
        },
{
    match extract_fields(def) {
        Err(e) => Err(e),
        Ok(fields) => {
            let mut slots: Vec<SlotDescriptor> = Vec::new();
            let mut i: usize = 0;
            while i < fields.len()
                invariant
                    i <= fields.len(),
                    slots.len() == i,
                    forall|j: int| 0 <= j < i ==> (#[trigger] slots[j])@ == slot_of(fields[j]@),
                decreases fields.len() - i,
            {
                slots.push(describe_slot(&fields[i]));
                i += 1;
            }
            let mut builder_name = def.name.clone();
            builder_name.append("Builder");
            let d = BuilderDescriptor { record_name: def.name.clone(), builder_name, slots };
            proof {
                assert(d@.slots =~= descriptor_of(def@.name, fields_view(fields@)).slots);
            }
            Ok(d)
        },
    }
}

} // verus!
