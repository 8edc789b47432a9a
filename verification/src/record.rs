//! Record definitions and the extraction of their field descriptors.

use vstd::prelude::*;
use vstd::string::*;
use crate::type_expr::{TypeExpr, TypeExprView};

verus! {

/// One named field of a record: its name and its type as declared.
#[derive(Debug, PartialEq, Eq)]
pub struct FieldDescriptor {
    pub name: String,
    pub ty: TypeExpr,
}

/// Mathematical counterpart of [`FieldDescriptor`].
pub struct FieldDescriptorView {
    pub name: Seq<char>,
    pub ty: TypeExprView,
}

impl View for FieldDescriptor {
    type V = FieldDescriptorView;

    open spec fn view(&self) -> FieldDescriptorView {
        FieldDescriptorView { name: self.name@, ty: self.ty@ }
    }
}

/// The fields of a list, each by its view, in order.
pub open spec fn fields_view(fields: Seq<FieldDescriptor>) -> Seq<FieldDescriptorView> {
    fields.map_values(|f: FieldDescriptor| f@)
}

/// The form in which a type was defined.
#[derive(Debug, PartialEq, Eq)]
pub enum RecordShape {
    /// A struct with named fields between braces, in declaration order.
    Named(Vec<FieldDescriptor>),
    /// A struct with positional fields: `struct Pair(u8, u8);`.
    Positional,
    /// A struct without fields: `struct Marker;`.
    Unit,
    /// An enum.
    Enum,
    /// A union.
    Union,
}

/// Mathematical counterpart of [`RecordShape`].
pub enum RecordShapeView {
    Named(Seq<FieldDescriptorView>),
    Positional,
    Unit,
    Enum,
    Union,
}

impl View for RecordShape {
    type V = RecordShapeView;

    open spec fn view(&self) -> RecordShapeView {
        match self {
            RecordShape::Named(fields) => RecordShapeView::Named(fields_view(fields@)),
            RecordShape::Positional => RecordShapeView::Positional,
            RecordShape::Unit => RecordShapeView::Unit,
            RecordShape::Enum => RecordShapeView::Enum,
            RecordShape::Union => RecordShapeView::Union,
        }
    }
}

/// The definition of a type for which a builder is asked.
#[derive(Debug, PartialEq, Eq)]
pub struct RecordDefinition {
    pub name: String,
    pub shape: RecordShape,
}

/// Mathematical counterpart of [`RecordDefinition`].
pub struct RecordDefinitionView {
    pub name: Seq<char>,
    pub shape: RecordShapeView,
}

impl View for RecordDefinition {
    type V = RecordDefinitionView;

    open spec fn view(&self) -> RecordDefinitionView {
        RecordDefinitionView { name: self.name@, shape: self.shape@ }
    }
}

/// Why no builder can be made for a definition.
#[derive(Debug, Clone, Copy, PartialEq, Eq)]
pub enum ShapeError {
    /// The type is an enum or a union, not a struct.
    SumType,
    /// The struct's fields have positions, not names.
    PositionalFields,
    /// The struct has no named field at all.
    NoFields,
}

impl ShapeError {
    /// The refusal in words, as a text.
    pub open spec fn message_spec(self) -> Seq<char> {
        match self {
            ShapeError::SumType => "Only structs are supported"@,
            ShapeError::PositionalFields => "Only structs with named fields are supported"@,
            ShapeError::NoFields => "Only structs with at least one named field are supported"@,
        }
    }

    /// The refusal in words.
    pub fn message(&self) -> (text: String)
        ensures
            text@ == self.message_spec(),
    {
        match self {
            ShapeError::SumType => String::from_str("Only structs are supported"),
            ShapeError::PositionalFields => String::from_str(
                "Only structs with named fields are supported",
            ),
            ShapeError::NoFields => String::from_str(
                "Only structs with at least one named field are supported",
            ),
        }
    }
}

/// The field descriptors of a definition, in declaration order, or the
/// reason why it has none to offer.
///
/// Only a struct with at least one named field is accepted.
pub open spec fn extract_spec(def: RecordDefinitionView) -> Result<
    Seq<FieldDescriptorView>,
    ShapeError,
> {
    match def.shape {
        RecordShapeView::Named(fields) => {
            if fields.len() == 0 {
                Err(ShapeError::NoFields)
            } else {
                Ok(fields)
            }
        },
        RecordShapeView::Positional => Err(ShapeError::PositionalFields),
        RecordShapeView::Unit => Err(ShapeError::NoFields),
        RecordShapeView::Enum => Err(ShapeError::SumType),
        RecordShapeView::Union => Err(ShapeError::SumType),
    }
}

/// Extracts the field descriptors of a definition, in declaration order.
pub fn extract_fields(def: &RecordDefinition) -> (r: Result<&Vec<FieldDescriptor>, ShapeError>)
    ensures
        match r {
            Ok(fields) => extract_spec(def@) == Ok::<Seq<FieldDescriptorView>, ShapeError>(
                fields_view(fields@),
            ),
            Err(e) => extract_spec(def@) == Err::<Seq<FieldDescriptorView>, ShapeError>(e),
        },
{
    match &def.shape {
        RecordShape::Named(fields) => {
            if fields.len() == 0 {
                Err(ShapeError::NoFields)
            } else {
                Ok(fields)
            }
        },
        RecordShape::Positional => Err(ShapeError::PositionalFields),
        RecordShape::Unit => Err(ShapeError::NoFields),
        RecordShape::Enum => Err(ShapeError::SumType),
        RecordShape::Union => Err(ShapeError::SumType),
    }
}

} // verus!
