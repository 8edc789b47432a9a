//! Deciding, from the way a type is written, whether a field is optional.
//!
//! The decision is purely syntactic. A type is an optional wrapper when it
//! is a path of exactly one segment, that segment is named `Option`, and
//! it carries exactly one argument between angle brackets, which is itself
//! a type. Nothing is resolved: a local type that happens to be written
//! `Option<T>` is taken for the wrapper, and `std::option::Option<T>`,
//! having three segments, is not.

use vstd::prelude::*;
use vstd::string::*;
use crate::type_expr::{
    GenericArgument, GenericArgumentView, PathArguments, PathArgumentsView, TypeExpr,
    TypeExprView, TypeShape, TypeShapeView,
};

verus! {

/// The reserved name of the optional wrapper: `Option`.
pub open spec fn wrapper_name() -> Seq<char> {
    "Option"@
}

/// The type inside an optional wrapper, or `None` where `ty` is not
/// written as one. Only one level is taken off.
pub open spec fn option_inner(ty: TypeExprView) -> Option<TypeExprView> {
    match ty.shape {
        TypeShapeView::Path(segments) => {
            if segments.len() == 1 && segments[0].ident == wrapper_name() {
                match segments[0].arguments {
                    PathArgumentsView::AngleBracketed(args) => {
                        if args.len() == 1 {
                            match args[0] {
                                GenericArgumentView::Type(inner) => Some(inner),
                                _ => None,
                            }
                        } else {
                            None
                        }
                    },
                    _ => None,
                }
            } else {
                None
            }
        },
        TypeShapeView::Other => None,
    }
}

/// How a field's declared type classifies.
pub enum Optionality<'a> {
    /// Not an optional wrapper; carries the declared type.
    Required(&'a TypeExpr),
    /// An optional wrapper; carries the type inside it.
    Optional(&'a TypeExpr),
}

/// Mathematical counterpart of [`Optionality`].
pub enum OptionalityView {
    Required(TypeExprView),
    Optional(TypeExprView),
}

impl<'a> View for Optionality<'a> {
    type V = OptionalityView;

    open spec fn view(&self) -> OptionalityView {
        match self {
            Optionality::Required(ty) => OptionalityView::Required(ty@),
            Optionality::Optional(ty) => OptionalityView::Optional(ty@),
        }
    }
}

impl OptionalityView {
    /// The type of the values that the field's setter takes: the inner type
    /// of an optional field, the declared type of a required one.
    pub open spec fn value_type(self) -> TypeExprView {
        match self {
            OptionalityView::Required(ty) => ty,
            OptionalityView::Optional(inner) => inner,
        }
    }
}

impl<'a> Optionality<'a> {
    /// Whether the field may be left out.
    pub fn is_optional(&self) -> (b: bool)
        ensures
            b == (self@ is Optional),
    {
        match self {
            Optionality::Required(_) => false,
            Optionality::Optional(_) => true,
        }
    }

    /// The type of the values that the field's setter takes.
    pub fn value_type(&self) -> (ty: &'a TypeExpr)
        ensures
            ty@ == self@.value_type(),
    {
        match self {
            Optionality::Required(ty) => ty,
            Optionality::Optional(inner) => inner,
        }
    }
}

/// The classification of a declared type.
pub open spec fn classify_spec(ty: TypeExprView) -> OptionalityView {
    match option_inner(ty) {
        Some(inner) => OptionalityView::Optional(inner),
        None => OptionalityView::Required(ty),
    }
}

/// Whether `name` is the reserved wrapper name.
fn is_wrapper_name(name: &String) -> (b: bool)
    ensures
        b == (name@ == wrapper_name()),
{
    let reserved = String::from_str("Option");
    *name == reserved
}

/// The type inside an optional wrapper, if `ty` is written as one.
pub fn get_option_inner_type(ty: &TypeExpr) -> (inner: Option<&TypeExpr>)
    ensures
        match inner {
            Some(t) => option_inner(ty@) == Some(t@),
            None => option_inner(ty@) is None,
        },
{
    if let TypeShape::Path(segments) = &ty.shape {
        if segments.len() == 1 && is_wrapper_name(&segments[0].ident) {
            if let PathArguments::AngleBracketed(args) = &segments[0].arguments {
                if args.len() == 1 {
                    if let GenericArgument::Type(t) = &args[0] {
                        return Some(t);
                    }
                }
            }
        }
    }
    None
}

/// Classifies a declared type as required or optional.
pub fn classify(ty: &TypeExpr) -> (r: Optionality<'_>)
    ensures
        r@ == classify_spec(ty@),
{
    match get_option_inner_type(ty) {
        Some(inner) => Optionality::Optional(inner),
        None => Optionality::Required(ty),
    }
}

} // verus!
