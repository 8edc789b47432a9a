//! Type expressions as the generator sees them: the text as written, and
//! the syntactic outline that classification reads.

use vstd::prelude::*;

verus! {

/// One generic argument between angle brackets.
#[derive(Debug, PartialEq, Eq)]
pub enum GenericArgument {
    /// A type, such as the `T` in `Vec<T>`.
    Type(TypeExpr),
    /// A lifetime, such as the `'a` in `Cow<'a, str>`.
    Lifetime,
    /// A constant expression, such as the `3` in `Matrix<3>`.
    Const,
    /// Anything else that may stand between the brackets, such as the
    /// `Item = u8` in `Iterator<Item = u8>`.
    Other,
}

/// The arguments that follow the name of a path segment.
#[derive(Debug, PartialEq, Eq)]
pub enum PathArguments {
    /// No arguments: `String`.
    Bare,
    /// Arguments between angle brackets: the `<K, V>` in `HashMap<K, V>`.
    AngleBracketed(Vec<GenericArgument>),
    /// Arguments between parentheses: the `(A, B) -> C` in `Fn(A, B) -> C`.
    Parenthesized,
}

/// One segment of a path: a name and its arguments.
#[derive(Debug, PartialEq, Eq)]
pub struct PathSegment {
    pub ident: String,
    pub arguments: PathArguments,
}

/// The syntactic outline of a type expression.
#[derive(Debug, PartialEq, Eq)]
pub enum TypeShape {
    /// A path, such as `std::option::Option<T>`, by its segments in order.
    Path(Vec<PathSegment>),
    /// Any other form of type: a reference, a tuple, an array, ...
    Other,
}

/// A type as written in a record definition.
///
/// `text` is the source text of the whole type; `shape` is its outline.
/// Neither is ever computed from the other here, and no name in it is
/// resolved: two expressions are the same when they are written the same.
#[derive(Debug, PartialEq, Eq)]
pub struct TypeExpr {
    pub text: String,
    pub shape: TypeShape,
}

/// Mathematical counterpart of [`GenericArgument`].
pub enum GenericArgumentView {
    Type(TypeExprView),
    Lifetime,
    Const,
    Other,
}

/// Mathematical counterpart of [`PathArguments`].
pub enum PathArgumentsView {
    Bare,
    AngleBracketed(Seq<GenericArgumentView>),
    Parenthesized,
}

/// Mathematical counterpart of [`PathSegment`].
pub struct PathSegmentView {
    pub ident: Seq<char>,
    pub arguments: PathArgumentsView,
}

/// Mathematical counterpart of [`TypeShape`].
pub enum TypeShapeView {
    Path(Seq<PathSegmentView>),
    Other,
}

/// Mathematical counterpart of [`TypeExpr`].
pub struct TypeExprView {
    pub text: Seq<char>,
    pub shape: TypeShapeView,
}

impl View for GenericArgument {
    type V = GenericArgumentView;

    open spec fn view(&self) -> GenericArgumentView
        decreases self,
    {
        match self {
            GenericArgument::Type(ty) => GenericArgumentView::Type(ty.view()),
            GenericArgument::Lifetime => GenericArgumentView::Lifetime,
            GenericArgument::Const => GenericArgumentView::Const,
            GenericArgument::Other => GenericArgumentView::Other,
        }
    }
}

impl View for PathArguments {
    type V = PathArgumentsView;

    open spec fn view(&self) -> PathArgumentsView
        decreases self,
    {
        match self {
            PathArguments::Bare => PathArgumentsView::Bare,
            PathArguments::AngleBracketed(args) => PathArgumentsView::AngleBracketed(
                Seq::new(
                    args.len() as nat,
                    |i: int|
                        if 0 <= i < args.len() {
                            args[i].view()
                        } else {
                            GenericArgumentView::Other
                        },
                ),
            ),
            PathArguments::Parenthesized => PathArgumentsView::Parenthesized,
        }
    }
}

impl View for PathSegment {
    type V = PathSegmentView;

    open spec fn view(&self) -> PathSegmentView
        decreases self,
    {
        PathSegmentView { ident: self.ident@, arguments: self.arguments.view() }
    }
}

impl View for TypeShape {
    type V = TypeShapeView;

    open spec fn view(&self) -> TypeShapeView
        decreases self,
    {
        match self {
            TypeShape::Path(segments) => TypeShapeView::Path(
                Seq::new(
                    segments.len() as nat,
                    |i: int|
                        if 0 <= i < segments.len() {
                            segments[i].view()
                        } else {
                            PathSegmentView { ident: Seq::empty(), arguments: PathArgumentsView::Bare }
                        },
                ),
            ),
            TypeShape::Other => TypeShapeView::Other,
        }
    }
}

impl View for TypeExpr {
    type V = TypeExprView;

    open spec fn view(&self) -> TypeExprView
        decreases self,
    {
        TypeExprView { text: self.text@, shape: self.shape.view() }
    }
}

} // verus!
