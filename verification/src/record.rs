//! The shape of a declaration: what the generator reads of it.
//!
//! Every piece of a declaration is held as the text of its tokens. The
//! generator never looks inside a type or a visibility; it only places them.

use vstd::prelude::*;

verus! {

/// One field of a struct.
#[derive(Clone, Debug, PartialEq, Eq)]
pub struct FieldDecl {
    /// The visibility as written (`pub`, `pub(crate)`, ...), empty when the
    /// field is private.
    pub vis: String,
    /// The field's name, or `None` for a field that has none: for such a
    /// field no method can be written.
    pub name: Option<String>,
    /// The field's type.
    pub ty: String,
}

/// The mathematical value of a [`FieldDecl`].
pub struct FieldDeclView {
    pub vis: Seq<char>,
    pub name: Option<Seq<char>>,
    pub ty: Seq<char>,
}

/// The characters of a text that may be missing.
pub open spec fn text_view(text: Option<String>) -> Option<Seq<char>> {
    match text {
        Some(t) => Some(t@),
        None => None,
    }
}

impl View for FieldDecl {
    type V = FieldDeclView;

    open spec fn view(&self) -> FieldDeclView {
        FieldDeclView { vis: self.vis@, name: text_view(self.name), ty: self.ty@ }
    }
}

/// What kind of item a declaration is, with its fields where the generator
/// has a use for them.
#[derive(Clone, Debug, PartialEq, Eq)]
pub enum Shape {
    /// A struct with named fields, in the order of the declaration.
    Named(Vec<FieldDecl>),
    /// A tuple struct.
    Tuple,
    /// A unit struct.
    Unit,
    /// An enum.
    Enum,
    /// A union.
    Union,
}

/// The mathematical value of a [`Shape`].
pub enum ShapeView {
    Named(Seq<FieldDeclView>),
    Tuple,
    Unit,
    Enum,
    Union,
}

/// The views of a sequence of fields, one for one.
pub open spec fn field_views(fields: Seq<FieldDecl>) -> Seq<FieldDeclView> {
    fields.map_values(|f: FieldDecl| f@)
}

impl View for Shape {
    type V = ShapeView;

    open spec fn view(&self) -> ShapeView {
        match self {
            Shape::Named(fields) => ShapeView::Named(field_views(fields@)),
            Shape::Tuple => ShapeView::Tuple,
            Shape::Unit => ShapeView::Unit,
            Shape::Enum => ShapeView::Enum,
            Shape::Union => ShapeView::Union,
        }
    }
}

/// A declaration as the generator sees it.
///
/// The generic parameters are held in the three forms in which an `impl`
/// block needs them. For `struct W<'a, T: Clone = u8> where T: Copy` they
/// are `<'a, T: Clone>`, `<'a, T>` and `where T: Copy`.
#[derive(Clone, Debug, PartialEq, Eq)]
pub struct Declaration {
    /// The name of the type.
    pub name: String,
    /// The parameter list as it follows `impl`: in angle brackets, with the
    /// bounds and without the defaults; empty when the type has no
    /// parameters.
    pub impl_generics: String,
    /// The parameter list as it follows the type's name: in angle brackets,
    /// the names only; empty when the type has no parameters.
    pub type_generics: String,
    /// The `where` clause with its keyword, empty when there is none.
    pub where_clause: String,
    /// The item's kind and fields.
    pub shape: Shape,
}

/// The mathematical value of a [`Declaration`].
pub struct DeclarationView {
    pub name: Seq<char>,
    pub impl_generics: Seq<char>,
    pub type_generics: Seq<char>,
    pub where_clause: Seq<char>,
    pub shape: ShapeView,
}

impl View for Declaration {
    type V = DeclarationView;

    open spec fn view(&self) -> DeclarationView {
        DeclarationView {
            name: self.name@,
            impl_generics: self.impl_generics@,
            type_generics: self.type_generics@,
            where_clause: self.where_clause@,
            shape: self.shape@,
        }
    }
}

/// Whether every field has a name.
pub open spec fn all_named(fields: Seq<FieldDeclView>) -> bool {
    forall|i: int| 0 <= i < fields.len() ==> (#[trigger] fields[i]).name is Some
}

} // verus!
