//! The generated methods, as text.
//!
//! The spec functions of this module say, character by character, what is
//! written for a declaration; the executable functions write it.

use vstd::prelude::*;
use crate::error::{DeriveError, DeriveErrorView};
use crate::record::{
    all_named, field_views, Declaration, DeclarationView, FieldDecl, FieldDeclView, Shape,
    ShapeView,
};

verus! {

/// Whether a name is written as a raw identifier (`r#type`).
pub open spec fn is_raw(name: Seq<char>) -> bool {
    name.len() >= 2 && name[0] == 'r' && name[1] == '#'
}

/// The part of a field's name that goes into a method's name: the name
/// itself, without the `r#` of a raw identifier.
pub open spec fn method_stem(name: Seq<char>) -> Seq<char> {
    if is_raw(name) {
        name.skip(2)
    } else {
        name
    }
}

/// The method that replaces a field by a given value.
pub open spec fn setter(vis: Seq<char>, name: Seq<char>, ty: Seq<char>) -> Seq<char> {
    vis + " fn with_"@ + method_stem(name) + "(self, x: "@ + ty + ") -> Self { Self { "@ + name
        + ": x, ..self } }"@
}

/// The method that replaces a field by what a function makes of it.
pub open spec fn updater(vis: Seq<char>, name: Seq<char>, ty: Seq<char>) -> Seq<char> {
    vis + " fn update_"@ + method_stem(name) + "(self, f: impl FnOnce("@ + ty + ") -> "@ + ty
        + ") -> Self { Self { "@ + name + ": f(self."@ + name + "), ..self } }"@
}

/// The setters of all fields, one to a line, in the order of the fields.
pub open spec fn setters(fields: Seq<FieldDeclView>) -> Seq<char>
    decreases fields.len(),
{
    if fields.len() == 0 {
        Seq::empty()
    } else {
        let f = fields.last();
        setters(fields.drop_last()) + "    "@ + setter(f.vis, f.name->0, f.ty) + "\n"@
    }
}

/// The updaters of all fields, one to a line, in the order of the fields.
pub open spec fn updaters(fields: Seq<FieldDeclView>) -> Seq<char>
    decreases fields.len(),
{
    if fields.len() == 0 {
        Seq::empty()
    } else {
        let f = fields.last();
        updaters(fields.drop_last()) + "    "@ + updater(f.vis, f.name->0, f.ty) + "\n"@
    }
}

/// The head of the block that attaches the methods to the type: the
/// parameters with their bounds after `impl`, their names after the type's
/// name, then the `where` clause.
pub open spec fn impl_head(d: DeclarationView) -> Seq<char> {
    "impl "@ + d.impl_generics + " "@ + d.name + " "@ + d.type_generics + " "@ + d.where_clause
        + " {\n"@
}

/// The block that attaches the methods to the type: the head, all the
/// setters, then all the updaters.
pub open spec fn impl_block(d: DeclarationView, fields: Seq<FieldDeclView>) -> Seq<char> {
    impl_head(d) + setters(fields) + updaters(fields) + "}\n"@
}

/// What is generated for a declaration: the block of methods for a struct
/// with named fields, and otherwise the reason why there is none.
pub open spec fn expansion(d: DeclarationView) -> Result<Seq<char>, DeriveErrorView> {
    match d.shape {
        ShapeView::Enum | ShapeView::Union => Err(DeriveErrorView::NotAStruct),
        ShapeView::Tuple | ShapeView::Unit => Err(DeriveErrorView::NoNamedFields),
        ShapeView::Named(fields) => if all_named(fields) {
            Ok(impl_block(d, fields))
        } else {
            Err(DeriveErrorView::UnnamedField)
        },
    }
}

/// The value of what [`expand`] returns.
pub open spec fn outcome(r: Result<String, DeriveError>) -> Result<Seq<char>, DeriveErrorView> {
    match r {
        Ok(text) => Ok(text@),
        Err(e) => Err(e@),
    }
}

/// The name as it goes into a method's name: a raw identifier loses its
/// `r#`, any other name stays as it is.
pub fn stem_of(name: &str) -> (stem: String)
    ensures
        stem@ == method_stem(name@),
{
    let n: usize = name.unicode_len();
    if n >= 2 && name.get_char(0) == 'r' && name.get_char(1) == '#' {
        let rest = name.substring_char(2, n);
        assert(name@.subrange(2, n as int) == name@.skip(2));
        rest.to_owned()
    } else {
        name.to_owned()
    }
}

/// Writes the setter of one field.
fn setter_text(vis: &str, name: &str, ty: &str) -> (text: String)
    ensures
        text@ == setter(vis@, name@, ty@),
{
    let stem = stem_of(name);
    let mut text = vis.to_owned();
    text.append(" fn with_");
    text.append(stem.as_str());
    text.append("(self, x: ");
    text.append(ty);
    text.append(") -> Self { Self { ");
    text.append(name);
    text.append(": x, ..self } }");
    text
}

/// Writes the updater of one field.
fn updater_text(vis: &str, name: &str, ty: &str) -> (text: String)
    ensures
        text@ == updater(vis@, name@, ty@),
{
    let stem = stem_of(name);
    let mut text = vis.to_owned();
    text.append(" fn update_");
    text.append(stem.as_str());
    text.append("(self, f: impl FnOnce(");
    text.append(ty);
    text.append(") -> ");
    text.append(ty);
    text.append(") -> Self { Self { ");
    text.append(name);
    text.append(": f(self.");
    text.append(name);
    text.append("), ..self } }");
    text
}

/// Tells whether every field has a name.
fn every_field_named(fields: &Vec<FieldDecl>) -> (yes: bool)
    ensures
        yes == all_named(field_views(fields@)),
{
    let mut i: usize = 0;
    while i < fields.len()
        invariant
            i <= fields.len(),
            forall|j: int| 0 <= j < i ==> (#[trigger] field_views(fields@)[j]).name is Some,
        decreases fields.len() - i,
    {
        if fields[i].name.is_none() {
            assert(field_views(fields@)[i as int].name is None);
            return false;
        }
        i += 1;
    }
    true
}

/// Writes the setters of all fields.
fn setters_text(fields: &Vec<FieldDecl>) -> (text: String)
    requires
        all_named(field_views(fields@)),
    ensures
        text@ == setters(field_views(fields@)),
{
    let ghost views = field_views(fields@);
    let mut text = String::new();
    let mut i: usize = 0;
    while i < fields.len()
        invariant
            i <= fields.len(),
            views == field_views(fields@),
            all_named(views),
            text@ == setters(views.take(i as int)),
        decreases fields.len() - i,
    {
        let field = &fields[i];
        assert(views[i as int] == field@);
        match &field.name {
            Some(name) => {
                let method = setter_text(field.vis.as_str(), name.as_str(), field.ty.as_str());
                text.append("    ");
                text.append(method.as_str());
                text.append("\n");
            },
            None => {},
        }
        proof {
            let next = views.take(i + 1);
            assert(next.drop_last() == views.take(i as int));
            assert(next.last() == views[i as int]);
        }
        i += 1;
    }
    assert(views.take(fields.len() as int) == views);
    text
}

/// Writes the updaters of all fields.
fn updaters_text(fields: &Vec<FieldDecl>) -> (text: String)
    requires
        all_named(field_views(fields@)),
    ensures
        text@ == updaters(field_views(fields@)),
{
    let ghost views = field_views(fields@);
    let mut text = String::new();
    let mut i: usize = 0;
    while i < fields.len()
        invariant
            i <= fields.len(),
            views == field_views(fields@),
            all_named(views),
            text@ == updaters(views.take(i as int)),
        decreases fields.len() - i,
    {
        let field = &fields[i];
        assert(views[i as int] == field@);
        match &field.name {
            Some(name) => {
                let method = updater_text(field.vis.as_str(), name.as_str(), field.ty.as_str());
                text.append("    ");
                text.append(method.as_str());
                text.append("\n");
            },
            None => {},
        }
        proof {
            let next = views.take(i + 1);
            assert(next.drop_last() == views.take(i as int));
            assert(next.last() == views[i as int]);
        }
        i += 1;
    }
    assert(views.take(fields.len() as int) == views);
    text
}

/// Writes the methods for a declaration.
///
/// A struct with named fields gets one block with a setter and an updater
/// for each field. Anything else is turned down: an enum or a union as
/// [`DeriveError::NotAStruct`], a tuple or unit struct as
/// [`DeriveError::NoNamedFields`], and a struct one of whose fields lacks its
/// name as [`DeriveError::UnnamedField`].
pub fn expand(declaration: &Declaration) -> (r: Result<String, DeriveError>)
    ensures
        outcome(r) == expansion(declaration@),
{
    match &declaration.shape {
        Shape::Enum | Shape::Union => Err(DeriveError::NotAStruct),
        Shape::Tuple | Shape::Unit => Err(DeriveError::NoNamedFields),
        Shape::Named(fields) => {
            if !every_field_named(fields) {
                return Err(DeriveError::UnnamedField);
            }
            let set = setters_text(fields);
            let update = updaters_text(fields);
            let mut text = "impl ".to_owned();
            text.append(declaration.impl_generics.as_str());
            text.append(" ");
            text.append(declaration.name.as_str());
            text.append(" ");
            text.append(declaration.type_generics.as_str());
            text.append(" ");
            text.append(declaration.where_clause.as_str());
            text.append(" {\n");
            text.append(set.as_str());
            text.append(update.as_str());
            text.append("}\n");
            Ok(text)
        },
    }
}

} // verus!
