//! Reading a declaration from source text.
//!
//! The text is parsed by `syn`; the tokens of each piece are written back to
//! text by `quote`. Both are believed, not verified: what this module proves
//! is how their answers are put together.

use vstd::prelude::*;
use crate::error::DeriveError;
use crate::record::{all_named, field_views, text_view, Declaration, FieldDecl, Shape, ShapeView};

verus! {

/// `syn::Error`, what the parser reports when the text is no declaration.
#[verifier::external_type_specification]
#[verifier::external_body]
pub struct ExSynError(syn::Error);

/// `syn::Generics`, the parsed generic parameters and `where` clause of a
/// declaration. Nothing inside it is visible to the verifier.
#[verifier::external_type_specification]
#[verifier::external_body]
pub struct ExGenerics(syn::Generics);

/// `syn::Field`, one parsed field.
#[verifier::external_type_specification]
#[verifier::external_body]
pub struct ExSynField(syn::Field);

/// What the parser found in a struct, enum or union: the kind, and each
/// field of a struct with named fields beside its name.
enum Found {
    Named(Vec<(Option<String>, syn::Field)>),
    Tuple,
    Unit,
    Enum,
    Union,
}

/// A parsed declaration: its name as text, its parameters as parsed, and
/// what was found in it.
struct Parsed {
    name: String,
    generics: syn::Generics,
    found: Found,
}

/// Whether each field that was found has its name.
spec fn names_given(found: Found) -> bool {
    match found {
        Found::Named(fields) => forall|i: int|
            0 <= i < fields@.len() ==> (#[trigger] fields@[i]).0 is Some,
        _ => true,
    }
}

/// Calls `syn::parse_str` for a `syn::DeriveInput` and takes the answer
/// apart: one arm for each variant of `syn::Data` and of `syn::Fields`, the
/// `ident` of the item and of each named field turned to text by its
/// `Display`.
///
/// Believed: each field of `syn::Fields::Named` has its `ident`, as syn's
/// parser of braced fields always gives one. Nothing else is claimed:
/// which texts parse, and as what, is not the same in every process.
#[verifier::external_body]
fn parse_item(source: &str) -> (r: Result<Parsed, syn::Error>)
    ensures
        r matches Ok(parsed) ==> names_given(parsed.found),
{
    let item = syn::parse_str::<syn::DeriveInput>(source)?;
    let found = match item.data {
        syn::Data::Struct(data) => match data.fields {
            syn::Fields::Named(fields) => Found::Named(
                fields.named.into_iter()
                    .map(|f| (f.ident.as_ref().map(|i| i.to_string()), f))
                    .collect(),
            ),
            syn::Fields::Unnamed(_) => Found::Tuple,
            syn::Fields::Unit => Found::Unit,
        },
        syn::Data::Enum(_) => Found::Enum,
        syn::Data::Union(_) => Found::Union,
    };
    Ok(Parsed { name: item.ident.to_string(), generics: item.generics, found })
}

/// The message of a `syn::Error`, by its `Display`. Nothing is claimed of
/// the text.
#[verifier::external_body]
fn error_text(error: &syn::Error) -> String {
    error.to_string()
}

/// Calls `syn::Generics::split_for_impl` and turns each of the three pieces
/// to text through its `ToTokens`: the parameters as they follow `impl`, as
/// they follow the type's name, and the `where` clause. Nothing is claimed
/// of the texts.
#[verifier::external_body]
fn generics_texts(generics: &syn::Generics) -> (String, String, String) {
    let (for_impl, for_type, where_clause) = generics.split_for_impl();
    (
        quote::ToTokens::to_token_stream(&for_impl).to_string(),
        quote::ToTokens::to_token_stream(&for_type).to_string(),
        quote::ToTokens::to_token_stream(&where_clause).to_string(),
    )
}

/// The `vis` of a `syn::Field`, printed by its `ToTokens` and turned to
/// text. Nothing is claimed of the text.
#[verifier::external_body]
fn field_vis(field: &syn::Field) -> String {
    quote::ToTokens::to_token_stream(&field.vis).to_string()
}

/// The `ty` of a `syn::Field`, printed by its `ToTokens` and turned to text.
/// Nothing is claimed of the text.
#[verifier::external_body]
fn field_type(field: &syn::Field) -> String {
    quote::ToTokens::to_token_stream(&field.ty).to_string()
}

/// The fields as text, one for one and in order, each under the name that
/// the parser gave it.
fn field_decls(fields: &Vec<(Option<String>, syn::Field)>) -> (decls: Vec<FieldDecl>)
    ensures
        decls@.len() == fields@.len(),
        forall|i: int|
            0 <= i < fields@.len() ==> (#[trigger] decls@[i])@.name == text_view(fields@[i].0),
{
    let mut decls: Vec<FieldDecl> = Vec::new();
    let mut i: usize = 0;
    while i < fields.len()
        invariant
            i <= fields.len(),
            decls@.len() == i,
            forall|j: int| 0 <= j < i ==> (#[trigger] decls@[j])@.name == text_view(fields@[j].0),
        decreases fields.len() - i,
    {
        let field = &fields[i];
        let name = match &field.0 {
            Some(text) => Some(text.clone()),
            None => None,
        };
        decls.push(FieldDecl { vis: field_vis(&field.1), name, ty: field_type(&field.1) });
        i += 1;
    }
    decls
}

/// Whether a declaration is one that a parser can have found: a struct
/// with named fields has a name for each of them.
pub open spec fn well_read(shape: ShapeView) -> bool {
    shape matches ShapeView::Named(fields) ==> all_named(fields)
}

/// Reads a declaration from its source text.
///
/// What is read is the parser's to say, so the same text need not read the
/// same in every process. Whatever the parser answers: the text is turned
/// down only as [`DeriveError::Syntax`], and in a struct that was read with
/// named fields every field has its name. Which shapes get methods is for
/// [`crate::emit::expand`] to say.
pub fn read_declaration(source: &str) -> (r: Result<Declaration, DeriveError>)
    ensures
        match r {
            Ok(d) => well_read(d@.shape),
            Err(e) => e is Syntax,
        },
{
    match parse_item(source) {
        Err(error) => Err(DeriveError::Syntax(error_text(&error))),
        Ok(parsed) => {
            let (impl_generics, type_generics, where_clause) = generics_texts(&parsed.generics);
            let shape = match &parsed.found {
                Found::Named(fields) => {
                    let decls = field_decls(fields);
                    assert(all_named(field_views(decls@)));
                    Shape::Named(decls)
                },
                Found::Tuple => Shape::Tuple,
                Found::Unit => Shape::Unit,
                Found::Enum => Shape::Enum,
                Found::Union => Shape::Union,
            };
            Ok(Declaration { name: parsed.name, impl_generics, type_generics, where_clause, shape })
        },
    }
}

} // verus!
