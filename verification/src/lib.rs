//! Persistent structs: for every field of a struct, a `with_<field>` method
//! that replaces the field and an `update_<field>` method that maps it, each
//! returning the changed copy.
//!
//! The methods are generated as source text from the text of the
//! declaration. [`read_declaration`] reads the declaration, [`expand`] writes
//! the methods, and [`derive_persistent_struct`] does both. For
//!
//! ```text
//! struct Foo {
//!     pub foo: u8,
//! }
//! ```
//!
//! the methods are
//!
//! ```text
//! impl  Foo   {
//!     pub fn with_foo(self, x: u8) -> Self { Self { foo: x, ..self } }
//!     pub fn update_foo(self, f: impl FnOnce(u8) -> u8) -> Self { Self { foo: f(self.foo), ..self } }
//! }
//! ```
//!
//! Only a struct with named fields gets methods; for anything else a
//! [`DeriveError`] says why not.

use vstd::prelude::*;

pub mod emit;
pub mod error;
pub mod parse;
pub mod record;

pub use emit::{expand, stem_of};
pub use error::{DeriveError, DeriveErrorView};
pub use parse::read_declaration;
pub use record::{Declaration, DeclarationView, FieldDecl, FieldDeclView, Shape, ShapeView};

verus! {

/// Generates the methods for the declaration written in `input`.
///
/// The answer is the text of one `impl` block. What is read from `input` is
/// the parser's to say; whatever it answers, a success is exactly what
/// [`emit::expansion`] gives for some struct with named fields, and a
/// failure is the parser's complaint about the syntax, an enum or a union,
/// or a struct without named fields.
pub fn derive_persistent_struct(input: &str) -> (r: Result<String, DeriveError>)
    ensures
        match r {
            Ok(text) => exists|d: DeclarationView|
                emit::expansion(d) == Ok::<Seq<char>, DeriveErrorView>(text@),
            Err(e) => e is Syntax || e is NotAStruct || e is NoNamedFields,
        },
{
    match read_declaration(input) {
        Err(e) => Err(e),
        Ok(declaration) => {
            let r = expand(&declaration);
            assert(emit::outcome(r) == emit::expansion(declaration@));
            r
        },
    }
}

} // verus!
