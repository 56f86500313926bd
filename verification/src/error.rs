//! Why a declaration is turned down.

use vstd::prelude::*;

verus! {

/// The reasons for which no methods are generated.
#[derive(Clone, Debug, PartialEq, Eq)]
pub enum DeriveError {
    /// The input is not a struct, enum or union declaration; the text says
    /// what the parser found.
    Syntax(String),
    /// The declaration is an enum or a union.
    NotAStruct,
    /// The declaration is a tuple struct or a unit struct.
    NoNamedFields,
    /// A field of the struct has no name.
    UnnamedField,
}

/// The mathematical value of a [`DeriveError`].
pub enum DeriveErrorView {
    Syntax(Seq<char>),
    NotAStruct,
    NoNamedFields,
    UnnamedField,
}

impl View for DeriveError {
    type V = DeriveErrorView;

    open spec fn view(&self) -> DeriveErrorView {
        match self {
            DeriveError::Syntax(text) => DeriveErrorView::Syntax(text@),
            DeriveError::NotAStruct => DeriveErrorView::NotAStruct,
            DeriveError::NoNamedFields => DeriveErrorView::NoNamedFields,
            DeriveError::UnnamedField => DeriveErrorView::UnnamedField,
        }
    }
}

/// The text shown to the user for each reason.
pub open spec fn message_of(e: DeriveErrorView) -> Seq<char> {
    match e {
        DeriveErrorView::Syntax(text) => text,
        DeriveErrorView::NotAStruct => "PersistentStruct may only be used with structs"@,
        DeriveErrorView::NoNamedFields =>
            "PersistentStruct may only be Used on structs with named fields"@,
        DeriveErrorView::UnnamedField => "Fields must have a name"@,
    }
}

impl DeriveError {
    /// The message to stop the build with.
    pub fn message(&self) -> (text: String)
        ensures
            text@ == message_of(self@),
    {
        match self {
            DeriveError::Syntax(text) => text.clone(),
            DeriveError::NotAStruct => "PersistentStruct may only be used with structs".to_owned(),
            DeriveError::NoNamedFields =>
                "PersistentStruct may only be Used on structs with named fields".to_owned(),
            DeriveError::UnnamedField => "Fields must have a name".to_owned(),
        }
    }
}

} // verus!
