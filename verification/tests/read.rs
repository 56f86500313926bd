use persistent_structs::{
    derive_persistent_struct, expand, read_declaration, Declaration, DeriveError, Shape,
};

/// The text without its white space: how the tokens of a type or of a
/// parameter list are spaced is the printer's business.
fn squeeze(text: &str) -> String {
    text.chars().filter(|c| !c.is_whitespace()).collect()
}

fn read(source: &str) -> Declaration {
    read_declaration(source).expect("a declaration")
}

#[test]
fn a_struct_is_read_field_by_field() {
    let source = "pub struct Point<'a, T: Clone> where T: Copy {
        pub x: &'a T,
        pub(crate) y: Vec<Option<T>>,
        z: [u8; 4],
    }";
    let point = read(source);
    assert_eq!(point.name, "Point");
    assert_eq!(squeeze(&point.impl_generics), "<'a,T:Clone>");
    assert_eq!(squeeze(&point.type_generics), "<'a,T>");
    assert_eq!(squeeze(&point.where_clause), "whereT:Copy");
    let Shape::Named(fields) = &point.shape else {
        panic!("a struct with named fields");
    };
    assert_eq!(fields.len(), 3);

    assert_eq!(fields[0].vis, "pub");
    assert_eq!(fields[0].name.as_deref(), Some("x"));
    assert_eq!(squeeze(&fields[0].ty), "&'aT");

    assert_eq!(squeeze(&fields[1].vis), "pub(crate)");
    assert_eq!(fields[1].name.as_deref(), Some("y"));
    assert_eq!(squeeze(&fields[1].ty), "Vec<Option<T>>");

    assert_eq!(fields[2].vis, "");
    assert_eq!(fields[2].name.as_deref(), Some("z"));
    assert_eq!(squeeze(&fields[2].ty), "[u8;4]");
}

#[test]
fn a_type_without_parameters_has_empty_lists_and_no_clause() {
    let foo = read("struct Foo { pub foo: u8 }");
    assert_eq!(foo.name, "Foo");
    assert_eq!(foo.impl_generics, "");
    assert_eq!(foo.type_generics, "");
    assert_eq!(foo.where_clause, "");
}

#[test]
fn defaults_are_left_out_and_bounds_stay_with_impl() {
    let source = "struct Grid<'a, 'b: 'a, T: Clone = u8, const N: usize = 4> {
        cells: [&'a T; N],
        rest: &'b str,
    }";
    let grid = read(source);
    assert_eq!(squeeze(&grid.impl_generics), "<'a,'b:'a,T:Clone,constN:usize>");
    assert_eq!(squeeze(&grid.type_generics), "<'a,'b,T,N>");
    assert_eq!(grid.where_clause, "");
}

#[test]
fn a_raw_field_name_keeps_its_mark() {
    let raw = read("struct Raw { r#type: u8 }");
    let Shape::Named(fields) = &raw.shape else {
        panic!("a struct with named fields");
    };
    assert_eq!(fields[0].name.as_deref(), Some("r#type"));
}

#[test]
fn braces_without_fields_are_still_named_fields() {
    assert_eq!(read("struct Empty {}").shape, Shape::Named(Vec::new()));
}

#[test]
fn tuple_and_unit_structs_are_told_apart() {
    assert_eq!(read("struct Pair(u8, u8);").shape, Shape::Tuple);
    assert_eq!(read("struct Nothing();").shape, Shape::Tuple);
    assert_eq!(read("struct Unit;").shape, Shape::Unit);
}

#[test]
fn enums_and_unions_are_told_apart() {
    assert_eq!(read("enum Either { Left, Right }").shape, Shape::Enum);
    assert_eq!(read("enum Never {}").shape, Shape::Enum);
    assert_eq!(read("union Bits { a: u32, b: f32 }").shape, Shape::Union);
}

#[test]
fn text_that_is_no_declaration_is_a_syntax_error() {
    for source in ["", "fn main() {}", "struct", "struct Foo { foo: }", "struct Foo { a: u8 } x"] {
        assert!(matches!(read_declaration(source), Err(DeriveError::Syntax(_))));
        assert!(matches!(
            derive_persistent_struct(source),
            Err(DeriveError::Syntax(_))
        ));
    }
}

#[test]
fn the_syntax_error_carries_the_parsers_message() {
    let Err(DeriveError::Syntax(message)) = read_declaration("fn main() {}") else {
        panic!("a syntax error");
    };
    assert!(!message.is_empty());
    assert_eq!(DeriveError::Syntax(message.clone()).message(), message);
}

#[test]
fn deriving_is_reading_then_expanding() {
    for source in [
        "struct Foo { pub foo: u8 }",
        "struct GStruct<T> { foo: T }",
        "struct Empty {}",
        "struct Pair(u8, u8);",
        "struct Unit;",
        "enum Either { Left, Right }",
        "union Bits { a: u32, b: f32 }",
    ] {
        assert_eq!(derive_persistent_struct(source), expand(&read(source)));
    }
}

#[test]
fn every_field_read_from_braces_has_its_name() {
    for source in [
        "struct Foo { pub foo: u8 }",
        "struct Mixed { pub a: u8, r#b: u16, pub(crate) c: u32 }",
        "struct Empty {}",
    ] {
        let Shape::Named(fields) = read(source).shape else {
            panic!("a struct with named fields");
        };
        assert!(fields.iter().all(|field| field.name.is_some()));
        assert!(derive_persistent_struct(source).is_ok());
    }
}

#[test]
fn unsupported_shapes_are_turned_down_with_their_reason() {
    assert_eq!(
        derive_persistent_struct("enum Either { Left, Right }"),
        Err(DeriveError::NotAStruct)
    );
    assert_eq!(
        derive_persistent_struct("union Bits { a: u32, b: f32 }"),
        Err(DeriveError::NotAStruct)
    );
    assert_eq!(
        derive_persistent_struct("struct Pair(u8, u8);"),
        Err(DeriveError::NoNamedFields)
    );
    assert_eq!(
        derive_persistent_struct("struct Unit;"),
        Err(DeriveError::NoNamedFields)
    );
}

#[test]
fn every_field_gets_two_methods_in_order() {
    let source = "struct Config<'a> {
        pub name: &'a str,
        pub(crate) r#type: u8,
        retries: Option<::std::num::NonZeroU32>,
        callback: fn(u8) -> u8,
    }";
    let generated = derive_persistent_struct(source).expect("methods for Config");
    let block = syn::parse_str::<syn::ItemImpl>(&generated).expect("an impl block");
    let names: Vec<String> = block
        .items
        .iter()
        .map(|item| match item {
            syn::ImplItem::Fn(method) => method.sig.ident.to_string(),
            _ => panic!("only methods are generated"),
        })
        .collect();
    assert_eq!(
        names,
        [
            "with_name",
            "with_type",
            "with_retries",
            "with_callback",
            "update_name",
            "update_type",
            "update_retries",
            "update_callback",
        ]
    );
}

struct W<T: Clone> {
    v: T,
}

// What is generated for `W`, written out.
impl<T: Clone> W<T> {
    fn with_v(self, x: T) -> Self {
        Self { v: x, ..self }
    }

    fn update_v(self, f: impl FnOnce(T) -> T) -> Self {
        Self { v: f(self.v), ..self }
    }
}

#[test]
fn a_bound_is_stated_once_and_the_type_named_by_its_parameters() {
    let generated = derive_persistent_struct("struct W<T: Clone> { v: T }").expect("methods");
    let written = "impl<T: Clone> W<T> {
        fn with_v(self, x: T) -> Self {
            Self { v: x, ..self }
        }
        fn update_v(self, f: impl FnOnce(T) -> T) -> Self {
            Self { v: f(self.v), ..self }
        }
    }";
    assert_eq!(
        syn::parse_str::<syn::ItemImpl>(&generated).expect("an impl block"),
        syn::parse_str::<syn::ItemImpl>(written).expect("an impl block")
    );
    assert_eq!(W { v: 1u8 }.with_v(2).v, 2);
    assert_eq!(W { v: 1u8 }.update_v(|v| v + 5).v, 6);
}

#[test]
fn defaults_constants_lifetimes_and_the_where_clause_reach_the_head() {
    let source = "struct Grid<'a, 'b: 'a, T = u8, const N: usize = 4> where T: Copy + 'a {
        rest: &'b str,
        cells: [&'a T; N],
    }";
    let generated = derive_persistent_struct(source).expect("methods");
    let written = "impl<'a, 'b: 'a, T, const N: usize> Grid<'a, 'b, T, N> where T: Copy + 'a {
        fn with_rest(self, x: &'b str) -> Self {
            Self { rest: x, ..self }
        }
        fn with_cells(self, x: [&'a T; N]) -> Self {
            Self { cells: x, ..self }
        }
        fn update_rest(self, f: impl FnOnce(&'b str) -> &'b str) -> Self {
            Self { rest: f(self.rest), ..self }
        }
        fn update_cells(self, f: impl FnOnce([&'a T; N]) -> [&'a T; N]) -> Self {
            Self { cells: f(self.cells), ..self }
        }
    }";
    assert_eq!(
        syn::parse_str::<syn::ItemImpl>(&generated).expect("an impl block"),
        syn::parse_str::<syn::ItemImpl>(written).expect("an impl block")
    );
}

#[test]
fn names_and_types_are_read_in_the_order_written() {
    let source = "pub(crate) struct Mixed { pub a: u8, r#b: u16, pub(crate) c: u32 }";
    let mixed = read(source);
    assert_eq!(mixed.name, "Mixed");
    let Shape::Named(fields) = &mixed.shape else {
        panic!("a struct with named fields");
    };
    let names: Vec<Option<&str>> = fields.iter().map(|f| f.name.as_deref()).collect();
    assert_eq!(names, [Some("a"), Some("r#b"), Some("c")]);
    let types: Vec<&str> = fields.iter().map(|f| f.ty.as_str()).collect();
    assert_eq!(types, ["u8", "u16", "u32"]);
}

#[test]
fn the_generated_block_is_the_hand_written_one() {
    let generated =
        derive_persistent_struct("struct Wide<T> { pub(crate) cells: Vec<T> }").expect("methods");
    let written = "impl<T> Wide<T> {
        pub(crate) fn with_cells(self, x: Vec<T>) -> Self {
            Self { cells: x, ..self }
        }
        pub(crate) fn update_cells(self, f: impl FnOnce(Vec<T>) -> Vec<T>) -> Self {
            Self { cells: f(self.cells), ..self }
        }
    }";
    assert_eq!(
        syn::parse_str::<syn::ItemImpl>(&generated).expect("an impl block"),
        syn::parse_str::<syn::ItemImpl>(written).expect("an impl block")
    );
}
