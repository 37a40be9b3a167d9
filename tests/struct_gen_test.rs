use proffer::{AnnotationExt, DocExt, Field, FieldExt, Generic, SrcCode, Struct};

fn normalize_whitespace(s: &str) -> String {
    s.split("\n")
        .map(|l| l.trim())
        .filter(|l| l.len() > 0)
        .collect::<String>()
}

#[test]
fn struct_gen_test_basic_gen() {
    let mut struct_ = Struct::new("Basic");
    struct_.set_is_pub(true);

    let mut f = Field::new("field1", "String");
    f.set_is_pub(true);
    f.add_annotation("#[serde = w]");
    f.add_doc("/// Some example documentation");
    f.add_docs(vec!["/// Another line", "/// and another"]);
    struct_.add_field(f);

    struct_.add_field(Field::new("field2", "usize").set_is_pub(true).to_owned());
    let expected = r#"
        pub struct Basic {
            /// Some example documentation
            /// Another line
            /// and another
            #[serde = w]
            pub field1: String,
            pub field2: usize,
         }
        "#
    .to_owned();
    let src_code = struct_.generate();
    println!("{}", &src_code);
    assert_eq!(
        normalize_whitespace(&src_code),
        normalize_whitespace(&expected)
    );
}

#[test]
fn generic_gen() {
    let mut s = Struct::new("Generic");
    s.set_is_pub(true);
    s.add_generic(Generic::new("T").add_trait_bounds(vec!["ToString"]).to_owned());
    s.add_generic(Generic::new("S").add_trait_bounds(vec!["ToString", "Number"]).to_owned());
    s.add_field(Field::new("field1", "S").set_is_pub(false).to_owned());
    s.add_field(Field::new("field2", "T").set_is_pub(false).to_owned());
    let src_code = s.generate();
    println!("{}", &src_code);
    let expected = r#"
        pub struct Generic<T, S>
            where
                T: ToString,
                S: ToString + Number,
        {
            field1: S,
            field2: T,
        }
    "#;
    let src_code = s.generate();
    assert_eq!(
        normalize_whitespace(&src_code),
        normalize_whitespace(&expected)
    );

    // Add basic impl block.
}

#[test]
fn test_struct_gen() {
    let mut struct_ = Struct::new("Basic");

    let mut f = Field::new("field1", "String");
    f.add_annotation("#[serde = w]");
    f.add_doc("/// Some example documentation");
    struct_.add_field(f);

    struct_.add_field(Field::new("field2", "usize"));
    let expected = r#"
            pub struct Basic {
                pub field: usize
            }
        "#.to_owned();
    println!("{}", struct_.generate());
    //assert_eq!(src_code, expected);
    let _ = expected;
}

#[test]
fn bare_field_renders_declaration_only() {
    assert_eq!(Field::new("foo", "usize").generate(), "foo: usize,\n");
    assert_eq!(
        Field::new("foo", "usize").set_is_pub(true).generate(),
        "pub foo: usize,\n"
    );
}

#[test]
fn field_docs_come_before_annotations() {
    let mut f = Field::new("x", "u8");
    f.add_annotations(vec!["#[a]", "// c"]);
    f.add_doc("/// d");
    assert_eq!(f.generate(), "/// d\n#[a]\n// c\nx: u8,\n");
}

#[test]
fn struct_fields_keep_insertion_order() {
    let mut s = Struct::new("S");
    s.add_fields(vec![Field::new("zeta", "u8"), Field::new("alpha", "u16")]);
    s.add_field(Field::new("mid", "u32"));
    let out = s.generate();
    assert_eq!(out, "struct S {\nzeta: u8,\nalpha: u16,\nmid: u32,\n}");
    let z = out.find("zeta: u8,").unwrap();
    let a = out.find("alpha: u16,").unwrap();
    let m = out.find("mid: u32,").unwrap();
    assert!(z < a && a < m);
}

#[test]
fn struct_fields_render_back_to_back() {
    let mut s = Struct::new("S");
    let mut first = Field::new("x", "y");
    first.add_doc("/// first");
    let second = Field::new("x", "y");
    let joined = first.generate() + &second.generate();
    s.add_field(first);
    s.add_field(second);
    let out = s.generate();
    assert!(out.contains(&joined));
    assert_eq!(out, format!("struct S {{\n{}}}", joined));
}

#[test]
fn struct_docs_and_empty_body() {
    let mut s = Struct::new("Unit");
    s.add_docs(vec!["/// one", "/// two"]);
    assert_eq!(s.generate(), "/// one\n/// two\nstruct Unit {\n}");
}
