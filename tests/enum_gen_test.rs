use proffer::{Enum, Generic, SrcCode, Variant};
use syn::ItemEnum;

fn norm_whitespace(s: &str) -> String {
    s.split("\n")
        .map(|l| l.trim())
        .filter(|l| l.len() > 0)
        .collect::<String>()
}

#[test]
fn gen_enum_basic() {
    let e = Enum::new("Foo")
        .add_variant(Variant::new("A"))
        .add_variant(Variant::new("B"))
        .set_is_pub(true)
        .to_owned();

    let src_code = e.generate();
    println!("{}", &src_code);

    let expected = r#"
        pub enum Foo
        {
            A,
            B,
        }
    "#;

    assert_eq!(norm_whitespace(expected), norm_whitespace(&src_code));
    syn::parse_str::<ItemEnum>(&src_code).unwrap();
}

#[test]
fn gen_enum_with_generic() {
    let e = Enum::new("Foo")
        .add_variant(Variant::new("A"))
        .add_variant(Variant::new("B").set_inner(Some("(T)")).to_owned())
        .add_generic(Generic::new("T"))
        .to_owned();

    let src_code = e.generate();
    println!("{}", &src_code);

    let expected = r#"
        enum Foo<T>
            where
                T: ,
        {
            A,
            B(T),
        }
    "#;
    assert_eq!(norm_whitespace(expected), norm_whitespace(&src_code));
    syn::parse_str::<ItemEnum>(&src_code).unwrap();
}

#[test]
fn enum_exact_text() {
    let mut e = Enum::new("E");
    e.add_variant(Variant::new("X"));
    assert_eq!(e.generate(), "enum E\n{\nX,\n}");
    let empty = Enum::new("Empty");
    assert_eq!(empty.generate(), "enum Empty\n{\n}");
}

#[test]
fn variant_payload_can_be_removed() {
    let mut v = Variant::new("B");
    v.set_inner(Some("{ x: u8 }"));
    assert_eq!(v.generate(), "B{ x: u8 },");
    v.set_inner(None);
    assert_eq!(v.generate(), "B,");
}
