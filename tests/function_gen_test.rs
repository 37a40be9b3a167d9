use proffer::{AnnotationExt, Function, FunctionBody, FunctionSignature, Generic, Parameter, SrcCode};

fn normalize_whitespace(s: &str) -> String {
    s.split("\n")
        .map(|l| l.trim())
        .filter(|l| l.len() > 0)
        .collect::<String>()
}

#[test]
fn function_gen_basic() {
    let function = Function::new("foo");

    let expected = r#"
        fn foo() -> ()
        {
        }
    "#;

    let src_code = function.generate();
    println!("{}", &src_code);
    assert_eq!(
        normalize_whitespace(expected),
        normalize_whitespace(&src_code)
    );
}

#[test]
fn function_gen_parameters() {
    let mut function = Function::new("foo");
    function
        .set_is_pub(true)
        .add_parameter(Parameter::new("bar1", "usize"))
        .add_parameter(Parameter::new("bar2", "&str"));
    let expected = r#"
        pub fn foo(bar1: usize, bar2: &str) -> ()
        {
        }
    "#;

    let src_code = function.generate();
    println!("{}", &src_code);
    assert_eq!(
        normalize_whitespace(expected),
        normalize_whitespace(&src_code)
    );
}

#[test]
fn function_with_generic() {
    let mut function = Function::new("foo");
    function
        .set_is_pub(true)
        .add_parameter(Parameter::new("bar1", "T"))
        .add_parameter(Parameter::new("bar2", "S"))
        .add_generic(Generic::new("T").add_trait_bounds(vec!["ToString", "Number"]).to_owned())
        .add_generic(Generic::new("S").add_trait_bounds(vec!["Display"]).to_owned());
    let expected = r#"
        pub fn foo<T, S>(bar1: T, bar2: S) -> ()
            where
                T: ToString + Number,
                S: Display,
        {
        }
    "#;

    let src_code = function.generate();
    println!("{}", &src_code);
    assert_eq!(
        normalize_whitespace(expected),
        normalize_whitespace(&src_code)
    );
}

#[test]
fn function_with_generic_no_bounds() {
    let mut function = Function::new("foo");
    function
        .set_is_pub(true)
        .add_parameter(Parameter::new("bar1", "T"))
        .add_parameter(Parameter::new("bar2", "S"))
        .add_generic(Generic::new("T").add_trait_bounds(Vec::new()).to_owned())
        .add_generic(Generic::new("S").add_trait_bounds(Vec::new()).to_owned());
    let expected = r#"
        pub fn foo<T, S>(bar1: T, bar2: S) -> ()
            where
                T: ,
                S: ,
        {
        }
    "#;

    let src_code = function.generate();
    println!("{}", &src_code);
    assert_eq!(
        normalize_whitespace(expected),
        normalize_whitespace(&src_code)
    );
}

#[test]
fn signature_scenario_compute() {
    let mut function = Function::new("compute");
    function
        .set_is_pub(true)
        .add_parameter(Parameter::new("x", "i64"))
        .add_parameter(Parameter::new("y", "i64"))
        .set_return_ty("i64");
    assert_eq!(
        function.generate(),
        "pub fn compute(x: i64, y: i64) -> i64\n{\n\n}"
    );
}

#[test]
fn async_function_with_annotations_and_body() {
    let mut function = Function::new("run");
    function
        .set_is_async(true)
        .set_body("let x = 1;")
        .add_body_annotation("#[allow(unused)]")
        .add_annotation("#[inline]");
    assert_eq!(
        function.generate(),
        "#[inline]\nasync fn run() -> ()\n{\n#[allow(unused)]\nlet x = 1;\n}"
    );
}

#[test]
fn parameter_with_annotation() {
    let mut p = Parameter::new("foo", "usize");
    assert_eq!(p.generate(), "foo: usize");
    p.add_annotations(vec!["#[a]", "#[b]"]);
    assert_eq!(p.generate(), "#[a] #[b] foo: usize");
}

#[test]
fn signature_setters() {
    let mut sig = FunctionSignature::new("a");
    sig.set_name("b")
        .set_return_ty(Some("u8"))
        .set_is_pub(true)
        .add_parameter(Parameter::new("x", "u8"))
        .add_generic(Generic::new("T"));
    assert_eq!(sig.generate(), "pub fn b<T>(x: u8) -> u8\nwhere\nT: ,\n");
    sig.set_return_ty(None).set_is_async(true);
    assert!(sig.generate().starts_with("pub async fn b<T>(x: u8) -> ()"));
}

#[test]
fn body_with_annotations() {
    let mut body = FunctionBody::new("x + 1");
    body.add_annotation("// add one");
    assert_eq!(body.generate(), "// add one\nx + 1");
}

#[test]
fn render_is_idempotent() {
    let mut function = Function::new("f");
    function.add_parameter(Parameter::new("a", "u8"));
    let first = function.generate();
    let second = function.generate();
    assert_eq!(first, second);
}
