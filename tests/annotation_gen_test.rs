use proffer::{Annotation, ClassificationError, SrcCode};

#[test]
fn test_annotation_attr() {
    let ann = "#[attr]";
    let annotation = Annotation::from(ann);
    match &annotation {
        &Annotation::ItemAttr(ref s) => assert_eq!(&s, &ann),
        _ => panic!("Expected to match to Annotation::ItemAttr, got {:?}", ann),
    };
    assert_eq!(&annotation.generate(), ann);
}

#[test]
fn test_annotation_mod_attr() {
    let ann = "#![foo_attr]";
    let annotation = Annotation::from(ann);
    match &annotation {
        &Annotation::ScopeAttr(ref s) => assert_eq!(&s, &ann),
        _ => panic!("Expected to match to Annotation::ScopeAttr, got {:?}", ann),
    };
    assert_eq!(&annotation.generate(), ann);
}

#[test]
fn annotation_comment_and_doc_variants() {
    assert!(matches!(Annotation::from("// note"), Annotation::Comment(_)));
    assert!(matches!(Annotation::from("/// Does x"), Annotation::Doc(_)));
    assert!(matches!(Annotation::from("//! About"), Annotation::ModuleDoc(_)));
    assert!(matches!(Annotation::from("//"), Annotation::Comment(_)));
    assert!(matches!(Annotation::from("#"), Annotation::ItemAttr(_)));
    assert!(matches!(Annotation::from("#!"), Annotation::ScopeAttr(_)));
}

#[test]
fn annotation_round_trip() {
    for line in ["#[derive(Debug)]", "#![allow(unused)]", "// c", "/// d", "//! m"] {
        let a = Annotation::classify(line).unwrap();
        assert_eq!(a.generate(), line);
    }
}

#[test]
fn annotation_misclassification() {
    match Annotation::classify("not-a-valid-prefix") {
        Err(ClassificationError::UnrecognizedAnnotation(s)) => {
            assert_eq!(s, "not-a-valid-prefix")
        }
        Ok(a) => panic!("unexpected annotation {:?}", a),
    }
    assert!(Annotation::classify("").is_err());
    assert!(Annotation::classify("/").is_err());
    assert!(Annotation::classify(" #[x]").is_err());
}
