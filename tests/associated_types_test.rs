use proffer::{AnnotationExt, AssociatedTypeDeclaration, AssociatedTypeDefinition, SrcCode};

#[test]
fn declaration_without_bounds() {
    assert_eq!(AssociatedTypeDeclaration::new("Item").generate(), "type Item;");
}

#[test]
fn declaration_with_bounds_and_annotation() {
    let mut d = AssociatedTypeDeclaration::new("Item");
    d.add_trait_bounds(vec!["Clone", "Send"]).add_annotation("// the item");
    assert_eq!(d.generate(), "// the item\ntype Item: Clone + Send;");
}

#[test]
fn definition_renders_assignment() {
    let mut d = AssociatedTypeDefinition::new("Item", "u32");
    assert_eq!(d.generate(), "type Item = u32;");
    d.add_annotation("#[doc(hidden)]");
    assert_eq!(d.generate(), "#[doc(hidden)]\ntype Item = u32;");
}
