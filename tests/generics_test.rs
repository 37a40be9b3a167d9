use proffer::{Generic, Generics, SrcCode};

#[test]
fn empty_generics_render_nothing() {
    let g = Generics::new(Vec::new());
    assert!(g.is_empty());
    assert_eq!(g.len(), 0);
    assert_eq!(g.generate(), "");
}

#[test]
fn generic_without_bounds_keeps_empty_right_hand_side() {
    let mut g = Generics::new(Vec::new());
    g.add_generic(Generic::new("T"));
    assert_eq!(g.generate(), "<T>\nwhere\nT: ,\n");
    assert_eq!(Generic::new("T").generate(), "T: ,");
}

#[test]
fn constraint_lines_follow_insertion_order() {
    let g = Generics::new(vec![
        Generic::new("B").add_trait_bounds(vec!["X", "X"]).to_owned(),
        Generic::new("A").add_trait_bounds(vec!["Y"]).to_owned(),
    ]);
    assert_eq!(g.len(), 2);
    assert!(!g.is_empty());
    assert_eq!(g.generate(), "<B, A>\nwhere\nB: X + X,\nA: Y,\n");
}
