use ast_builder::ast::{Attribute, FieldData, FieldKind, Ty, Visibility, DUMMY_NODE_ID};
use ast_builder::ident::Ident;
use ast_builder::span::{Span, Spanned};
use ast_builder::struct_field::StructFieldBuilder;

fn ty_i32() -> Ty {
    Ty { span: Span::dummy(), path: "i32".to_string() }
}

fn attr_word(name: &str) -> Attribute {
    Attribute { span: Span::dummy(), name: name.to_string(), args: Vec::new() }
}

#[test]
fn named_field_inherited() {
    let t = ty_i32();
    let field = StructFieldBuilder::named("x").build_ty(t.clone());
    match &field.node.kind {
        FieldKind::Named(id, vis) => {
            assert_eq!(id.name, "x");
            assert_eq!(*vis, Visibility::Inherited);
        }
        FieldKind::Unnamed(_) => panic!("expected a named field"),
    }
    assert_eq!(field.node.ty, t);
    assert_eq!(field.node.id, DUMMY_NODE_ID);
    assert!(field.node.attrs.is_empty());
    assert_eq!(field.span, Span::dummy());
}

#[test]
fn unnamed_field_inherited() {
    let t = ty_i32();
    let field = StructFieldBuilder::unnamed().build_ty(t.clone());
    assert_eq!(field.node.kind, FieldKind::Unnamed(Visibility::Inherited));
    assert_eq!(field.node.ty, t);
    assert!(field.node.attrs.is_empty());
}

#[test]
fn named_field_public() {
    let field = StructFieldBuilder::named("x").pub_().build_ty(ty_i32());
    match &field.node.kind {
        FieldKind::Named(_, vis) => assert_eq!(*vis, Visibility::Public),
        FieldKind::Unnamed(_) => panic!("expected a named field"),
    }
}

#[test]
fn unnamed_field_public() {
    let field = StructFieldBuilder::unnamed().pub_().build_ty(ty_i32());
    assert_eq!(field.node.kind, FieldKind::Unnamed(Visibility::Public));
}

#[test]
fn make_public_twice_same_as_once() {
    let once = StructFieldBuilder::named("x").pub_().build_ty(ty_i32());
    let twice = StructFieldBuilder::named("x").pub_().pub_().build_ty(ty_i32());
    assert_eq!(once, twice);
}

#[test]
fn attrs_bulk_order_preserved() {
    let a1 = attr_word("first");
    let a2 = attr_word("second");
    let field = StructFieldBuilder::named("x")
        .with_attrs(vec![a1.clone(), a2.clone()])
        .build_ty(ty_i32());
    assert_eq!(field.node.attrs, vec![a1, a2]);
}

#[test]
fn attrs_nested_order_preserved() {
    let field = StructFieldBuilder::named("x")
        .attr()
        .build("first".to_string())
        .attr()
        .build("second".to_string())
        .build_ty(ty_i32());
    assert_eq!(field.node.attrs.len(), 2);
    assert_eq!(field.node.attrs[0].name, "first");
    assert_eq!(field.node.attrs[1].name, "second");
}

#[test]
fn attrs_bulk_then_nested_order_preserved() {
    let a1 = attr_word("first");
    let field = StructFieldBuilder::named("x")
        .with_attrs(vec![a1.clone()])
        .attr()
        .build("second".to_string())
        .build_ty(ty_i32());
    assert_eq!(field.node.attrs.len(), 2);
    assert_eq!(field.node.attrs[0], a1);
    assert_eq!(field.node.attrs[1].name, "second");
}

#[test]
fn span_recorded_on_field() {
    let sp = Span { lo: 3, hi: 9 };
    let field = StructFieldBuilder::named("x").span(sp).build_ty(ty_i32());
    assert_eq!(field.span, sp);
}

#[test]
fn span_last_write_wins() {
    let first = Span { lo: 1, hi: 2 };
    let second = Span { lo: 7, hi: 8 };
    let field = StructFieldBuilder::named("x").span(first).span(second).build_ty(ty_i32());
    assert_eq!(field.span, second);
}

#[test]
fn span_handed_down_to_nested_attr() {
    let sp = Span { lo: 4, hi: 5 };
    let field = StructFieldBuilder::named("x")
        .span(sp)
        .attr()
        .build("cold".to_string())
        .build_ty(ty_i32());
    assert_eq!(field.node.attrs[0].span, sp);
    assert_eq!(field.span, sp);
}

#[test]
fn end_to_end_named_public_serde_default() {
    let field = StructFieldBuilder::named("x")
        .pub_()
        .attr()
        .arg("default".to_string())
        .build("serde".to_string())
        .build_ty(ty_i32());
    let expected = Spanned {
        span: Span::dummy(),
        node: FieldData {
            kind: FieldKind::Named(Ident { name: "x".to_string() }, Visibility::Public),
            id: DUMMY_NODE_ID,
            ty: Ty { span: Span::dummy(), path: "i32".to_string() },
            attrs: vec![Attribute {
                span: Span::dummy(),
                name: "serde".to_string(),
                args: vec!["default".to_string()],
            }],
        },
    };
    assert_eq!(field, expected);
}
