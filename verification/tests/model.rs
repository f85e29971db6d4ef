use readonly::diagnostic::{Anchor, Diagnostic, ErrorKind};
use readonly::model::{
    Attribute, Declaration, Field, Generics, Kind, Meta, NodeKind, Shape, TypeExpr, Visibility,
};
use readonly::text::{joined, text_is};

fn sample_type() -> TypeExpr {
    TypeExpr {
        kind: NodeKind::Path,
        text: String::new(),
        children: vec![TypeExpr {
            kind: NodeKind::Segment,
            text: "Vec".to_string(),
            children: vec![
                TypeExpr { kind: NodeKind::Tokens, text: "<".to_string(), children: vec![] },
                TypeExpr {
                    kind: NodeKind::Path,
                    text: String::new(),
                    children: vec![TypeExpr {
                        kind: NodeKind::Segment,
                        text: "u8".to_string(),
                        children: vec![],
                    }],
                },
                TypeExpr { kind: NodeKind::Tokens, text: ">".to_string(), children: vec![] },
            ],
        }],
    }
}

fn sample_declaration() -> Declaration {
    Declaration {
        attrs: vec![
            Attribute {
                path: "derive".to_string(),
                meta: Meta::List {
                    words: vec!["Debug".to_string(), "Clone".to_string()],
                    tokens: "(Debug, Clone)".to_string(),
                },
            },
            Attribute {
                path: "doc".to_string(),
                meta: Meta::NameValue { value: "\" Bytes.\"".to_string() },
            },
        ],
        vis: Visibility::Restricted("crate".to_string()),
        ident: "Bytes".to_string(),
        generics: Generics {
            params: "<const N: usize>".to_string(),
            impl_generics: "<const N: usize>".to_string(),
            ty_generics: "<N>".to_string(),
            where_clause: String::new(),
        },
        kind: Kind::Struct,
        shape: Shape::Named,
        fields: vec![Field {
            attrs: vec![Attribute { path: "readonly".to_string(), meta: Meta::Path }],
            vis: Visibility::Public,
            name: Some("data".to_string()),
            ty: sample_type(),
        }],
    }
}

#[test]
fn clone_of_a_type_is_equal() {
    let ty = sample_type();
    assert_eq!(ty.clone(), ty);
}

#[test]
fn clone_of_a_declaration_is_equal() {
    let declaration = sample_declaration();
    let copy = declaration.clone();
    assert_eq!(copy, declaration);
    assert_eq!(copy.fields[0].clone(), declaration.fields[0]);
    assert_eq!(copy.attrs[0].clone(), declaration.attrs[0]);
    assert_eq!(copy.generics.clone(), declaration.generics);
    assert_eq!(copy.vis.clone(), declaration.vis);
}

#[test]
fn clone_of_a_diagnostic_is_equal() {
    let diagnostic = Diagnostic::unexpected_token(3, 1);
    assert_eq!(diagnostic.clone(), diagnostic);
}

#[test]
fn diagnostics_carry_their_messages() {
    assert_eq!(
        Diagnostic::not_a_struct(),
        Diagnostic {
            kind: ErrorKind::NotAStruct,
            anchor: Anchor::CallSite,
            message: "input must be a struct".to_string(),
        }
    );
    assert_eq!(
        Diagnostic::empty_struct(),
        Diagnostic {
            kind: ErrorKind::EmptyStruct,
            anchor: Anchor::CallSite,
            message: "input must be a struct with fields".to_string(),
        }
    );
    assert_eq!(
        Diagnostic::unexpected_token(2, 5),
        Diagnostic {
            kind: ErrorKind::MalformedFieldAnnotation,
            anchor: Anchor::FieldAttribute { field: 2, attr: 5 },
            message: "unexpected token".to_string(),
        }
    );
    assert_eq!(
        Diagnostic::configuration(1, "expected `=`"),
        Diagnostic {
            kind: ErrorKind::MalformedConfiguration,
            anchor: Anchor::Argument(1),
            message: "expected `=`".to_string(),
        }
    );
}

#[test]
fn is_ident_asks_for_a_single_plain_segment() {
    let simple = |name: &str| TypeExpr {
        kind: NodeKind::Path,
        text: String::new(),
        children: vec![TypeExpr {
            kind: NodeKind::Segment,
            text: name.to_string(),
            children: vec![],
        }],
    };
    assert!(simple("Self").is_ident("Self"));
    assert!(simple("u8").is_ident("u8"));
    assert!(!simple("Self").is_ident("self"));
    assert!(!simple("Selfish").is_ident("Self"));
    assert!(!sample_type().is_ident("Vec"));
    let mut global = simple("Self");
    global.kind = NodeKind::GlobalPath;
    assert!(!global.is_ident("Self"));
    let mut two = simple("Self");
    two.children.push(two.children[0].clone());
    assert!(!two.is_ident("Self"));
}

#[test]
fn text_helpers_compare_and_join() {
    assert!(text_is(&"readonly".to_string(), "readonly"));
    assert!(!text_is(&"readonly".to_string(), "Readonly"));
    assert!(!text_is(&"readonly".to_string(), "readonly "));
    assert!(text_is(&String::new(), ""));
    assert_eq!(joined("ReadOnly", "S"), "ReadOnlyS");
    assert_eq!(joined("", ""), "");
}
