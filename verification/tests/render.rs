use readonly::args::Args;
use readonly::expand::{readonly, Coercion, Expansion};
use readonly::model::{
    Attribute, Declaration, Field, Generics, Kind, Meta, NodeKind, Shape, TypeExpr, Visibility,
};
use readonly::render::{attributes_to_source, fields_to_source};
use syn::{Expr, Fields, ImplItem, Item, Stmt, Type};

fn text(parts: &[&str]) -> String {
    parts.join("")
}

fn word(text: &str) -> TypeExpr {
    TypeExpr { kind: NodeKind::Tokens, text: text.to_string(), children: vec![] }
}

fn part(ident: &str, arguments: Vec<TypeExpr>) -> TypeExpr {
    TypeExpr { kind: NodeKind::Segment, text: ident.to_string(), children: arguments }
}

fn plain(ident: &str) -> TypeExpr {
    TypeExpr { kind: NodeKind::Path, text: String::new(), children: vec![part(ident, vec![])] }
}

fn of(ident: &str, argument: TypeExpr) -> TypeExpr {
    TypeExpr {
        kind: NodeKind::Path,
        text: String::new(),
        children: vec![part(ident, vec![word("<"), argument, word(">")])],
    }
}

fn member(vis: Visibility, name: &str, ty: TypeExpr) -> Field {
    Field { attrs: vec![], vis, name: Some(name.to_string()), ty }
}

fn plain_generics() -> Generics {
    Generics {
        params: String::new(),
        impl_generics: String::new(),
        ty_generics: String::new(),
        where_clause: String::new(),
    }
}

fn record(ident: &str, fields: Vec<Field>) -> Declaration {
    Declaration {
        attrs: vec![],
        vis: Visibility::Public,
        ident: ident.to_string(),
        generics: plain_generics(),
        kind: Kind::Struct,
        shape: Shape::Named,
        fields,
    }
}

fn expanded(args: Args, input: Declaration) -> Expansion {
    readonly(&args, input).expect("a struct with fields expands")
}

fn items_of(source: &str) -> Vec<Item> {
    syn::parse_file(source).expect("the expansion reads as Rust").items
}

fn hidden_items(item: &Item) -> Vec<Item> {
    let constant = match item {
        Item::Const(constant) => constant,
        _ => panic!("expected the anonymous constant"),
    };
    assert_eq!(constant.ident.to_string(), "_");
    let block = match &*constant.expr {
        Expr::Block(block) => &block.block,
        _ => panic!("expected a block"),
    };
    block
        .stmts
        .iter()
        .map(|stmt| match stmt {
            Stmt::Item(item) => item.clone(),
            _ => panic!("expected an item"),
        })
        .collect()
}

fn is_public(vis: &syn::Visibility) -> bool {
    matches!(vis, syn::Visibility::Public(_))
}

fn is_private(vis: &syn::Visibility) -> bool {
    matches!(vis, syn::Visibility::Inherited)
}

fn path_text(path: &syn::Path) -> String {
    let segments: Vec<String> = path.segments.iter().map(|s| s.ident.to_string()).collect();
    segments.join("::")
}

fn name_of_type(ty: &Type) -> String {
    match ty {
        Type::Path(ty) => path_text(&ty.path),
        _ => panic!("expected a path"),
    }
}

#[test]
fn readme_struct_is_emitted_as_a_pair() {
    let input = record("S", vec![member(Visibility::Public, "n", plain("i32"))]);
    let source = expanded(Args { doc_cfg: None }, input).to_source();
    assert_eq!(
        source,
        text(&[
            "#[repr(C)]\n",
            "pub struct S {\n",
            "n: i32 ,\n",
            "}\n",
            "const _: () = {\n",
            "#[doc(hidden)]\n",
            "#[repr(C)]\n",
            "pub struct ReadOnlyS {\n",
            "pub n: i32 ,\n",
            "}\n",
            "#[doc(hidden)]\n",
            "impl core::ops::Deref for S {\n",
            "type Target = ReadOnlyS;\n",
            "fn deref(&self) -> &Self::Target {\n",
            "unsafe { &*(self as *const Self as *const Self::Target) }\n",
            "}\n",
            "}\n",
            "};\n",
        ])
    );
}

#[test]
fn emitted_pair_reads_as_rust() {
    let input = record("S", vec![member(Visibility::Public, "n", plain("i32"))]);
    let source = expanded(Args { doc_cfg: None }, input).to_source();
    let items = items_of(&source);
    assert_eq!(items.len(), 2);

    let writable = match &items[0] {
        Item::Struct(item) => item,
        _ => panic!("expected the writable struct"),
    };
    assert_eq!(writable.ident.to_string(), "S");
    assert!(is_public(&writable.vis));
    assert_eq!(writable.attrs.len(), 1);
    assert!(writable.attrs[0].path().is_ident("repr"));
    let fields: Vec<&syn::Field> = writable.fields.iter().collect();
    assert_eq!(fields.len(), 1);
    assert_eq!(fields[0].ident.as_ref().unwrap().to_string(), "n");
    assert!(is_private(&fields[0].vis));
    assert_eq!(name_of_type(&fields[0].ty), "i32");

    let hidden = hidden_items(&items[1]);
    assert_eq!(hidden.len(), 2);
    let view = match &hidden[0] {
        Item::Struct(item) => item,
        _ => panic!("expected the view"),
    };
    assert_eq!(view.ident.to_string(), "ReadOnlyS");
    assert!(is_public(&view.vis));
    assert_eq!(view.attrs.len(), 2);
    assert!(view.attrs[0].path().is_ident("doc"));
    assert!(view.attrs[1].path().is_ident("repr"));
    let fields: Vec<&syn::Field> = view.fields.iter().collect();
    assert_eq!(fields.len(), 1);
    assert_eq!(fields[0].ident.as_ref().unwrap().to_string(), "n");
    assert!(is_public(&fields[0].vis));

    let coercion = match &hidden[1] {
        Item::Impl(item) => item,
        _ => panic!("expected the coercion"),
    };
    let (_, deref, _) = coercion.trait_.as_ref().expect("an impl of a trait");
    assert_eq!(path_text(deref), "core::ops::Deref");
    assert_eq!(name_of_type(&coercion.self_ty), "S");
    assert_eq!(coercion.items.len(), 2);
    match &coercion.items[0] {
        ImplItem::Type(target) => {
            assert_eq!(target.ident.to_string(), "Target");
            assert_eq!(name_of_type(&target.ty), "ReadOnlyS");
        },
        _ => panic!("expected the target type"),
    }
    match &coercion.items[1] {
        ImplItem::Fn(method) => {
            assert_eq!(method.sig.ident.to_string(), "deref");
            assert!(method.sig.unsafety.is_none());
            assert_eq!(method.sig.inputs.len(), 1);
        },
        _ => panic!("expected the method"),
    }
}

#[test]
fn generic_struct_reads_as_rust() {
    // pub struct Tree<'a, T: Clone> where T: 'a {
    //     #[readonly] children: &'a [Self],
    //     pub(crate) value: T,
    // }
    let mut input = record(
        "Tree",
        vec![
            Field {
                attrs: vec![Attribute { path: "readonly".to_string(), meta: Meta::Path }],
                vis: Visibility::Inherited,
                name: Some("children".to_string()),
                ty: TypeExpr {
                    kind: NodeKind::Group,
                    text: String::new(),
                    children: vec![word("& 'a ["), plain("Self"), word("]")],
                },
            },
            member(Visibility::Restricted("crate".to_string()), "value", plain("T")),
        ],
    );
    input.generics = Generics {
        params: "<'a, T: Clone>".to_string(),
        impl_generics: "<'a, T: Clone>".to_string(),
        ty_generics: "<'a, T>".to_string(),
        where_clause: "where T: 'a".to_string(),
    };
    let source = expanded(Args { doc_cfg: None }, input).to_source();
    let items = items_of(&source);

    let writable = match &items[0] {
        Item::Struct(item) => item,
        _ => panic!("expected the writable struct"),
    };
    assert_eq!(writable.generics.params.len(), 2);
    assert!(writable.generics.where_clause.is_some());
    let fields: Vec<&syn::Field> = writable.fields.iter().collect();
    assert!(fields[0].attrs.is_empty());
    assert!(is_private(&fields[0].vis));
    assert!(matches!(fields[1].vis, syn::Visibility::Restricted(_)));

    let hidden = hidden_items(&items[1]);
    let view = match &hidden[0] {
        Item::Struct(item) => item,
        _ => panic!("expected the view"),
    };
    assert_eq!(view.ident.to_string(), "ReadOnlyTree");
    let fields: Vec<&syn::Field> = view.fields.iter().collect();
    assert!(is_public(&fields[0].vis));
    let element = match &fields[0].ty {
        Type::Reference(reference) => match &*reference.elem {
            Type::Slice(slice) => &*slice.elem,
            _ => panic!("expected a slice"),
        },
        _ => panic!("expected a reference"),
    };
    assert_eq!(name_of_type(element), "ReadOnlyTree");
    match element {
        Type::Path(ty) => {
            assert!(!ty.path.segments[0].arguments.is_none());
        },
        _ => panic!("expected a path"),
    }

    let coercion = match &hidden[1] {
        Item::Impl(item) => item,
        _ => panic!("expected the coercion"),
    };
    assert_eq!(coercion.generics.params.len(), 2);
    assert!(coercion.generics.where_clause.is_some());
    assert_eq!(name_of_type(&coercion.self_ty), "Tree");
}

#[test]
fn tuple_struct_reads_as_rust() {
    let input = Declaration {
        attrs: vec![Attribute {
            path: "derive".to_string(),
            meta: Meta::List {
                words: vec!["Clone".to_string(), "Copy".to_string()],
                tokens: "(Clone, Copy)".to_string(),
            },
        }],
        vis: Visibility::Restricted("in crate::units".to_string()),
        ident: "Meters".to_string(),
        generics: Generics {
            params: "<T>".to_string(),
            impl_generics: "<T>".to_string(),
            ty_generics: "<T>".to_string(),
            where_clause: "where T: Copy".to_string(),
        },
        kind: Kind::Struct,
        shape: Shape::Unnamed,
        fields: vec![
            Field { attrs: vec![], vis: Visibility::Public, name: None, ty: plain("T") },
            Field { attrs: vec![], vis: Visibility::Inherited, name: None, ty: of("Vec", plain("u8")) },
        ],
    };
    let source = expanded(Args { doc_cfg: None }, input).to_source();
    assert!(source.starts_with(&text(&[
        "#[derive(Clone, Copy)]\n",
        "#[repr(C)]\n",
        "pub(in crate::units) struct Meters<T>(\n",
        "T ,\n",
        "Vec < u8 > ,\n",
        ") where T: Copy;\n",
    ])));
    let items = items_of(&source);
    let writable = match &items[0] {
        Item::Struct(item) => item,
        _ => panic!("expected the writable struct"),
    };
    assert!(matches!(writable.fields, Fields::Unnamed(_)));
    assert_eq!(writable.fields.len(), 2);
    let hidden = hidden_items(&items[1]);
    let view = match &hidden[0] {
        Item::Struct(item) => item,
        _ => panic!("expected the view"),
    };
    let fields: Vec<&syn::Field> = view.fields.iter().collect();
    assert!(is_public(&fields[0].vis));
    assert!(is_private(&fields[1].vis));
}

#[test]
fn documentation_condition_is_emitted_first() {
    let mut input = record("S", vec![member(Visibility::Public, "n", plain("i32"))]);
    input.attrs.push(Attribute {
        path: "doc".to_string(),
        meta: Meta::NameValue { value: "\" A number.\"".to_string() },
    });
    let source = expanded(Args { doc_cfg: Some("docsrs".to_string()) }, input).to_source();
    assert!(source.starts_with(&text(&[
        "#[cfg(docsrs)]\n",
        "#[doc = \" A number.\"]\n",
        "pub struct S {\n",
        "pub n: i32 ,\n",
        "}\n",
        "#[cfg(not(docsrs))]\n",
        "#[doc = \" A number.\"]\n",
        "#[repr(C)]\n",
        "pub struct S {\n",
        "n: i32 ,\n",
        "}\n",
        "const _: () = {\n",
    ])));
    let items = items_of(&source);
    assert_eq!(items.len(), 3);
    assert!(matches!(items[0], Item::Struct(_)));
    assert!(matches!(items[1], Item::Struct(_)));
    assert!(matches!(items[2], Item::Const(_)));
}

#[test]
fn types_are_written_token_by_token() {
    assert_eq!(plain("i32").to_source(), "i32 ");
    assert_eq!(of("Option", of("Box", plain("Self"))).to_source(), "Option < Box < Self > > ");
    let nested = TypeExpr {
        kind: NodeKind::Path,
        text: String::new(),
        children: vec![part("std", vec![]), part("vec", vec![]), part("Vec", vec![word("<"), plain("u8"), word(">")])],
    };
    assert_eq!(nested.to_source(), "std :: vec :: Vec < u8 > ");
    let global = TypeExpr {
        kind: NodeKind::GlobalPath,
        text: String::new(),
        children: vec![part("core", vec![]), part("ffi", vec![]), part("c_int", vec![])],
    };
    assert_eq!(global.to_source(), ":: core :: ffi :: c_int ");
    let empty = TypeExpr { kind: NodeKind::Group, text: String::new(), children: vec![] };
    assert_eq!(empty.to_source(), "");
    for ty in [nested, global, of("Option", of("Box", plain("Self")))] {
        let source = ty.to_source();
        assert!(syn::parse_str::<Type>(&source).is_ok(), "{}", source);
    }
}

#[test]
fn attributes_and_visibilities_are_written_as_given() {
    let attrs = vec![
        Attribute { path: "must_use".to_string(), meta: Meta::Path },
        Attribute {
            path: "repr".to_string(),
            meta: Meta::List {
                words: vec!["C".to_string(), "packed".to_string()],
                tokens: "(C, packed(2))".to_string(),
            },
        },
        Attribute {
            path: "doc".to_string(),
            meta: Meta::NameValue { value: "\"text\"".to_string() },
        },
    ];
    assert_eq!(
        attributes_to_source(&attrs),
        "#[must_use]\n#[repr(C, packed(2))]\n#[doc = \"text\"]\n"
    );
    assert_eq!(attributes_to_source(&vec![]), "");
    assert_eq!(attrs[0].to_source(), "#[must_use]\n");
    assert_eq!(Visibility::Inherited.to_source(), "");
    assert_eq!(Visibility::Public.to_source(), "pub ");
    assert_eq!(Visibility::Restricted("super".to_string()).to_source(), "pub(super) ");
}

#[test]
fn fields_are_written_one_by_line() {
    let fields = vec![
        member(Visibility::Public, "a", plain("u8")),
        Field {
            attrs: vec![Attribute { path: "allow".to_string(), meta: Meta::Path }],
            vis: Visibility::Inherited,
            name: None,
            ty: plain("u16"),
        },
    ];
    assert_eq!(fields_to_source(&fields), "pub a: u8 ,\n#[allow]\nu16 ,\n");
    assert_eq!(fields[0].to_source(), "pub a: u8 ,\n");
    assert_eq!(fields_to_source(&vec![]), "");
}

#[test]
fn unit_declaration_ends_with_a_semicolon() {
    let mut unit = record("Marker", vec![]);
    unit.shape = Shape::Unit;
    assert_eq!(unit.to_source(), "pub struct Marker;\n");
    unit.generics.params = "<T>".to_string();
    unit.generics.where_clause = "where T: Sized".to_string();
    unit.vis = Visibility::Inherited;
    assert_eq!(unit.to_source(), "struct Marker<T> where T: Sized;\n");
}

#[test]
fn coercion_names_both_types() {
    let coercion = Coercion {
        source: "Pair".to_string(),
        target: "ReadOnlyPair".to_string(),
        generics: Generics {
            params: "<A, B = A>".to_string(),
            impl_generics: "<A, B>".to_string(),
            ty_generics: "<A, B>".to_string(),
            where_clause: "where A: Copy".to_string(),
        },
    };
    assert_eq!(
        coercion.to_source(),
        text(&[
            "#[doc(hidden)]\n",
            "impl<A, B> core::ops::Deref for Pair<A, B> where A: Copy {\n",
            "type Target = ReadOnlyPair<A, B>;\n",
            "fn deref(&self) -> &Self::Target {\n",
            "unsafe { &*(self as *const Self as *const Self::Target) }\n",
            "}\n",
            "}\n",
        ])
    );
}
