//! The model of a type declaration that the attribute works on.
//!
//! Every type here has a view (`@`) made of sequences and plain values; the
//! contracts of the crate are stated over those views.

use vstd::prelude::*;

verus! {

/// How far a declaration or a field can be seen.
#[derive(Debug, PartialEq, Eq)]
pub enum Visibility {
    /// No modifier: visible in the defining scope only.
    Inherited,
    /// `pub`.
    Public,
    /// `pub(..)`, with what stands between the parentheses.
    Restricted(String),
}

/// The view of a [`Visibility`].
pub enum VisibilityView {
    Inherited,
    Public,
    Restricted(Seq<char>),
}

impl VisibilityView {
    /// Whether something with this visibility can be seen wherever
    /// something with visibility `other` can. Two restricted visibilities
    /// are compared by their text alone.
    pub open spec fn at_least(self, other: VisibilityView) -> bool {
        self is Public || other is Inherited || self == other
    }
}

impl DeepView for Visibility {
    type V = VisibilityView;

    open spec fn deep_view(&self) -> VisibilityView {
        match self {
            Visibility::Inherited => VisibilityView::Inherited,
            Visibility::Public => VisibilityView::Public,
            Visibility::Restricted(scope) => VisibilityView::Restricted(scope@),
        }
    }
}

impl View for Visibility {
    type V = VisibilityView;

    open spec fn view(&self) -> VisibilityView {
        self.deep_view()
    }
}

impl Clone for Visibility {
    fn clone(&self) -> (copy: Self)
        ensures
            copy@ == self@,
    {
        match self {
            Visibility::Inherited => Visibility::Inherited,
            Visibility::Public => Visibility::Public,
            Visibility::Restricted(scope) => Visibility::Restricted(scope.clone()),
        }
    }
}

/// What a node of a type expression stands for.
#[derive(Clone, Copy, Debug, PartialEq, Eq, Structural)]
pub enum NodeKind {
    /// Tokens that hold no path, kept as written.
    Tokens,
    /// Any construct that is not a path, as its parts in source order.
    Group,
    /// A path; its children are its segments.
    Path,
    /// A path that starts with `::`; its children are its segments.
    GlobalPath,
    /// One segment of a path: an identifier and, as children, the parts of
    /// its generic arguments.
    Segment,
}

/// A type expression as a tree in which every path is a node of its own.
#[derive(Debug, PartialEq, Eq)]
pub struct TypeExpr {
    pub kind: NodeKind,
    /// The tokens of a `Tokens` node, the identifier of a `Segment`; empty
    /// otherwise.
    pub text: String,
    pub children: Vec<TypeExpr>,
}

/// The view of a [`TypeExpr`].
pub struct TypeExprView {
    pub kind: NodeKind,
    pub text: Seq<char>,
    pub children: Seq<TypeExprView>,
}

impl TypeExpr {
    /// The tree as a mathematical value.
    pub open spec fn model(&self) -> TypeExprView
        decreases self,
    {
        TypeExprView {
            kind: self.kind,
            text: self.text@,
            children: Seq::new(
                self.children@.len(),
                |i: int|
                    if 0 <= i < self.children@.len() {
                        self.children@[i].model()
                    } else {
                        arbitrary()
                    },
            ),
        }
    }
}

impl DeepView for TypeExpr {
    type V = TypeExprView;

    open spec fn deep_view(&self) -> TypeExprView {
        self.model()
    }
}

impl View for TypeExpr {
    type V = TypeExprView;

    open spec fn view(&self) -> TypeExprView {
        self.model()
    }
}

impl Clone for TypeExpr {
    fn clone(&self) -> (copy: Self)
        ensures
            copy@ == self@,
        decreases self,
    {
        let mut children: Vec<TypeExpr> = Vec::new();
        let mut i: usize = 0;
        while i < self.children.len()
            invariant
                i <= self.children@.len(),
                children@.len() == i,
                forall|k: int|
                    0 <= k < i ==> (#[trigger] children@[k]).model() == self.children@[k].model(),
            decreases self.children@.len() - i,
        {
            children.push(self.children[i].clone());
            i += 1;
        }
        let copy = TypeExpr { kind: self.kind, text: self.text.clone(), children };
        assert(copy.model().children =~= self.model().children);
        copy
    }
}

/// What follows the path of an attribute.
#[derive(Debug, PartialEq, Eq)]
pub enum Meta {
    /// Nothing: the attribute is a bare path, like `#[readonly]`.
    Path,
    /// A delimited list, like the `(C, packed)` of `#[repr(C, packed)]`.
    List {
        /// The paths of the items in the list, in order, as far as the
        /// list reads as items separated by commas.
        words: Vec<String>,
        /// The list as written, delimiters included.
        tokens: String,
    },
    /// `= value`, like the `= "text"` of `#[doc = "text"]`.
    NameValue {
        /// The value as written.
        value: String,
    },
}

/// The view of a [`Meta`].
pub enum MetaView {
    Path,
    List { words: Seq<Seq<char>>, tokens: Seq<char> },
    NameValue { value: Seq<char> },
}

impl DeepView for Meta {
    type V = MetaView;

    open spec fn deep_view(&self) -> MetaView {
        match self {
            Meta::Path => MetaView::Path,
            Meta::List { words, tokens } => MetaView::List {
                words: words.deep_view(),
                tokens: tokens@,
            },
            Meta::NameValue { value } => MetaView::NameValue { value: value@ },
        }
    }
}

impl View for Meta {
    type V = MetaView;

    open spec fn view(&self) -> MetaView {
        self.deep_view()
    }
}

impl Clone for Meta {
    fn clone(&self) -> (copy: Self)
        ensures
            copy@ == self@,
    {
        match self {
            Meta::Path => Meta::Path,
            Meta::List { words, tokens } => {
                let copied = words.clone();
                assert(copied.deep_view() =~= words.deep_view());
                Meta::List { words: copied, tokens: tokens.clone() }
            },
            Meta::NameValue { value } => Meta::NameValue { value: value.clone() },
        }
    }
}

/// An attribute on a declaration or on a field.
#[derive(Debug, PartialEq, Eq)]
pub struct Attribute {
    /// The path as written: `repr`, `readonly`, `serde::skip`.
    pub path: String,
    pub meta: Meta,
}

/// The view of an [`Attribute`].
pub struct AttributeView {
    pub path: Seq<char>,
    pub meta: MetaView,
}

impl DeepView for Attribute {
    type V = AttributeView;

    open spec fn deep_view(&self) -> AttributeView {
        AttributeView { path: self.path@, meta: self.meta@ }
    }
}

impl View for Attribute {
    type V = AttributeView;

    open spec fn view(&self) -> AttributeView {
        self.deep_view()
    }
}

impl Clone for Attribute {
    fn clone(&self) -> (copy: Self)
        ensures
            copy@ == self@,
    {
        Attribute { path: self.path.clone(), meta: self.meta.clone() }
    }
}

/// The generic parameters of a declaration, as written and as split for an
/// `impl` block.
#[derive(Debug, PartialEq, Eq)]
pub struct Generics {
    /// The parameter list of the declaration, angle brackets included;
    /// empty where there is none.
    pub params: String,
    /// The parameters as they follow `impl`: with bounds, without defaults.
    pub impl_generics: String,
    /// The parameters as they follow the type's name: names only.
    pub ty_generics: String,
    /// The `where` clause, or empty.
    pub where_clause: String,
}

/// The view of a [`Generics`].
pub struct GenericsView {
    pub params: Seq<char>,
    pub impl_generics: Seq<char>,
    pub ty_generics: Seq<char>,
    pub where_clause: Seq<char>,
}

impl DeepView for Generics {
    type V = GenericsView;

    open spec fn deep_view(&self) -> GenericsView {
        GenericsView {
            params: self.params@,
            impl_generics: self.impl_generics@,
            ty_generics: self.ty_generics@,
            where_clause: self.where_clause@,
        }
    }
}

impl View for Generics {
    type V = GenericsView;

    open spec fn view(&self) -> GenericsView {
        self.deep_view()
    }
}

impl Clone for Generics {
    fn clone(&self) -> (copy: Self)
        ensures
            copy@ == self@,
    {
        Generics {
            params: self.params.clone(),
            impl_generics: self.impl_generics.clone(),
            ty_generics: self.ty_generics.clone(),
            where_clause: self.where_clause.clone(),
        }
    }
}

/// One member of a declaration.
#[derive(Debug, PartialEq, Eq)]
pub struct Field {
    pub attrs: Vec<Attribute>,
    pub vis: Visibility,
    /// The name; `None` for a field of a tuple struct.
    pub name: Option<String>,
    pub ty: TypeExpr,
}

/// The view of a [`Field`].
pub struct FieldView {
    pub attrs: Seq<AttributeView>,
    pub vis: VisibilityView,
    pub name: Option<Seq<char>>,
    pub ty: TypeExprView,
}

impl DeepView for Field {
    type V = FieldView;

    open spec fn deep_view(&self) -> FieldView {
        FieldView {
            attrs: self.attrs.deep_view(),
            vis: self.vis@,
            name: self.name.deep_view(),
            ty: self.ty@,
        }
    }
}

impl View for Field {
    type V = FieldView;

    open spec fn view(&self) -> FieldView {
        self.deep_view()
    }
}

impl Clone for Field {
    fn clone(&self) -> (copy: Self)
        ensures
            copy@ == self@,
    {
        let attrs = self.attrs.clone();
        assert(attrs.deep_view() =~= self.attrs.deep_view());
        let name = match &self.name {
            Some(name) => Some(name.clone()),
            None => None,
        };
        Field { attrs, vis: self.vis.clone(), name, ty: self.ty.clone() }
    }
}

/// Which keyword introduces a declaration.
#[derive(Clone, Copy, Debug, PartialEq, Eq, Structural)]
pub enum Kind {
    Struct,
    Enum,
    Union,
}

/// How the fields of a declaration are written.
#[derive(Clone, Copy, Debug, PartialEq, Eq, Structural)]
pub enum Shape {
    /// `{ name: Type, .. }`
    Named,
    /// `(Type, ..)`
    Unnamed,
    /// No field list at all.
    Unit,
}

/// A type declaration: what the attribute is placed on.
#[derive(Debug, PartialEq, Eq)]
pub struct Declaration {
    pub attrs: Vec<Attribute>,
    pub vis: Visibility,
    pub ident: String,
    pub generics: Generics,
    pub kind: Kind,
    pub shape: Shape,
    /// The fields in declaration order. The variants of an enum are not
    /// part of the model.
    pub fields: Vec<Field>,
}

/// The view of a [`Declaration`].
pub struct DeclarationView {
    pub attrs: Seq<AttributeView>,
    pub vis: VisibilityView,
    pub ident: Seq<char>,
    pub generics: GenericsView,
    pub kind: Kind,
    pub shape: Shape,
    pub fields: Seq<FieldView>,
}

impl DeepView for Declaration {
    type V = DeclarationView;

    open spec fn deep_view(&self) -> DeclarationView {
        DeclarationView {
            attrs: self.attrs.deep_view(),
            vis: self.vis@,
            ident: self.ident@,
            generics: self.generics@,
            kind: self.kind,
            shape: self.shape,
            fields: self.fields.deep_view(),
        }
    }
}

impl View for Declaration {
    type V = DeclarationView;

    open spec fn view(&self) -> DeclarationView {
        self.deep_view()
    }
}

impl Clone for Declaration {
    fn clone(&self) -> (copy: Self)
        ensures
            copy@ == self@,
    {
        let attrs = self.attrs.clone();
        assert(attrs.deep_view() =~= self.attrs.deep_view());
        let fields = self.fields.clone();
        assert(fields.deep_view() =~= self.fields.deep_view());
        Declaration {
            attrs,
            vis: self.vis.clone(),
            ident: self.ident.clone(),
            generics: self.generics.clone(),
            kind: self.kind,
            shape: self.shape,
            fields,
        }
    }
}

} // verus!
