//! The expansion as source text.
//!
//! The text is what the attribute leaves in place of the declaration: the
//! declaration as written (where a documentation condition is configured),
//! the writable declaration, and, hidden in an anonymous constant, the
//! read-only view with the coercion that leads to it. Tokens are set apart
//! by blanks wherever two of them meet.

use crate::expand::{Coercion, CoercionView, Expansion, ExpansionView};
use crate::model::{
    Attribute, AttributeView, Declaration, DeclarationView, Field, FieldView, Kind, Meta, MetaView,
    NodeKind, Shape, TypeExpr, TypeExprView, Visibility, VisibilityView,
};
use vstd::prelude::*;
use vstd::string::*;

verus! {

/// The texts of `parts` in a row, with `separator` between each two.
pub open spec fn joined_by(parts: Seq<Seq<char>>, separator: Seq<char>) -> Seq<char>
    decreases parts.len(),
{
    if parts.len() == 0 {
        Seq::empty()
    } else if parts.len() == 1 {
        parts[0]
    } else {
        joined_by(parts.drop_last(), separator) + separator + parts.last()
    }
}

/// Joining one part more puts the separator and the part behind what was
/// joined before; the first part stands alone.
pub proof fn lemma_joined_by_step(parts: Seq<Seq<char>>, separator: Seq<char>, i: int)
    requires
        0 <= i < parts.len(),
    ensures
        joined_by(parts.take(i + 1), separator) == if i == 0 {
            parts[0]
        } else {
            joined_by(parts.take(i), separator) + separator + parts[i]
        },
{
    assert(parts.take(i + 1).drop_last() =~= parts.take(i));
    assert(parts.take(i + 1).last() == parts[i]);
}

impl VisibilityView {
    /// `pub `, `pub(scope) `, or nothing.
    pub open spec fn source(self) -> Seq<char> {
        match self {
            VisibilityView::Inherited => Seq::empty(),
            VisibilityView::Public => "pub "@,
            VisibilityView::Restricted(scope) => "pub("@ + scope + ") "@,
        }
    }
}

impl AttributeView {
    /// `#[path]`, `#[path(list)]` or `#[path = value]`, on a line of its
    /// own.
    pub open spec fn source(self) -> Seq<char> {
        "#["@ + self.path + match self.meta {
            MetaView::Path => Seq::empty(),
            MetaView::List { words, tokens } => tokens,
            MetaView::NameValue { value } => " = "@ + value,
        } + "]\n"@
    }
}

/// The attributes, one after the other.
pub open spec fn attributes_source(attrs: Seq<AttributeView>) -> Seq<char> {
    joined_by(attrs.map_values(|attr: AttributeView| attr.source()), Seq::empty())
}

impl TypeExprView {
    /// The texts of the children, in order.
    pub open spec fn parts(self) -> Seq<Seq<char>>
        decreases self, 0nat,
    {
        Seq::new(
            self.children.len(),
            |i: int|
                if 0 <= i < self.children.len() {
                    self.children[i].source()
                } else {
                    arbitrary()
                },
        )
    }

    /// The type expression as written: tokens as they stand, the segments
    /// of a path with `::` between them.
    pub open spec fn source(self) -> Seq<char>
        decreases self, 1nat,
    {
        match self.kind {
            NodeKind::Tokens => self.text + " "@,
            NodeKind::Group => joined_by(self.parts(), Seq::empty()),
            NodeKind::Path => joined_by(self.parts(), ":: "@),
            NodeKind::GlobalPath => ":: "@ + joined_by(self.parts(), ":: "@),
            NodeKind::Segment => self.text + " "@ + joined_by(self.parts(), Seq::empty()),
        }
    }
}

impl FieldView {
    /// The field with its attributes, followed by a comma.
    pub open spec fn source(self) -> Seq<char> {
        attributes_source(self.attrs) + self.vis.source() + match self.name {
            Some(name) => name + ": "@,
            None => Seq::empty(),
        } + self.ty.source() + ",\n"@
    }
}

/// The fields, one after the other.
pub open spec fn fields_source(fields: Seq<FieldView>) -> Seq<char> {
    joined_by(fields.map_values(|field: FieldView| field.source()), Seq::empty())
}

/// The keyword that introduces a declaration of this kind.
pub open spec fn keyword(kind: Kind) -> Seq<char> {
    match kind {
        Kind::Struct => "struct "@,
        Kind::Enum => "enum "@,
        Kind::Union => "union "@,
    }
}

/// The `where` clause behind a blank, or nothing where there is none.
pub open spec fn clause_source(where_clause: Seq<char>) -> Seq<char> {
    if where_clause.len() == 0 {
        Seq::empty()
    } else {
        " "@ + where_clause
    }
}

impl DeclarationView {
    /// The declaration as an item. The `where` clause stands before the
    /// braces of named fields and behind the parentheses of unnamed ones.
    pub open spec fn source(self) -> Seq<char> {
        let head = attributes_source(self.attrs) + self.vis.source() + keyword(self.kind)
            + self.ident + self.generics.params;
        let clause = clause_source(self.generics.where_clause);
        match self.shape {
            Shape::Named => head + clause + " {\n"@ + fields_source(self.fields) + "}\n"@,
            Shape::Unnamed => head + "(\n"@ + fields_source(self.fields) + ")"@ + clause + ";\n"@,
            Shape::Unit => head + clause + ";\n"@,
        }
    }
}

impl CoercionView {
    /// The implementation of `Deref` that turns a reference to the
    /// writable type into a reference to its view. The two have the same
    /// fields and a fixed layout, which is what the cast relies on.
    pub open spec fn source(self) -> Seq<char> {
        "#[doc(hidden)]\nimpl"@ + self.generics.impl_generics + " core::ops::Deref for "@
            + self.source + self.generics.ty_generics + clause_source(self.generics.where_clause)
            + " {\ntype Target = "@ + self.target + self.generics.ty_generics
            + ";\nfn deref(&self) -> &Self::Target {\nunsafe { &*(self as *const Self as *const Self::Target) }\n}\n}\n"@
    }
}

impl ExpansionView {
    /// The items of the expansion in the order of emission. The
    /// diagnostics are not part of the text: they are placed by whoever
    /// knows the positions that they point to.
    pub open spec fn source(self) -> Seq<char> {
        (match self.pristine {
            Some(declaration) => declaration.source(),
            None => Seq::empty(),
        }) + self.writable.source() + "const _: () = {\n"@ + self.read_view.source()
            + self.coercion.source() + "};\n"@
    }
}

impl Visibility {
    /// The visibility as source text.
    pub fn to_source(&self) -> (source: String)
        ensures
            source@ == self@.source(),
    {
        match self {
            Visibility::Inherited => String::new(),
            Visibility::Public => "pub ".to_owned(),
            Visibility::Restricted(scope) => "pub(".to_owned().concat(scope.as_str()).concat(") "),
        }
    }
}

impl Attribute {
    /// The attribute as source text, on a line of its own.
    pub fn to_source(&self) -> (source: String)
        ensures
            source@ == self@.source(),
    {
        let head = "#[".to_owned().concat(self.path.as_str());
        let body = match &self.meta {
            Meta::Path => head,
            Meta::List { tokens, .. } => head.concat(tokens.as_str()),
            Meta::NameValue { value } => head.concat(" = ").concat(value.as_str()),
        };
        let source = body.concat("]\n");
        assert(source@ =~= self@.source());
        source
    }
}

/// The attributes, one after the other.
pub fn attributes_to_source(attrs: &Vec<Attribute>) -> (source: String)
    ensures
        source@ == attributes_source(attrs.deep_view()),
{
    let ghost parts = attrs.deep_view().map_values(|attr: AttributeView| attr.source());
    let mut source = String::new();
    let mut i: usize = 0;
    while i < attrs.len()
        invariant
            i <= attrs@.len(),
            parts == attrs.deep_view().map_values(|attr: AttributeView| attr.source()),
            source@ == joined_by(parts.take(i as int), Seq::empty()),
        decreases attrs@.len() - i,
    {
        let next = attrs[i].to_source();
        proof {
            lemma_joined_by_step(parts, Seq::empty(), i as int);
            assert(parts[i as int] == attrs@[i as int]@.source());
        }
        source.append(next.as_str());
        assert(source@ =~= joined_by(parts.take(i + 1), Seq::empty()));
        i += 1;
    }
    assert(parts.take(i as int) =~= parts);
    source
}

impl TypeExpr {
    /// The type expression as source text.
    pub fn to_source(&self) -> (source: String)
        ensures
            source@ == self@.source(),
        decreases self,
    {
        let ghost parts = self@.parts();
        let separator = match self.kind {
            NodeKind::Path => ":: ",
            NodeKind::GlobalPath => ":: ",
            _ => "",
        };
        proof {
            reveal_strlit("");
        }
        let mut joined = String::new();
        let mut i: usize = 0;
        while i < self.children.len()
            invariant
                i <= self.children@.len(),
                self@.children.len() == self.children@.len(),
                parts.len() == self.children@.len(),
                forall|k: int|
                    0 <= k < parts.len() ==> #[trigger] parts[k] == self.children@[k].model().source(),
                joined@ == joined_by(parts.take(i as int), separator@),
            decreases self.children@.len() - i,
        {
            let next = self.children[i].to_source();
            proof {
                lemma_joined_by_step(parts, separator@, i as int);
            }
            if i > 0 {
                joined.append(separator);
            }
            joined.append(next.as_str());
            assert(joined@ =~= joined_by(parts.take(i + 1), separator@));
            i += 1;
        }
        assert(parts.take(i as int) =~= parts);
        proof {
            reveal_strlit("");
            assert(""@ =~= Seq::<char>::empty());
        }
        assert(self@.kind == self.kind);
        assert(self@.text == self.text@);
        match self.kind {
            NodeKind::Tokens => {
                let source = self.text.clone().concat(" ");
                assert(source@ == self@.source());
                source
            },
            NodeKind::Group => {
                assert(joined@ == self@.source());
                joined
            },
            NodeKind::Path => {
                assert(joined@ == self@.source());
                joined
            },
            NodeKind::GlobalPath => {
                let source = ":: ".to_owned().concat(joined.as_str());
                assert(source@ == self@.source());
                source
            },
            NodeKind::Segment => {
                let source = self.text.clone().concat(" ").concat(joined.as_str());
                assert(source@ =~= self@.source());
                source
            },
        }
    }
}

impl Field {
    /// The field as source text, followed by a comma.
    pub fn to_source(&self) -> (source: String)
        ensures
            source@ == self@.source(),
    {
        let mut source = attributes_to_source(&self.attrs);
        source.append(self.vis.to_source().as_str());
        if let Some(name) = &self.name {
            source.append(name.as_str());
            source.append(": ");
        }
        source.append(self.ty.to_source().as_str());
        source.append(",\n");
        assert(source@ =~= self@.source());
        source
    }
}

/// The fields, one after the other.
pub fn fields_to_source(fields: &Vec<Field>) -> (source: String)
    ensures
        source@ == fields_source(fields.deep_view()),
{
    let ghost parts = fields.deep_view().map_values(|field: FieldView| field.source());
    let mut source = String::new();
    let mut i: usize = 0;
    while i < fields.len()
        invariant
            i <= fields@.len(),
            parts == fields.deep_view().map_values(|field: FieldView| field.source()),
            source@ == joined_by(parts.take(i as int), Seq::empty()),
        decreases fields@.len() - i,
    {
        let next = fields[i].to_source();
        proof {
            lemma_joined_by_step(parts, Seq::empty(), i as int);
            assert(parts[i as int] == fields@[i as int]@.source());
        }
        source.append(next.as_str());
        assert(source@ =~= joined_by(parts.take(i + 1), Seq::empty()));
        i += 1;
    }
    assert(parts.take(i as int) =~= parts);
    source
}

/// The `where` clause behind a blank, or nothing where there is none.
fn append_clause(source: &mut String, where_clause: &String)
    ensures
        final(source)@ == old(source)@ + clause_source(where_clause@),
{
    if !where_clause.as_str().is_empty() {
        source.append(" ");
        source.append(where_clause.as_str());
    }
    assert(final(source)@ =~= old(source)@ + clause_source(where_clause@));
}

impl Declaration {
    /// The declaration as source text.
    pub fn to_source(&self) -> (source: String)
        ensures
            source@ == self@.source(),
    {
        let mut source = attributes_to_source(&self.attrs);
        source.append(self.vis.to_source().as_str());
        source.append(
            match self.kind {
                Kind::Struct => "struct ",
                Kind::Enum => "enum ",
                Kind::Union => "union ",
            },
        );
        source.append(self.ident.as_str());
        source.append(self.generics.params.as_str());
        match self.shape {
            Shape::Named => {
                append_clause(&mut source, &self.generics.where_clause);
                source.append(" {\n");
                source.append(fields_to_source(&self.fields).as_str());
                source.append("}\n");
            },
            Shape::Unnamed => {
                source.append("(\n");
                source.append(fields_to_source(&self.fields).as_str());
                source.append(")");
                append_clause(&mut source, &self.generics.where_clause);
                source.append(";\n");
            },
            Shape::Unit => {
                append_clause(&mut source, &self.generics.where_clause);
                source.append(";\n");
            },
        }
        assert(source@ =~= self@.source());
        source
    }
}

impl Coercion {
    /// The implementation of `Deref` as source text.
    pub fn to_source(&self) -> (source: String)
        ensures
            source@ == self@.source(),
    {
        let mut source = "#[doc(hidden)]\nimpl".to_owned();
        source.append(self.generics.impl_generics.as_str());
        source.append(" core::ops::Deref for ");
        source.append(self.source.as_str());
        source.append(self.generics.ty_generics.as_str());
        append_clause(&mut source, &self.generics.where_clause);
        source.append(" {\ntype Target = ");
        source.append(self.target.as_str());
        source.append(self.generics.ty_generics.as_str());
        source.append(
            ";\nfn deref(&self) -> &Self::Target {\nunsafe { &*(self as *const Self as *const Self::Target) }\n}\n}\n",
        );
        assert(source@ =~= self@.source());
        source
    }
}

impl Expansion {
    /// The items of the expansion as source text, in the order of
    /// emission, without the diagnostics.
    pub fn to_source(&self) -> (source: String)
        ensures
            source@ == self@.source(),
    {
        let mut source = match &self.pristine {
            Some(declaration) => declaration.to_source(),
            None => String::new(),
        };
        source.append(self.writable.to_source().as_str());
        source.append("const _: () = {\n");
        source.append(self.read_view.to_source().as_str());
        source.append(self.coercion.to_source().as_str());
        source.append("};\n");
        assert(source@ =~= self@.source());
        source
    }
}

} // verus!
