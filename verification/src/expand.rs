//! The expansion of the attribute: from one struct declaration to the pair
//! of a writable declaration and its read-only view.

use crate::args::{Args, ArgsView};
use crate::diagnostic::{Diagnostic, DiagnosticView};
use crate::model::{
    Attribute, AttributeView, Declaration, DeclarationView, Field, FieldView, Generics,
    GenericsView, Kind, Meta, MetaView, NodeKind, Shape, TypeExpr, TypeExprView, Visibility,
    VisibilityView,
};
use crate::rewrite::ReplaceSelf;
use crate::text::{joined, text_is};
use vstd::prelude::*;
use vstd::string::*;

verus! {

/// Whether `attr` is the marker that a field is exposed with: an attribute
/// whose path is `readonly`, whatever arguments it carries.
pub open spec fn is_marker(attr: AttributeView) -> bool {
    attr.path == "readonly"@
}

/// Whether a marker is among `attrs`.
pub open spec fn is_marked(attrs: Seq<AttributeView>) -> bool {
    exists|j: int| 0 <= j < attrs.len() && is_marker(#[trigger] attrs[j])
}

/// Whether the attribute at position `j` is the first marker among `attrs`.
pub open spec fn is_first_marker(attrs: Seq<AttributeView>, j: int) -> bool {
    &&& 0 <= j < attrs.len()
    &&& is_marker(attrs[j])
    &&& forall|k: int| 0 <= k < j ==> !is_marker(#[trigger] attrs[k])
}

/// The position of the first marker among `attrs`, where there is one.
pub open spec fn first_marker(attrs: Seq<AttributeView>) -> int {
    choose|j: int| is_first_marker(attrs, j)
}

/// The field without its first marker. Further markers stay.
pub open spec fn stripped(field: FieldView) -> FieldView {
    if is_marked(field.attrs) {
        FieldView { attrs: field.attrs.remove(first_marker(field.attrs)), ..field }
    } else {
        field
    }
}

/// The fields, each without its first marker.
pub open spec fn stripped_fields(fields: Seq<FieldView>) -> Seq<FieldView> {
    Seq::new(fields.len(), |i: int| stripped(fields[i]))
}

/// Whether the first marker of the field carries arguments.
pub open spec fn is_misused(field: FieldView) -> bool {
    is_marked(field.attrs) && !(field.attrs[first_marker(field.attrs)].meta is Path)
}

/// The diagnostics for the markers with arguments among the first `upto`
/// fields, in field order.
pub open spec fn marker_errors(fields: Seq<FieldView>, upto: int) -> Seq<DiagnosticView>
    decreases upto,
{
    if upto <= 0 {
        Seq::empty()
    } else {
        let before = marker_errors(fields, upto - 1);
        let field = fields[upto - 1];
        if is_misused(field) {
            before.push(
                DiagnosticView::unexpected_token(
                    (upto - 1) as usize,
                    first_marker(field.attrs) as usize,
                ),
            )
        } else {
            before
        }
    }
}

/// Whether `indices` lists, in ascending order and each once, exactly the
/// positions of the fields that carry a marker.
pub open spec fn lists_marked(indices: Seq<usize>, fields: Seq<FieldView>) -> bool {
    &&& forall|a: int, b: int| 0 <= a < b < indices.len() ==> indices[a] < indices[b]
    &&& forall|a: int|
        0 <= a < indices.len() ==> (#[trigger] indices[a]) < fields.len() && is_marked(
            fields[indices[a] as int].attrs,
        )
    &&& forall|i: int|
        0 <= i < fields.len() && is_marked((#[trigger] fields[i]).attrs) ==> exists|a: int|
            0 <= a < indices.len() && #[trigger] indices[a] == i
}

/// Whether `word` names a representation that fixes the layout.
pub open spec fn names_layout(word: Seq<char>) -> bool {
    word == "C"@ || word == "transparent"@ || word == "packed"@
}

/// Whether `attr` is a `repr` attribute that lists a representation with a
/// fixed layout.
pub open spec fn fixes_layout(attr: AttributeView) -> bool {
    &&& attr.path == "repr"@
    &&& attr.meta matches MetaView::List { words, .. }
    &&& exists|k: int| 0 <= k < words.len() && names_layout(#[trigger] words[k])
}

/// Whether one of `attrs` fixes the layout.
pub open spec fn has_fixed_layout(attrs: Seq<AttributeView>) -> bool {
    exists|j: int| 0 <= j < attrs.len() && fixes_layout(#[trigger] attrs[j])
}

/// Whether one of `words` names a representation with a fixed layout.
fn lists_layout(words: &Vec<String>) -> (found: bool)
    ensures
        found == exists|k: int|
            0 <= k < words.deep_view().len() && names_layout(#[trigger] words.deep_view()[k]),
{
    let mut k: usize = 0;
    while k < words.len()
        invariant
            k <= words@.len(),
            forall|m: int| 0 <= m < k ==> !names_layout(#[trigger] words.deep_view()[m]),
        decreases words@.len() - k,
    {
        let word = &words[k];
        assert(words.deep_view()[k as int] == word@);
        if text_is(word, "C") || text_is(word, "transparent") || text_is(word, "packed") {
            return true;
        }
        k += 1;
    }
    false
}

/// Whether the declaration already carries a representation with a fixed
/// layout: `repr(C)`, `repr(transparent)` or `repr(packed)`, alone or
/// beside other hints.
pub fn has_defined_repr(input: &Declaration) -> (defined: bool)
    ensures
        defined == has_fixed_layout(input@.attrs),
{
    let mut has_defined_repr = false;
    let mut j: usize = 0;
    while j < input.attrs.len()
        invariant
            j <= input.attrs@.len(),
            has_defined_repr == exists|m: int|
                0 <= m < j && fixes_layout(#[trigger] input@.attrs[m]),
        decreases input.attrs@.len() - j,
    {
        let attr = &input.attrs[j];
        assert(input@.attrs[j as int] == attr@);
        let fixes = text_is(&attr.path, "repr") && match &attr.meta {
            Meta::List { words, .. } => lists_layout(words),
            _ => false,
        };
        assert(fixes == fixes_layout(attr@));
        if fixes {
            has_defined_repr = true;
        }
        j += 1;
    }
    has_defined_repr
}

/// The fields of a struct that has a field list, to be changed in place.
/// Nothing else of the declaration changes through them.
pub fn fields_of_input(input: &mut Declaration) -> (fields: &mut Vec<Field>)
    requires
        old(input)@.kind == Kind::Struct,
        old(input)@.shape != Shape::Unit,
    ensures
        *fields == old(input).fields,
        *final(input) == (Declaration { fields: *final(fields), ..*old(input) }),
{
    &mut input.fields
}

/// The position of the first marker among `attrs`.
fn find_marker(attrs: &Vec<Attribute>) -> (found: Option<usize>)
    ensures
        match found {
            Some(j) => is_first_marker(attrs.deep_view(), j as int),
            None => !is_marked(attrs.deep_view()),
        },
{
    let mut j: usize = 0;
    while j < attrs.len()
        invariant
            j <= attrs@.len(),
            forall|k: int| 0 <= k < j ==> !is_marker(#[trigger] attrs.deep_view()[k]),
        decreases attrs@.len() - j,
    {
        let attr = &attrs[j];
        if text_is(&attr.path, "readonly") {
            return Some(j);
        }
        j += 1;
    }
    None
}

/// Removes the first `#[readonly]` from each field that has one and returns
/// the positions of those fields, in order. A marker that carries arguments
/// counts like any other; for each such marker one diagnostic is added to
/// `errors`. The declaration is a struct that has a field list.
pub fn find_and_strip_readonly_attrs(input: &mut Declaration, errors: &mut Vec<Diagnostic>) -> (indices:
    Vec<usize>)
    requires
        old(input)@.kind == Kind::Struct,
        old(input)@.shape != Shape::Unit,
    ensures
        final(input)@ == (DeclarationView {
            fields: stripped_fields(old(input)@.fields),
            ..old(input)@
        }),
        final(errors).deep_view() == old(errors).deep_view() + marker_errors(
            old(input)@.fields,
            old(input)@.fields.len() as int,
        ),
        lists_marked(indices@, old(input)@.fields),
{
    let mut indices: Vec<usize> = Vec::new();
    let ghost given = input@.fields;
    let ghost reported = errors.deep_view();
    let fields = fields_of_input(input);
    let mut i: usize = 0;
    while i < fields.len()
        invariant
            i <= fields@.len(),
            fields@.len() == given.len(),
            forall|k: int| 0 <= k < i ==> (#[trigger] fields@[k])@ == stripped(given[k]),
            forall|k: int| i <= k < given.len() ==> (#[trigger] fields@[k])@ == given[k],
            errors.deep_view() == reported + marker_errors(given, i as int),
            lists_marked(indices@, given.take(i as int)),
        decreases fields@.len() - i,
    {
        let ghost attrs = given[i as int].attrs;
        let ghost listed = indices@;
        let readonly_attr_index = find_marker(&fields[i].attrs);
        if let Some(j) = readonly_attr_index {
            assert(is_marked(attrs)) by {
                assert(is_marker(attrs[j as int]));
            }
            assert(first_marker(attrs) == j) by {
                assert(is_first_marker(attrs, first_marker(attrs)));
            }
            let bare = match &fields[i].attrs[j].meta {
                Meta::Path => true,
                _ => false,
            };
            if !bare {
                let ghost before = errors.deep_view();
                errors.push(Diagnostic::unexpected_token(i, j));
                assert(errors.deep_view() =~= before.push(
                    DiagnosticView::unexpected_token(i, j),
                ));
            }
            let ghost kept = fields@[i as int].attrs.deep_view();
            fields[i].attrs.remove(j);
            assert(fields@[i as int].attrs.deep_view() =~= kept.remove(j as int));
            indices.push(i);
            assert(lists_marked(indices@, given.take(i + 1))) by {
                assert(indices@[listed.len() as int] == i);
                assert forall|a: int, b: int| 0 <= a < b < indices@.len() implies indices@[a]
                    < indices@[b] by {
                    if b == listed.len() {
                        assert(listed[a] < given.take(i as int).len());
                    }
                }
                assert forall|k: int|
                    0 <= k < given.take(i + 1).len() && is_marked(
                        (#[trigger] given.take(i + 1)[k]).attrs,
                    ) implies exists|a: int| 0 <= a < indices@.len() && #[trigger] indices@[a]
                    == k by {
                    if k < i {
                        assert(given.take(i as int)[k] == given.take(i + 1)[k]);
                        let a = choose|a: int| 0 <= a < listed.len() && #[trigger] listed[a] == k;
                        assert(indices@[a] == k);
                    }
                }
            }
        } else {
            assert(lists_marked(indices@, given.take(i + 1))) by {
                assert forall|k: int|
                    0 <= k < given.take(i + 1).len() && is_marked(
                        (#[trigger] given.take(i + 1)[k]).attrs,
                    ) implies exists|a: int| 0 <= a < indices@.len() && #[trigger] indices@[a]
                    == k by {
                    assert(given.take(i as int)[k] == given.take(i + 1)[k]);
                }
            }
        }
        i += 1;
    }
    assert(given.take(i as int) =~= given);
    assert(fields.deep_view() =~= stripped_fields(given));
    indices
}

/// The reference coercion from the writable type to its read-only view.
#[derive(Debug, PartialEq, Eq)]
pub struct Coercion {
    /// The name of the writable type.
    pub source: String,
    /// The name of the read-only view.
    pub target: String,
    /// The generic parameters that both share.
    pub generics: Generics,
}

/// The view of a [`Coercion`].
pub struct CoercionView {
    pub source: Seq<char>,
    pub target: Seq<char>,
    pub generics: GenericsView,
}

impl DeepView for Coercion {
    type V = CoercionView;

    open spec fn deep_view(&self) -> CoercionView {
        CoercionView { source: self.source@, target: self.target@, generics: self.generics@ }
    }
}

impl View for Coercion {
    type V = CoercionView;

    open spec fn view(&self) -> CoercionView {
        self.deep_view()
    }
}

/// What the attribute expands to, in the order of emission.
#[derive(Debug, PartialEq, Eq)]
pub struct Expansion {
    /// The declaration as it was written, for documentation; present where
    /// a documentation condition is configured.
    pub pristine: Option<Declaration>,
    /// The declaration whose fields can be written in the defining scope.
    pub writable: Declaration,
    /// The declaration through which the fields are read elsewhere.
    pub read_view: Declaration,
    /// The coercion from a reference to the first to a reference to the
    /// second.
    pub coercion: Coercion,
    /// What is reported beside the expansion.
    pub diagnostics: Vec<Diagnostic>,
}

/// The view of an [`Expansion`].
pub struct ExpansionView {
    pub pristine: Option<DeclarationView>,
    pub writable: DeclarationView,
    pub read_view: DeclarationView,
    pub coercion: CoercionView,
    pub diagnostics: Seq<DiagnosticView>,
}

impl DeepView for Expansion {
    type V = ExpansionView;

    open spec fn deep_view(&self) -> ExpansionView {
        ExpansionView {
            pristine: self.pristine.deep_view(),
            writable: self.writable@,
            read_view: self.read_view@,
            coercion: self.coercion@,
            diagnostics: self.diagnostics.deep_view(),
        }
    }
}

impl View for Expansion {
    type V = ExpansionView;

    open spec fn view(&self) -> ExpansionView {
        self.deep_view()
    }
}

/// `#[repr(C)]`.
pub open spec fn repr_c() -> AttributeView {
    AttributeView { path: "repr"@, meta: MetaView::List { words: seq!["C"@], tokens: "(C)"@ } }
}

/// `#[doc(hidden)]`.
pub open spec fn doc_hidden() -> AttributeView {
    AttributeView {
        path: "doc"@,
        meta: MetaView::List { words: seq!["hidden"@], tokens: "(hidden)"@ },
    }
}

/// `#[cfg(flag)]`.
pub open spec fn cfg_when(flag: Seq<char>) -> AttributeView {
    AttributeView {
        path: "cfg"@,
        meta: MetaView::List { words: seq![flag], tokens: "("@ + flag + ")"@ },
    }
}

/// `#[cfg(not(flag))]`.
pub open spec fn cfg_unless(flag: Seq<char>) -> AttributeView {
    AttributeView {
        path: "cfg"@,
        meta: MetaView::List { words: seq!["not"@], tokens: "(not("@ + flag + "))"@ },
    }
}

/// Why the declaration cannot be expanded, if it cannot.
pub open spec fn rejection(input: DeclarationView) -> Option<DiagnosticView> {
    if input.kind != Kind::Struct {
        Some(DiagnosticView::not_a_struct())
    } else if input.shape == Shape::Unit || input.fields.len() == 0 {
        Some(DiagnosticView::empty_struct())
    } else {
        None
    }
}

/// Whether no field carries a marker, so that the attribute applies to all
/// fields alike.
pub open spec fn is_whole_struct(input: DeclarationView) -> bool {
    forall|i: int| 0 <= i < input.fields.len() ==> !is_marked(#[trigger] input.fields[i].attrs)
}

/// Whether field `i` is made private in the writable declaration.
pub open spec fn is_restricted(input: DeclarationView, i: int) -> bool {
    is_whole_struct(input) || is_marked(input.fields[i].attrs)
}

/// The attributes with `#[repr(C)]` added at the end, unless they fix the
/// layout already.
pub open spec fn laid_out(attrs: Seq<AttributeView>) -> Seq<AttributeView> {
    if has_fixed_layout(attrs) {
        attrs
    } else {
        attrs.push(repr_c())
    }
}

/// The name of the read-only view.
pub open spec fn view_ident(input: DeclarationView) -> Seq<char> {
    "ReadOnly"@ + input.ident
}

/// The path made of the single segment `ident`, followed by the generic
/// arguments `ty_generics` where there are any. The arguments stand behind
/// `::`, so that the path reads in a type and in an expression alike.
pub open spec fn path_of(ident: Seq<char>, ty_generics: Seq<char>) -> TypeExprView {
    let arguments = if ty_generics.len() == 0 {
        Seq::<TypeExprView>::empty()
    } else {
        seq![
            TypeExprView {
                kind: NodeKind::Tokens,
                text: "::"@ + ty_generics,
                children: Seq::empty(),
            },
        ]
    };
    TypeExprView {
        kind: NodeKind::Path,
        text: Seq::empty(),
        children: seq![TypeExprView { kind: NodeKind::Segment, text: ident, children: arguments }],
    }
}

/// The path under which the read-only view names itself: its name,
/// followed by the generic arguments of the struct.
pub open spec fn view_path(input: DeclarationView) -> TypeExprView {
    path_of(view_ident(input), input.generics.ty_generics)
}

/// Field `i` as the writable declaration has it: without its marker, and
/// private where it is restricted.
pub open spec fn writable_field(input: DeclarationView, i: int) -> FieldView {
    let field = stripped(input.fields[i]);
    FieldView {
        vis: if is_restricted(input, i) {
            VisibilityView::Inherited
        } else {
            field.vis
        },
        ..field
    }
}

/// Field `i` of the read-only view before its type is rewritten: without
/// its marker, and as visible as the declaration where it carried the
/// marker and no visibility of its own.
pub open spec fn exposed_field(input: DeclarationView, i: int) -> FieldView {
    let field = stripped(input.fields[i]);
    FieldView {
        vis: if is_marked(input.fields[i].attrs) && field.vis is Inherited {
            input.vis
        } else {
            field.vis
        },
        ..field
    }
}

/// Field `i` as the read-only view has it.
pub open spec fn read_field(input: DeclarationView, i: int) -> FieldView {
    let field = exposed_field(input, i);
    FieldView { ty: field.ty.replace_self(view_path(input)), ..field }
}

/// The attribute that switches the writable declaration off where the
/// documentation condition holds.
pub open spec fn condition(args: ArgsView) -> Seq<AttributeView> {
    match args.doc_cfg {
        Some(flag) => seq![cfg_unless(flag)],
        None => Seq::empty(),
    }
}

/// The writable declaration.
pub open spec fn writable(args: ArgsView, input: DeclarationView) -> DeclarationView {
    DeclarationView {
        attrs: condition(args) + laid_out(input.attrs),
        fields: Seq::new(input.fields.len(), |i: int| writable_field(input, i)),
        ..input
    }
}

/// The read-only view.
pub open spec fn read_view(input: DeclarationView) -> DeclarationView {
    DeclarationView {
        attrs: seq![doc_hidden()] + laid_out(input.attrs),
        ident: view_ident(input),
        fields: Seq::new(input.fields.len(), |i: int| read_field(input, i)),
        ..input
    }
}

/// The declaration as written, but for the markers, active where the
/// documentation condition holds.
pub open spec fn pristine(args: ArgsView, input: DeclarationView) -> Option<DeclarationView> {
    match args.doc_cfg {
        Some(flag) => Some(
            DeclarationView {
                attrs: seq![cfg_when(flag)] + input.attrs,
                fields: stripped_fields(input.fields),
                ..input
            },
        ),
        None => None,
    }
}

/// The expansion of a struct with fields.
pub open spec fn expansion(args: ArgsView, input: DeclarationView) -> ExpansionView {
    ExpansionView {
        pristine: pristine(args, input),
        writable: writable(args, input),
        read_view: read_view(input),
        coercion: CoercionView {
            source: input.ident,
            target: view_ident(input),
            generics: input.generics,
        },
        diagnostics: marker_errors(input.fields, input.fields.len() as int),
    }
}

/// What the attribute makes of a declaration: a rejection, or the
/// expansion.
pub open spec fn expanded(args: ArgsView, input: DeclarationView) -> Result<
    ExpansionView,
    DiagnosticView,
> {
    match rejection(input) {
        Some(diagnostic) => Err(diagnostic),
        None => Ok(expansion(args, input)),
    }
}

/// The view of a result of [`readonly`].
pub open spec fn result_view(result: Result<Expansion, Diagnostic>) -> Result<
    ExpansionView,
    DiagnosticView,
> {
    match result {
        Ok(expansion) => Ok(expansion@),
        Err(diagnostic) => Err(diagnostic@),
    }
}

fn list_attribute(path: &str, word: String, tokens: String) -> (attr: Attribute)
    ensures
        attr@ == (AttributeView {
            path: path@,
            meta: MetaView::List { words: seq![word@], tokens: tokens@ },
        }),
{
    let mut words: Vec<String> = Vec::new();
    let ghost name = word@;
    words.push(word);
    assert(words.deep_view() =~= seq![name]);
    Attribute { path: path.to_owned(), meta: Meta::List { words, tokens } }
}

/// The path made of the single segment `ident`, followed by the generic
/// arguments `ty_generics` where there are any.
fn path_to(ident: &String, ty_generics: &String) -> (path: TypeExpr)
    ensures
        path@ == path_of(ident@, ty_generics@),
{
    let mut arguments: Vec<TypeExpr> = Vec::new();
    if !ty_generics.as_str().is_empty() {
        let tokens = TypeExpr {
            kind: NodeKind::Tokens,
            text: joined("::", ty_generics.as_str()),
            children: Vec::new(),
        };
        assert(tokens@.children =~= Seq::empty());
        arguments.push(tokens);
    }
    let segment = TypeExpr { kind: NodeKind::Segment, text: ident.clone(), children: arguments };
    assert(segment@.children =~= path_of(ident@, ty_generics@).children[0].children);
    let mut segments: Vec<TypeExpr> = Vec::new();
    segments.push(segment);
    let path = TypeExpr { kind: NodeKind::Path, text: String::new(), children: segments };
    assert(path@.children =~= path_of(ident@, ty_generics@).children);
    path
}

/// Checks that the declaration can be expanded: that it is a struct, and
/// one with fields.
pub fn validate(input: &Declaration) -> (result: Result<(), Diagnostic>)
    ensures
        match result {
            Ok(_) => rejection(input@) is None,
            Err(diagnostic) => rejection(input@) == Some(diagnostic@),
        },
{
    match input.kind {
        Kind::Struct => {
            let unit = match input.shape {
                Shape::Unit => true,
                _ => false,
            };
            if unit || input.fields.len() == 0 {
                return Err(Diagnostic::empty_struct());
            }
        },
        Kind::Enum | Kind::Union => {
            return Err(Diagnostic::not_a_struct());
        },
    }
    Ok(())
}

/// The position up to which the fields have been dealt with, once the
/// first `t` of `indices` have been.
spec fn frontier(indices: Seq<usize>, t: int, count: int) -> int {
    if t < indices.len() {
        indices[t] as int
    } else {
        count
    }
}

/// Expands the attribute on `input`.
///
/// An enum, a union and a struct without fields are rejected. Otherwise the
/// result holds, in the order of emission: the declaration as written
/// (where `args` names a documentation condition), the writable
/// declaration, the read-only view, the coercion between the two, and one
/// diagnostic for each marker that carries arguments.
pub fn readonly(args: &Args, input: Declaration) -> (result: Result<Expansion, Diagnostic>)
    ensures
        result_view(result) == expanded(args@, input@),
{
    let ghost given = input@;
    if let Err(diagnostic) = validate(&input) {
        return Err(diagnostic);
    }
    let ghost count = given.fields.len() as int;

    let mut input = input;

    let mut attr_errors: Vec<Diagnostic> = Vec::new();
    let indices = find_and_strip_readonly_attrs(&mut input, &mut attr_errors);
    assert(attr_errors.deep_view() =~= marker_errors(given.fields, count));

    let as_written = match &args.doc_cfg {
        Some(flag) => {
            let mut shown = input.clone();
            let tokens = joined("(", flag.as_str()).concat(")");
            shown.attrs.insert(0, list_attribute("cfg", flag.clone(), tokens));
            assert(shown@.attrs =~= seq![cfg_when(flag@)] + given.attrs);
            Some(shown)
        },
        None => None,
    };
    assert(as_written.deep_view() == pristine(args@, given));

    if !has_defined_repr(&input) {
        input.attrs.push(list_attribute("repr", "C".to_owned(), "(C)".to_owned()));
        assert(input@.attrs =~= given.attrs.push(repr_c()));
    }
    assert(input@.attrs == laid_out(given.attrs));

    let mut readonly = input.clone();
    readonly.attrs.insert(0, list_attribute("doc", "hidden".to_owned(), "(hidden)".to_owned()));
    assert(readonly@.attrs =~= seq![doc_hidden()] + laid_out(given.attrs));

    let input_vis = input.vis.clone();
    let target = joined("ReadOnly", input.ident.as_str());
    let self_path = path_to(&target, &input.generics.ty_generics);
    let input_fields = fields_of_input(&mut input);
    let readonly_fields = fields_of_input(&mut readonly);
    assert(input_fields.deep_view() == stripped_fields(given.fields));
    assert(readonly_fields.deep_view() == stripped_fields(given.fields));
    assert(input_fields@.len() == count && readonly_fields@.len() == count);
    assert forall|k: int| 0 <= k < count implies (#[trigger] input_fields@[k])@ == stripped(
        given.fields[k],
    ) by {
        assert(input_fields.deep_view()[k] == input_fields@[k]@);
    }
    assert forall|k: int| 0 <= k < count implies (#[trigger] readonly_fields@[k])@ == stripped(
        given.fields[k],
    ) by {
        assert(readonly_fields.deep_view()[k] == readonly_fields@[k]@);
    }

    if indices.len() == 0 {
        assert(is_whole_struct(given)) by {
            assert forall|i: int| 0 <= i < count implies !is_marked(
                #[trigger] given.fields[i].attrs,
            ) by {
                if is_marked(given.fields[i].attrs) {
                    let a = choose|a: int| 0 <= a < indices@.len() && #[trigger] indices@[a] == i;
                }
            }
        }
        let mut i: usize = 0;
        while i < input_fields.len()
            invariant
                i <= count,
                input_fields@.len() == count,
                count == given.fields.len(),
                is_whole_struct(given),
                forall|k: int|
                    0 <= k < i ==> (#[trigger] input_fields@[k])@ == writable_field(given, k),
                forall|k: int|
                    i <= k < count ==> (#[trigger] input_fields@[k])@ == stripped(given.fields[k]),
            decreases count - i,
        {
            input_fields[i].vis = Visibility::Inherited;
            i += 1;
        }
    } else {
        assert(!is_whole_struct(given)) by {
            assert(is_marked(given.fields[indices@[0] as int].attrs));
        }
        assert forall|k: int| 0 <= k < indices@[0] implies !is_marked(
            #[trigger] given.fields[k].attrs,
        ) by {
            if is_marked(given.fields[k].attrs) {
                let a = choose|a: int| 0 <= a < indices@.len() && #[trigger] indices@[a] == k;
                if a > 0 {
                    assert(indices@[0] < indices@[a]);
                }
            }
        }
        let mut t: usize = 0;
        while t < indices.len()
            invariant
                t <= indices@.len(),
                input_fields@.len() == count,
                readonly_fields@.len() == count,
                count == given.fields.len(),
                lists_marked(indices@, given.fields),
                !is_whole_struct(given),
                input_vis@ == given.vis,
                forall|k: int|
                    0 <= k < frontier(indices@, t as int, count) ==> (#[trigger] input_fields@[k])@
                        == writable_field(given, k),
                forall|k: int|
                    frontier(indices@, t as int, count) <= k < count ==> (
                    #[trigger] input_fields@[k])@ == stripped(given.fields[k]),
                forall|k: int|
                    0 <= k < frontier(indices@, t as int, count) ==> (
                    #[trigger] readonly_fields@[k])@ == exposed_field(given, k),
                forall|k: int|
                    frontier(indices@, t as int, count) <= k < count ==> (
                    #[trigger] readonly_fields@[k])@ == stripped(given.fields[k]),
            decreases indices@.len() - t,
        {
            let i: usize = indices[t];
            let ghost reached = frontier(indices@, t + 1, count);
            assert(i < reached <= count) by {
                if t + 1 < indices@.len() {
                    assert(indices@[t as int] < indices@[t + 1]);
                }
            }
            assert forall|k: int| i < k < reached implies !is_marked(
                #[trigger] given.fields[k].attrs,
            ) by {
                if is_marked(given.fields[k].attrs) {
                    let a = choose|a: int| 0 <= a < indices@.len() && #[trigger] indices@[a] == k;
                    if a < t {
                        assert(indices@[a] < indices@[t as int]);
                    } else if a > t + 1 {
                        assert(indices@[t + 1] < indices@[a]);
                    }
                }
            }
            assert(is_marked(given.fields[i as int].attrs));
            input_fields[i].vis = Visibility::Inherited;
            let inherited = match &readonly_fields[i].vis {
                Visibility::Inherited => true,
                _ => false,
            };
            if inherited {
                readonly_fields[i].vis = input_vis.clone();
            }
            t += 1;
        }
    }

    let rewrite = ReplaceSelf::new(&self_path);
    let mut i: usize = 0;
    while i < readonly_fields.len()
        invariant
            i <= count,
            readonly_fields@.len() == count,
            count == given.fields.len(),
            rewrite.target() == view_path(given),
            forall|k: int|
                0 <= k < i ==> (#[trigger] readonly_fields@[k])@ == read_field(given, k),
            forall|k: int|
                i <= k < count ==> (#[trigger] readonly_fields@[k])@ == exposed_field(given, k),
        decreases count - i,
    {
        let ty = rewrite.visit(&readonly_fields[i].ty);
        readonly_fields[i].ty = ty;
        i += 1;
    }
    assert(readonly_fields.deep_view() =~= read_view(given).fields);
    assert(input_fields.deep_view() =~= writable(args@, given).fields);

    readonly.ident = target.clone();

    if let Some(flag) = &args.doc_cfg {
        let tokens = joined("(not(", flag.as_str()).concat("))");
        input.attrs.insert(0, list_attribute("cfg", "not".to_owned(), tokens));
        assert(input@.attrs =~= seq![cfg_unless(flag@)] + laid_out(given.attrs));
    }
    assert(input@.attrs =~= condition(args@) + laid_out(given.attrs));

    let coercion = Coercion {
        source: input.ident.clone(),
        target,
        generics: input.generics.clone(),
    };
    Ok(
        Expansion {
            pristine: as_written,
            writable: input,
            read_view: readonly,
            coercion,
            diagnostics: attr_errors,
        },
    )
}

} // verus!
