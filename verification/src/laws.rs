//! What holds of every expansion.

use crate::args::ArgsView;
use crate::diagnostic::DiagnosticView;
use crate::expand::{
    condition, doc_hidden, expansion, first_marker, fixes_layout, has_fixed_layout,
    is_first_marker, is_marked, is_marker, is_whole_struct, laid_out, names_layout, rejection,
    repr_c, stripped, view_ident, view_path,
};
use crate::model::{AttributeView, DeclarationView, FieldView, VisibilityView};
use crate::rewrite::lemma_rewrite_removes_self;
use crate::{outcome, OutcomeView};
use vstd::prelude::*;

verus! {

/// A declaration that is rejected comes to exactly one diagnostic and to
/// no expansion, whatever the arguments of the attribute.
pub proof fn lemma_rejection_is_the_whole_outcome(
    args: ArgsView,
    input: DeclarationView,
    diagnostic: DiagnosticView,
)
    requires
        rejection(input) == Some(diagnostic),
    ensures
        outcome(Ok(args), input) == OutcomeView::Rejected(diagnostic),
        input.kind != crate::model::Kind::Struct ==> diagnostic == DiagnosticView::not_a_struct(),
        input.kind == crate::model::Kind::Struct ==> diagnostic == DiagnosticView::empty_struct(),
{
}

/// Among attributes that hold a marker there is a first one, at or before
/// any position `j` that holds one.
pub proof fn lemma_first_marker(attrs: Seq<AttributeView>, j: int)
    requires
        0 <= j < attrs.len(),
        is_marker(attrs[j]),
    ensures
        is_first_marker(attrs, first_marker(attrs)),
        first_marker(attrs) <= j,
    decreases j,
{
    if exists|k: int| 0 <= k < j && is_marker(#[trigger] attrs[k]) {
        let k = choose|k: int| 0 <= k < j && is_marker(#[trigger] attrs[k]);
        lemma_first_marker(attrs, k);
    } else {
        assert(is_first_marker(attrs, j));
        assert(is_first_marker(attrs, first_marker(attrs)));
    }
}

/// Stripping a marked field removes exactly one attribute, its first
/// marker; the other attributes stay, in their order.
pub proof fn lemma_stripped_loses_first_marker(field: FieldView)
    requires
        is_marked(field.attrs),
    ensures
        is_first_marker(field.attrs, first_marker(field.attrs)),
        stripped(field).attrs.len() == field.attrs.len() - 1,
        forall|k: int|
            0 <= k < first_marker(field.attrs) ==> stripped(field).attrs[k] == field.attrs[k],
        forall|k: int|
            first_marker(field.attrs) <= k < field.attrs.len() - 1 ==> stripped(field).attrs[k]
                == field.attrs[k + 1],
{
    let j = choose|j: int| 0 <= j < field.attrs.len() && is_marker(#[trigger] field.attrs[j]);
    lemma_first_marker(field.attrs, j);
}

/// A field that carries one marker and no more carries none once it is
/// stripped.
pub proof fn lemma_single_marker_is_removed(field: FieldView)
    requires
        is_marked(field.attrs),
        forall|j: int, k: int|
            0 <= j < k < field.attrs.len() ==> !(is_marker(#[trigger] field.attrs[j]) && is_marker(
                #[trigger] field.attrs[k],
            )),
    ensures
        !is_marked(stripped(field).attrs),
{
    lemma_stripped_loses_first_marker(field);
    let first = first_marker(field.attrs);
    let kept = stripped(field).attrs;
    assert forall|k: int| 0 <= k < kept.len() implies !is_marker(#[trigger] kept[k]) by {
        if k < first {
            assert(kept[k] == field.attrs[k]);
        } else {
            assert(kept[k] == field.attrs[k + 1]);
        }
    }
}

/// Where no field carries more than one marker, no marker reaches either
/// declaration of the expansion.
pub proof fn lemma_markers_are_not_emitted(args: ArgsView, input: DeclarationView)
    requires
        rejection(input) is None,
        forall|i: int, j: int, k: int|
            0 <= i < input.fields.len() && 0 <= j < k < input.fields[i].attrs.len() ==> !(
            is_marker(#[trigger] input.fields[i].attrs[j]) && is_marker(
                #[trigger] input.fields[i].attrs[k],
            )),
    ensures
        forall|i: int|
            0 <= i < input.fields.len() ==> !is_marked(
                (#[trigger] expansion(args, input).writable.fields[i]).attrs,
            ),
        forall|i: int|
            0 <= i < input.fields.len() ==> !is_marked(
                (#[trigger] expansion(args, input).read_view.fields[i]).attrs,
            ),
{
    assert forall|i: int| 0 <= i < input.fields.len() implies !is_marked(
        stripped(#[trigger] input.fields[i]).attrs,
    ) by {
        if is_marked(input.fields[i].attrs) {
            lemma_single_marker_is_removed(input.fields[i]);
        }
    }
    assert forall|i: int| 0 <= i < input.fields.len() implies !is_marked(
        (#[trigger] expansion(args, input).writable.fields[i]).attrs,
    ) by {
        assert(expansion(args, input).writable.fields[i].attrs == stripped(
            input.fields[i],
        ).attrs);
    }
    assert forall|i: int| 0 <= i < input.fields.len() implies !is_marked(
        (#[trigger] expansion(args, input).read_view.fields[i]).attrs,
    ) by {
        assert(expansion(args, input).read_view.fields[i].attrs == stripped(
            input.fields[i],
        ).attrs);
    }
}

/// Where no field carries a marker, every field of the writable
/// declaration is private.
pub proof fn lemma_whole_struct_is_private(args: ArgsView, input: DeclarationView)
    requires
        rejection(input) is None,
        is_whole_struct(input),
    ensures
        forall|i: int|
            0 <= i < input.fields.len() ==> (#[trigger] expansion(args, input).writable.fields[i]).vis
                == VisibilityView::Inherited,
{
}

/// Where no field carries a marker, and every field was written at least
/// as visible as the struct, every field of the read-only view is at least
/// as visible as the struct.
pub proof fn lemma_whole_struct_is_readable(args: ArgsView, input: DeclarationView)
    requires
        rejection(input) is None,
        is_whole_struct(input),
        forall|i: int|
            0 <= i < input.fields.len() ==> (#[trigger] input.fields[i]).vis.at_least(input.vis),
    ensures
        forall|i: int|
            0 <= i < input.fields.len() ==> (#[trigger] expansion(
                args,
                input,
            ).read_view.fields[i]).vis.at_least(input.vis),
{
    assert forall|i: int| 0 <= i < input.fields.len() implies (#[trigger] expansion(
        args,
        input,
    ).read_view.fields[i]).vis.at_least(input.vis) by {
        assert(input.fields[i].vis.at_least(input.vis));
    }
}

/// Where some field carries a marker, exactly the fields that carry one
/// are made private in the writable declaration. Every other field keeps
/// the visibility it was written with, in both declarations.
pub proof fn lemma_only_marked_fields_change(args: ArgsView, input: DeclarationView)
    requires
        rejection(input) is None,
        !is_whole_struct(input),
    ensures
        forall|i: int|
            #![trigger expansion(args, input).writable.fields[i]]
            0 <= i < input.fields.len() && is_marked(input.fields[i].attrs) ==> expansion(
                args,
                input,
            ).writable.fields[i].vis == VisibilityView::Inherited,
        forall|i: int|
            #![trigger expansion(args, input).writable.fields[i]]
            0 <= i < input.fields.len() && !is_marked(input.fields[i].attrs) ==> expansion(
                args,
                input,
            ).writable.fields[i].vis == input.fields[i].vis,
        forall|i: int|
            #![trigger expansion(args, input).read_view.fields[i]]
            0 <= i < input.fields.len() && !is_marked(input.fields[i].attrs) ==> expansion(
                args,
                input,
            ).read_view.fields[i].vis == input.fields[i].vis,
{
}

/// A marked field that was written with a visibility of its own keeps it
/// in the read-only view; one written without is as visible there as the
/// struct.
pub proof fn lemma_marked_field_is_exposed(args: ArgsView, input: DeclarationView, i: int)
    requires
        rejection(input) is None,
        0 <= i < input.fields.len(),
        is_marked(input.fields[i].attrs),
    ensures
        expansion(args, input).read_view.fields[i].vis == if input.fields[i].vis is Inherited {
            input.vis
        } else {
            input.fields[i].vis
        },
{
}

/// A declaration that fixes its layout already gets no second `repr`: the
/// attributes of both declarations are those it was written with, behind
/// what each is given in front (the condition of the writable declaration, the
/// `#[doc(hidden)]` of the view).
pub proof fn lemma_layout_is_kept(args: ArgsView, input: DeclarationView)
    requires
        rejection(input) is None,
        has_fixed_layout(input.attrs),
    ensures
        expansion(args, input).writable.attrs == condition(args) + input.attrs,
        expansion(args, input).read_view.attrs == seq![doc_hidden()] + input.attrs,
{
}

/// Attributes that have been given a layout fix it, and giving them one
/// again adds nothing.
pub proof fn lemma_layout_is_added_once(attrs: Seq<AttributeView>)
    ensures
        has_fixed_layout(laid_out(attrs)),
        laid_out(laid_out(attrs)) == laid_out(attrs),
{
    if !has_fixed_layout(attrs) {
        let laid = laid_out(attrs);
        let last = attrs.len() as int;
        assert(names_layout(repr_c().meta->List_words[0]));
        assert(fixes_layout(laid[last]));
    }
}

/// Both declarations of an expansion fix their layout, have the same
/// generic parameters and the same fields in the same order: the same
/// names, and the same types but for the rewrite of `Self` in the view.
pub proof fn lemma_same_layout(args: ArgsView, input: DeclarationView)
    requires
        rejection(input) is None,
    ensures
        has_fixed_layout(expansion(args, input).writable.attrs),
        has_fixed_layout(expansion(args, input).read_view.attrs),
        expansion(args, input).writable.generics == expansion(args, input).read_view.generics,
        expansion(args, input).writable.shape == expansion(args, input).read_view.shape,
        expansion(args, input).writable.fields.len() == input.fields.len(),
        expansion(args, input).read_view.fields.len() == input.fields.len(),
        forall|i: int|
            #![trigger expansion(args, input).read_view.fields[i]]
            0 <= i < input.fields.len() ==> {
                let written = expansion(args, input).writable.fields[i];
                let read = expansion(args, input).read_view.fields[i];
                &&& read.name == written.name
                &&& read.attrs == written.attrs
                &&& read.ty == written.ty.replace_self(view_path(input))
            },
{
    let laid = laid_out(input.attrs);
    lemma_layout_is_added_once(input.attrs);
    let j = choose|j: int| 0 <= j < laid.len() && fixes_layout(#[trigger] laid[j]);
    let written = expansion(args, input).writable.attrs;
    let read = expansion(args, input).read_view.attrs;
    assert(written[condition(args).len() + j] == laid[j]);
    assert(read[1 + j] == laid[j]);
}

/// The coercion of an expansion leads from its writable declaration to its
/// read-only view, with the generic parameters that both were declared
/// with.
pub proof fn lemma_coercion_joins_the_pair(args: ArgsView, input: DeclarationView)
    requires
        rejection(input) is None,
    ensures
        expansion(args, input).coercion.source == expansion(args, input).writable.ident,
        expansion(args, input).coercion.target == expansion(args, input).read_view.ident,
        expansion(args, input).coercion.generics == expansion(args, input).writable.generics,
        expansion(args, input).coercion.generics == expansion(args, input).read_view.generics,
{
}

/// The view never takes the name of the struct it belongs to, and the
/// views of two structs with different names have different names.
pub proof fn lemma_view_names_are_distinct(first: DeclarationView, second: DeclarationView)
    ensures
        view_ident(first) != first.ident,
        first.ident != second.ident ==> view_ident(first) != view_ident(second),
{
    reveal_strlit("ReadOnly");
    let prefix = "ReadOnly"@;
    assert(view_ident(first).len() == prefix.len() + first.ident.len());
    if view_ident(first) == view_ident(second) {
        assert(first.ident =~= view_ident(first).subrange(
            prefix.len() as int,
            view_ident(first).len() as int,
        ));
        assert(second.ident =~= view_ident(second).subrange(
            prefix.len() as int,
            view_ident(second).len() as int,
        ));
    }
}

/// In the read-only view every `Self` of a field type has become the path
/// of the view, and names the view: no path that is exactly `Self` is left.
pub proof fn lemma_view_names_itself(args: ArgsView, input: DeclarationView)
    requires
        rejection(input) is None,
    ensures
        view_path(input).children[0].text == view_ident(input),
        forall|i: int|
            #![trigger expansion(args, input).read_view.fields[i]]
            0 <= i < input.fields.len() ==> {
                let read = expansion(args, input).read_view.fields[i];
                &&& read.ty == input.fields[i].ty.replace_self(view_path(input))
                &&& !read.ty.mentions_self()
            },
{
    let path = view_path(input);
    assert(!path.mentions_self()) by {
        reveal_strlit("Self");
        reveal_strlit("ReadOnly");
        let segment = path.children[0];
        assert(segment.text.len() >= 8);
        assert(!segment.mentions_self()) by {
            assert forall|k: int| 0 <= k < segment.children.len() implies !(
            #[trigger] segment.children[k]).mentions_self() by {
                assert(segment.children[k].children.len() == 0);
            }
        }
    }
    assert forall|i: int|
        #![trigger expansion(args, input).read_view.fields[i]]
        0 <= i < input.fields.len() implies {
        let read = expansion(args, input).read_view.fields[i];
        &&& read.ty == input.fields[i].ty.replace_self(view_path(input))
        &&& !read.ty.mentions_self()
    } by {
        lemma_rewrite_removes_self(input.fields[i].ty, path);
    }
}

} // verus!
