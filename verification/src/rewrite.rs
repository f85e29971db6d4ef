//! Rewriting `Self` inside the field types of the read-only view.
//!
//! The view is a declaration of its own, so a `Self` that a field type was
//! written with would name the wrong type there. Every path that is exactly
//! `Self` is replaced by a path that names the view.

use crate::model::{NodeKind, TypeExpr, TypeExprView};
use crate::text::text_is;
use vstd::prelude::*;

verus! {

impl TypeExprView {
    /// Whether this node is a path that consists of the single identifier
    /// `name`: no leading `::`, one segment, no generic arguments.
    pub open spec fn is_ident(self, name: Seq<char>) -> bool {
        &&& self.kind == NodeKind::Path
        &&& self.children.len() == 1
        &&& self.children[0].kind == NodeKind::Segment
        &&& self.children[0].text == name
        &&& self.children[0].children.len() == 0
    }

    /// Whether a path that is exactly `Self` occurs anywhere in this tree.
    pub open spec fn mentions_self(self) -> bool
        decreases self,
    {
        self.is_ident("Self"@) || exists|i: int|
            0 <= i < self.children.len() && (#[trigger] self.children[i]).mentions_self()
    }

    /// This tree with every path that is exactly `Self` replaced by `with`.
    /// Nothing is replaced inside `with` itself.
    pub open spec fn replace_self(self, with: TypeExprView) -> TypeExprView
        decreases self,
    {
        if self.is_ident("Self"@) {
            with
        } else {
            TypeExprView {
                kind: self.kind,
                text: self.text,
                children: Seq::new(
                    self.children.len(),
                    |i: int|
                        if 0 <= i < self.children.len() {
                            self.children[i].replace_self(with)
                        } else {
                            arbitrary()
                        },
                ),
            }
        }
    }
}

impl TypeExpr {
    /// Whether this node is a path that consists of the single identifier
    /// `name`.
    pub fn is_ident(&self, name: &str) -> (found: bool)
        ensures
            found == self@.is_ident(name@),
    {
        match self.kind {
            NodeKind::Path => {
                if self.children.len() != 1 {
                    return false;
                }
                let segment = &self.children[0];
                assert(segment@.children.len() == segment.children@.len());
                match segment.kind {
                    NodeKind::Segment => {
                        segment.children.len() == 0 && text_is(&segment.text, name)
                    },
                    _ => false,
                }
            },
            _ => false,
        }
    }
}

/// A visitor of type expressions that replaces `Self` by a given path.
pub struct ReplaceSelf<'a> {
    with: &'a TypeExpr,
}

impl<'a> ReplaceSelf<'a> {
    /// The path that replaces `Self`.
    pub closed spec fn target(&self) -> TypeExprView {
        self.with@
    }

    /// The rewrite of `Self` into `with`.
    pub fn new(with: &'a TypeExpr) -> (rewrite: Self)
        ensures
            rewrite.target() == with@,
    {
        ReplaceSelf { with }
    }

    /// A copy of `node` in which every path that is exactly `Self` is
    /// replaced by the target; any other node is kept and its children are
    /// visited in turn.
    pub fn visit(&self, node: &TypeExpr) -> (out: TypeExpr)
        ensures
            out@ == node@.replace_self(self.target()),
        decreases node,
    {
        if node.is_ident("Self") {
            self.with.clone()
        } else {
            let mut children: Vec<TypeExpr> = Vec::new();
            let mut i: usize = 0;
            while i < node.children.len()
                invariant
                    i <= node.children@.len(),
                    children@.len() == i,
                    forall|k: int|
                        0 <= k < i ==> (#[trigger] children@[k]).model()
                            == node.children@[k].model().replace_self(self.target()),
                decreases node.children@.len() - i,
            {
                children.push(self.visit(&node.children[i]));
                i += 1;
            }
            let out = TypeExpr { kind: node.kind, text: node.text.clone(), children };
            assert(out@.children =~= node@.replace_self(self.target()).children);
            out
        }
    }
}

/// A tree in which no path is exactly `Self` is left as it is by the
/// rewrite, whatever the replacement.
pub proof fn lemma_rewrite_without_self(node: TypeExprView, with: TypeExprView)
    requires
        !node.mentions_self(),
    ensures
        node.replace_self(with) == node,
    decreases node,
{
    assert forall|i: int| 0 <= i < node.children.len() implies (#[trigger] node.children[i])
        .replace_self(with) == node.children[i] by {
        lemma_rewrite_without_self(node.children[i], with);
    }
    assert(node.replace_self(with).children =~= node.children);
}

/// After the rewrite no path is exactly `Self` any more, provided the
/// replacement is a path that holds no such path itself.
pub proof fn lemma_rewrite_removes_self(node: TypeExprView, with: TypeExprView)
    requires
        with.kind == NodeKind::Path,
        !with.mentions_self(),
    ensures
        !node.replace_self(with).mentions_self(),
    decreases node,
{
    if !node.is_ident("Self"@) {
        let out = node.replace_self(with);
        assert forall|i: int| 0 <= i < out.children.len() implies !(#[trigger] out.children[i])
            .mentions_self() by {
            lemma_rewrite_removes_self(node.children[i], with);
        }
        if out.is_ident("Self"@) {
            let first = node.children[0];
            assert(first.replace_self(with).children.len() == first.children.len());
        }
    }
}

/// Rewriting twice gives what rewriting once gives.
pub proof fn lemma_rewrite_idempotent(node: TypeExprView, with: TypeExprView)
    requires
        with.kind == NodeKind::Path,
        !with.mentions_self(),
    ensures
        node.replace_self(with).replace_self(with) == node.replace_self(with),
{
    lemma_rewrite_removes_self(node, with);
    lemma_rewrite_without_self(node.replace_self(with), with);
}

} // verus!
