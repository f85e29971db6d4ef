//! What the attribute reports when it is misused.

use vstd::prelude::*;

verus! {

/// The kinds of misuse.
#[derive(Clone, Copy, Debug, PartialEq, Eq, Structural)]
pub enum ErrorKind {
    /// The declaration is an enum or a union. Fatal.
    NotAStruct,
    /// The declaration is a struct without fields. Fatal.
    EmptyStruct,
    /// The arguments of the attribute are neither empty nor
    /// `doc = <identifier>`. Fatal.
    MalformedConfiguration,
    /// A `#[readonly]` on a field carries arguments. Reported beside the
    /// expansion, which is still produced.
    MalformedFieldAnnotation,
}

/// Where a diagnostic points.
#[derive(Clone, Copy, Debug, PartialEq, Eq, Structural)]
pub enum Anchor {
    /// The place where the attribute is applied.
    CallSite,
    /// The token at this position among the arguments of the attribute; the
    /// number of tokens stands for the end of the arguments.
    Argument(usize),
    /// The attribute at position `attr` on the field at position `field`,
    /// both counted in the declaration as it was given.
    FieldAttribute { field: usize, attr: usize },
}

/// One error message with the place it belongs to.
#[derive(Debug, PartialEq, Eq)]
pub struct Diagnostic {
    pub kind: ErrorKind,
    pub anchor: Anchor,
    pub message: String,
}

/// The view of a [`Diagnostic`].
pub struct DiagnosticView {
    pub kind: ErrorKind,
    pub anchor: Anchor,
    pub message: Seq<char>,
}

impl DeepView for Diagnostic {
    type V = DiagnosticView;

    open spec fn deep_view(&self) -> DiagnosticView {
        DiagnosticView { kind: self.kind, anchor: self.anchor, message: self.message@ }
    }
}

impl View for Diagnostic {
    type V = DiagnosticView;

    open spec fn view(&self) -> DiagnosticView {
        self.deep_view()
    }
}

impl Clone for Diagnostic {
    fn clone(&self) -> (copy: Self)
        ensures
            copy@ == self@,
    {
        Diagnostic { kind: self.kind, anchor: self.anchor, message: self.message.clone() }
    }
}

impl DiagnosticView {
    /// The rejection of an enum or a union.
    pub open spec fn not_a_struct() -> DiagnosticView {
        DiagnosticView {
            kind: ErrorKind::NotAStruct,
            anchor: Anchor::CallSite,
            message: "input must be a struct"@,
        }
    }

    /// The rejection of a struct without fields.
    pub open spec fn empty_struct() -> DiagnosticView {
        DiagnosticView {
            kind: ErrorKind::EmptyStruct,
            anchor: Anchor::CallSite,
            message: "input must be a struct with fields"@,
        }
    }

    /// The complaint about arguments on the marker of a field.
    pub open spec fn unexpected_token(field: usize, attr: usize) -> DiagnosticView {
        DiagnosticView {
            kind: ErrorKind::MalformedFieldAnnotation,
            anchor: Anchor::FieldAttribute { field, attr },
            message: "unexpected token"@,
        }
    }

    /// The rejection of the attribute's own arguments at `position`.
    pub open spec fn configuration(position: usize, message: Seq<char>) -> DiagnosticView {
        DiagnosticView {
            kind: ErrorKind::MalformedConfiguration,
            anchor: Anchor::Argument(position),
            message,
        }
    }
}

impl Diagnostic {
    pub fn not_a_struct() -> (diagnostic: Self)
        ensures
            diagnostic@ == DiagnosticView::not_a_struct(),
    {
        Diagnostic {
            kind: ErrorKind::NotAStruct,
            anchor: Anchor::CallSite,
            message: "input must be a struct".to_owned(),
        }
    }

    pub fn empty_struct() -> (diagnostic: Self)
        ensures
            diagnostic@ == DiagnosticView::empty_struct(),
    {
        Diagnostic {
            kind: ErrorKind::EmptyStruct,
            anchor: Anchor::CallSite,
            message: "input must be a struct with fields".to_owned(),
        }
    }

    pub fn unexpected_token(field: usize, attr: usize) -> (diagnostic: Self)
        ensures
            diagnostic@ == DiagnosticView::unexpected_token(field, attr),
    {
        Diagnostic {
            kind: ErrorKind::MalformedFieldAnnotation,
            anchor: Anchor::FieldAttribute { field, attr },
            message: "unexpected token".to_owned(),
        }
    }

    pub fn configuration(position: usize, message: &str) -> (diagnostic: Self)
        ensures
            diagnostic@ == DiagnosticView::configuration(position, message@),
    {
        Diagnostic {
            kind: ErrorKind::MalformedConfiguration,
            anchor: Anchor::Argument(position),
            message: message.to_owned(),
        }
    }
}

} // verus!
