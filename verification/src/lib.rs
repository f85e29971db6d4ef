//! Struct fields that can be read and written from within the same module,
//! but from outside the module can only be read.
//!
//! This crate is the verified core of the `readonly` attribute. It works on
//! a plain model of a type declaration ([`model::Declaration`]), decides
//! what the attribute expands to ([`expand::readonly`]) and writes the
//! expansion as source text ([`expand::Expansion::to_source`]). Turning
//! the tokens of the compiler into that model, and placing the diagnostics
//! in the source, is left to the procedural-macro front end.
//!
//! # Syntax
//!
//! Placed on a braced struct or tuple struct, the attribute makes all
//! fields of the struct readable according to their individual visibility
//! specifiers, but not writable from other modules:
//!
//! ```text
//! #[readonly::make]
//! pub struct S {
//!     pub n: i32,
//! }
//! ```
//!
//! With `#[readonly]` on individual fields, just those fields are made
//! readable, without affecting the other fields of the struct:
//!
//! ```text
//! #[readonly::make]
//! pub struct S {
//!     // This field can be read (but not written) by super.
//!     #[readonly]
//!     pub(super) readable: i32,
//!
//!     // This field can be neither read nor written by other modules.
//!     private: i32,
//! }
//! ```
//!
//! # Expansion
//!
//! The struct is emitted twice with the same fields and a fixed layout:
//! once under its own name with the exposed fields made private, and once
//! as a hidden view that keeps them visible. A reference to the first
//! coerces to a reference to the second, so that code outside the defining
//! module reads the fields through the view and cannot write them.

pub mod args;
pub mod diagnostic;
pub mod expand;
pub mod laws;
pub mod model;
pub mod render;
pub mod rewrite;
pub mod text;

use crate::args::{has_candidate, parsed, Args, ArgsView, Token};
use crate::diagnostic::{Diagnostic, DiagnosticView};
use crate::expand::{expanded, readonly, Expansion, ExpansionView};
use crate::model::{Declaration, DeclarationView};
use vstd::prelude::*;

verus! {

/// What one use of the attribute comes to.
#[derive(Debug, PartialEq, Eq)]
pub enum Outcome {
    /// The declaration is replaced by the expansion.
    Expanded(Expansion),
    /// Nothing is expanded. The declaration is emitted again as it was
    /// given, so that the rest of the program still finds it, followed by
    /// the one diagnostic.
    Rejected(Diagnostic),
}

/// The view of an [`Outcome`].
pub enum OutcomeView {
    Expanded(ExpansionView),
    Rejected(DiagnosticView),
}

impl DeepView for Outcome {
    type V = OutcomeView;

    open spec fn deep_view(&self) -> OutcomeView {
        match self {
            Outcome::Expanded(expansion) => OutcomeView::Expanded(expansion@),
            Outcome::Rejected(diagnostic) => OutcomeView::Rejected(diagnostic@),
        }
    }
}

impl View for Outcome {
    type V = OutcomeView;

    open spec fn view(&self) -> OutcomeView {
        self.deep_view()
    }
}

/// The outcome for a declaration, given what the arguments of the
/// attribute were read as: the diagnostic for malformed arguments, else
/// the diagnostic for a declaration that is rejected, else the expansion.
pub open spec fn outcome(
    configuration: Result<ArgsView, DiagnosticView>,
    input: DeclarationView,
) -> OutcomeView {
    match configuration {
        Err(diagnostic) => OutcomeView::Rejected(diagnostic),
        Ok(args) => match expanded(args, input) {
            Ok(expansion) => OutcomeView::Expanded(expansion),
            Err(diagnostic) => OutcomeView::Rejected(diagnostic),
        },
    }
}

/// The attribute: reads its arguments, then expands the declaration.
///
/// Whether the third argument names an identifier is for `syn` to say.
/// The result is what [`make_with`] gives for the arguments as read with
/// one of the two answers, and with the answer "no" where there is no
/// identifier token in third place to ask about.
pub fn make(args: &Vec<Token>, input: Declaration) -> (result: Outcome)
    ensures
        exists|identifier: bool|
            result@ == outcome(parsed(args.deep_view(), identifier), input@),
        !has_candidate(args.deep_view()) ==> result@ == outcome(
            parsed(args.deep_view(), false),
            input@,
        ),
{
    make_with(Args::parse(args), input)
}

/// The attribute, once its arguments have been read.
pub fn make_with(configuration: Result<Args, Diagnostic>, input: Declaration) -> (result: Outcome)
    ensures
        result@ == outcome(crate::args::configuration_view(configuration), input@),
{
    match configuration {
        Err(diagnostic) => Outcome::Rejected(diagnostic),
        Ok(args) => match readonly(&args, input) {
            Ok(expansion) => Outcome::Expanded(expansion),
            Err(diagnostic) => Outcome::Rejected(diagnostic),
        },
    }
}

} // verus!
