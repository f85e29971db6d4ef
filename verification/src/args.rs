//! The arguments of the attribute itself.
//!
//! Syntax:
//!
//! ```text
//! #[readonly::make]
//! #[readonly::make(doc = mycratename_doc_cfg)]
//! ```
//!
//! With `doc = <cfg>`, the declaration is also emitted as it was written,
//! active only where `<cfg>` is set, so that generated documentation can
//! show the struct in its natural shape. The transformed declaration is
//! then active only where `<cfg>` is not set.

use crate::diagnostic::{Diagnostic, DiagnosticView};
use crate::text::text_is;
use vstd::prelude::*;

verus! {

/// One token of the attribute's arguments.
#[derive(Debug, PartialEq, Eq)]
pub enum Token {
    /// An identifier or a keyword, as written.
    Ident(String),
    /// One punctuation character.
    Punct(char),
    /// A literal, as written.
    Literal(String),
    /// A delimited group, as written.
    Group(String),
}

/// The view of a [`Token`].
pub enum TokenView {
    Ident(Seq<char>),
    Punct(char),
    Literal(Seq<char>),
    Group(Seq<char>),
}

impl DeepView for Token {
    type V = TokenView;

    open spec fn deep_view(&self) -> TokenView {
        match self {
            Token::Ident(word) => TokenView::Ident(word@),
            Token::Punct(mark) => TokenView::Punct(*mark),
            Token::Literal(text) => TokenView::Literal(text@),
            Token::Group(text) => TokenView::Group(text@),
        }
    }
}

impl View for Token {
    type V = TokenView;

    open spec fn view(&self) -> TokenView {
        self.deep_view()
    }
}

/// The configuration of one use of the attribute.
#[derive(Debug, PartialEq, Eq)]
pub struct Args {
    /// The build-time condition under which the declaration is shown as it
    /// was written.
    pub doc_cfg: Option<String>,
}

/// The view of an [`Args`].
pub struct ArgsView {
    pub doc_cfg: Option<Seq<char>>,
}

impl DeepView for Args {
    type V = ArgsView;

    open spec fn deep_view(&self) -> ArgsView {
        ArgsView { doc_cfg: self.doc_cfg.deep_view() }
    }
}

impl View for Args {
    type V = ArgsView;

    open spec fn view(&self) -> ArgsView {
        self.deep_view()
    }
}

/// Whether `word` is an identifier, as `syn::parse_str::<syn::Ident>`
/// decides it: `syn` reads the text as tokens and accepts it where it is
/// one identifier token that is neither a keyword nor `_`.
///
/// Trusted, and nothing is claimed of the answer: which lexer reads the
/// text depends on whether the call is made inside a procedural macro, so
/// the callers state what holds whichever answer comes back.
#[verifier::external_body]
fn is_identifier(word: &str) -> (accepted: bool) {
    syn::parse_str::<syn::Ident>(word).is_ok()
}

/// Whether `token` is the identifier `word`.
pub open spec fn is_word(token: TokenView, word: Seq<char>) -> bool {
    token == TokenView::Ident(word)
}

/// The position of the first token at which `input` stops reading as
/// `doc = <identifier>`, where `identifier` tells whether the third token,
/// if it is an identifier token at all, names an identifier. The length of
/// `input` stands for an input that ends too early; `None` means that the
/// whole input reads as `doc = <identifier>`.
pub open spec fn mismatch(input: Seq<TokenView>, identifier: bool) -> Option<usize> {
    if !(input.len() > 0 && is_word(input[0], "doc"@)) {
        Some(0)
    } else if !(input.len() > 1 && input[1] == TokenView::Punct('=')) {
        Some(1)
    } else if !(input.len() > 2 && input[2] is Ident && identifier) {
        Some(2)
    } else if input.len() > 3 {
        Some(3)
    } else {
        None
    }
}

/// What the parser expected at `position`.
pub open spec fn expectation(position: usize) -> Seq<char> {
    if position == 0 {
        "expected `doc`"@
    } else if position == 1 {
        "expected `=`"@
    } else if position == 2 {
        "expected identifier"@
    } else {
        "unexpected token"@
    }
}

/// The configuration that `input` stands for: none for an empty input, the
/// named condition for `doc = <identifier>`, and otherwise an error at the
/// first token that does not fit.
pub open spec fn parsed(input: Seq<TokenView>, identifier: bool) -> Result<
    ArgsView,
    DiagnosticView,
> {
    if input.len() == 0 {
        Ok(ArgsView { doc_cfg: None })
    } else {
        match mismatch(input, identifier) {
            Some(position) => Err(DiagnosticView::configuration(position, expectation(position))),
            None => Ok(ArgsView { doc_cfg: Some(input[2]->Ident_0) }),
        }
    }
}

/// Whether `input` has a third token and that token is an identifier
/// token: the one case in which the word is put to `syn`.
pub open spec fn has_candidate(input: Seq<TokenView>) -> bool {
    input.len() > 2 && input[2] is Ident
}

/// The view of what the arguments were read as.
pub open spec fn configuration_view(result: Result<Args, Diagnostic>) -> Result<
    ArgsView,
    DiagnosticView,
> {
    match result {
        Ok(args) => Ok(args@),
        Err(diagnostic) => Err(diagnostic@),
    }
}

impl Args {
    /// Reads the arguments of the attribute: nothing, or
    /// `doc = <identifier>`.
    ///
    /// Whether the third token names an identifier is for `syn` to say.
    /// The result is what [`Args::parse_with`] gives for one of the two
    /// answers, and for the answer "no" where there is no identifier token
    /// in third place to ask about.
    pub fn parse(input: &Vec<Token>) -> (result: Result<Args, Diagnostic>)
        ensures
            exists|identifier: bool|
                configuration_view(result) == parsed(input.deep_view(), identifier),
            !has_candidate(input.deep_view()) ==> configuration_view(result) == parsed(
                input.deep_view(),
                false,
            ),
    {
        let identifier = if input.len() > 2 {
            match &input[2] {
                Token::Ident(word) => is_identifier(word.as_str()),
                _ => false,
            }
        } else {
            false
        };
        Args::parse_with(input, identifier)
    }

    /// Reads the arguments of the attribute, given whether the third token
    /// names an identifier.
    pub fn parse_with(input: &Vec<Token>, identifier: bool) -> (result: Result<Args, Diagnostic>)
        ensures
            configuration_view(result) == parsed(input.deep_view(), identifier),
    {
        if input.len() == 0 {
            return Ok(Args { doc_cfg: None });
        }
        let doc = match &input[0] {
            Token::Ident(word) => text_is(word, "doc"),
            _ => false,
        };
        if !doc {
            return Err(Diagnostic::configuration(0, "expected `doc`"));
        }
        let assign = input.len() > 1 && match &input[1] {
            Token::Punct(mark) => *mark == '=',
            _ => false,
        };
        if !assign {
            return Err(Diagnostic::configuration(1, "expected `=`"));
        }
        if input.len() > 2 && identifier {
            if let Token::Ident(word) = &input[2] {
                if input.len() > 3 {
                    return Err(Diagnostic::configuration(3, "unexpected token"));
                }
                return Ok(Args { doc_cfg: Some(word.clone()) });
            }
        }
        Err(Diagnostic::configuration(2, "expected identifier"))
    }
}

} // verus!
