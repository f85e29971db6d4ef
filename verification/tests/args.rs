use readonly::args::{Args, Token};
use readonly::diagnostic::{Anchor, Diagnostic, ErrorKind};

fn ident(word: &str) -> Token {
    Token::Ident(word.to_string())
}

fn assignment(name: &str, value: Token) -> Vec<Token> {
    vec![ident(name), Token::Punct('='), value]
}

fn rejected(position: usize, message: &str) -> Result<Args, Diagnostic> {
    Err(Diagnostic {
        kind: ErrorKind::MalformedConfiguration,
        anchor: Anchor::Argument(position),
        message: message.to_string(),
    })
}

#[test]
fn empty_arguments_configure_nothing() {
    assert_eq!(Args::parse(&vec![]), Ok(Args { doc_cfg: None }));
    assert_eq!(Args::parse_with(&vec![], false), Ok(Args { doc_cfg: None }));
    assert_eq!(Args::parse_with(&vec![], true), Ok(Args { doc_cfg: None }));
}

#[test]
fn doc_names_the_documentation_condition() {
    let input = assignment("doc", ident("mycratename_doc_cfg"));
    assert_eq!(
        Args::parse(&input),
        Ok(Args { doc_cfg: Some("mycratename_doc_cfg".to_string()) })
    );
}

#[test]
fn raw_identifier_is_an_identifier() {
    let input = assignment("doc", ident("r#type"));
    assert_eq!(Args::parse(&input), Ok(Args { doc_cfg: Some("r#type".to_string()) }));
}

#[test]
fn keyword_is_not_an_identifier() {
    for keyword in ["fn", "struct", "self", "Self", "crate", "_", "true"] {
        let input = assignment("doc", ident(keyword));
        assert_eq!(Args::parse(&input), rejected(2, "expected identifier"), "{}", keyword);
    }
}

#[test]
fn text_that_is_no_identifier_is_rejected() {
    for word in ["", "1abc", "a b", "a-b", "a::b", "\"doc\""] {
        let input = assignment("doc", ident(word));
        assert_eq!(Args::parse(&input), rejected(2, "expected identifier"), "{:?}", word);
    }
}

#[test]
fn first_token_must_be_doc() {
    assert_eq!(Args::parse(&vec![ident("docs")]), rejected(0, "expected `doc`"));
    assert_eq!(Args::parse(&vec![ident("r#doc")]), rejected(0, "expected `doc`"));
    assert_eq!(Args::parse(&vec![Token::Punct('=')]), rejected(0, "expected `doc`"));
    assert_eq!(
        Args::parse(&vec![Token::Literal("\"doc\"".to_string())]),
        rejected(0, "expected `doc`")
    );
    assert_eq!(
        Args::parse(&vec![Token::Group("(doc = x)".to_string())]),
        rejected(0, "expected `doc`")
    );
    assert_eq!(
        Args::parse(&assignment("cfg", ident("docsrs"))),
        rejected(0, "expected `doc`")
    );
}

#[test]
fn second_token_must_be_the_equals_sign() {
    assert_eq!(Args::parse(&vec![ident("doc")]), rejected(1, "expected `=`"));
    assert_eq!(
        Args::parse(&vec![ident("doc"), ident("docsrs")]),
        rejected(1, "expected `=`")
    );
    assert_eq!(
        Args::parse(&vec![ident("doc"), Token::Punct(':'), ident("docsrs")]),
        rejected(1, "expected `=`")
    );
    assert_eq!(
        Args::parse(&vec![ident("doc"), Token::Group("(docsrs)".to_string())]),
        rejected(1, "expected `=`")
    );
}

#[test]
fn third_token_must_be_an_identifier() {
    assert_eq!(
        Args::parse(&vec![ident("doc"), Token::Punct('=')]),
        rejected(2, "expected identifier")
    );
    assert_eq!(
        Args::parse(&assignment("doc", Token::Literal("\"docsrs\"".to_string()))),
        rejected(2, "expected identifier")
    );
    assert_eq!(
        Args::parse(&assignment("doc", Token::Punct('='))),
        rejected(2, "expected identifier")
    );
}

#[test]
fn nothing_may_follow_the_identifier() {
    let mut input = assignment("doc", ident("docsrs"));
    input.push(Token::Punct(','));
    assert_eq!(Args::parse(&input), rejected(3, "unexpected token"));
    input.push(ident("more"));
    assert_eq!(Args::parse(&input), rejected(3, "unexpected token"));
}

#[test]
fn parse_with_takes_the_verdict_on_the_identifier() {
    let input = assignment("doc", ident("docsrs"));
    assert_eq!(
        Args::parse_with(&input, true),
        Ok(Args { doc_cfg: Some("docsrs".to_string()) })
    );
    assert_eq!(Args::parse_with(&input, false), rejected(2, "expected identifier"));
    // The verdict is asked for only where the first two tokens fit.
    assert_eq!(
        Args::parse_with(&assignment("dox", ident("docsrs")), true),
        rejected(0, "expected `doc`")
    );
    assert_eq!(
        Args::parse_with(&assignment("doc", Token::Literal("1".to_string())), true),
        rejected(2, "expected identifier")
    );
}
