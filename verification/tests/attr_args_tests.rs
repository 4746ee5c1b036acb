use compact_option::attr_args::{
    attr_step, check_attr_pieces, expectation, AttrArgsError, AttrExpect, AttrParseState, AttrPiece,
};

fn ident(s: &str) -> AttrPiece {
    AttrPiece::Ident(s.to_string())
}

fn head() -> Vec<AttrPiece> {
    vec![
        ident("repr"),
        AttrPiece::OpenParen,
        ident("R"),
        AttrPiece::Eq,
        AttrPiece::TypeParsed,
        AttrPiece::Comma,
        ident("sentinel"),
        AttrPiece::Eq,
        AttrPiece::ExprParsed,
    ]
}

fn with(mut pieces: Vec<AttrPiece>, more: Vec<AttrPiece>) -> Vec<AttrPiece> {
    pieces.extend(more);
    pieces
}

fn flag(name: &str) -> Vec<AttrPiece> {
    vec![AttrPiece::Comma, ident(name), AttrPiece::Eq, AttrPiece::BoolLit]
}

#[test]
fn plain_arguments_are_accepted() {
    let p = with(head(), vec![AttrPiece::CloseParen, AttrPiece::End]);
    assert_eq!(check_attr_pieces(&p), Ok(AttrParseState::Done));
}

#[test]
fn one_trailing_comma_inside_the_parentheses_is_accepted() {
    let p = with(head(), vec![AttrPiece::Comma, AttrPiece::CloseParen, AttrPiece::End]);
    assert_eq!(check_attr_pieces(&p), Ok(AttrParseState::Done));
}

#[test]
fn verify_discriminants_flags_are_accepted() {
    let mut p = with(head(), vec![AttrPiece::CloseParen]);
    p.extend(flag("verify_discriminants"));
    p.extend(flag("verify_discriminants"));
    p.push(AttrPiece::End);
    assert_eq!(check_attr_pieces(&p), Ok(AttrParseState::Done));
}

#[test]
fn first_identifier_must_be_repr() {
    let mut p = head();
    p[0] = ident("layout");
    assert_eq!(check_attr_pieces(&p), Err(AttrArgsError::ExpectedRepr));
}

#[test]
fn identifier_in_parentheses_must_be_r() {
    let mut p = head();
    p[2] = ident("T");
    assert_eq!(check_attr_pieces(&p), Err(AttrArgsError::ExpectedR));
}

#[test]
fn identifier_after_the_type_must_be_sentinel() {
    let mut p = head();
    p[6] = ident("none");
    assert_eq!(check_attr_pieces(&p), Err(AttrArgsError::ExpectedSentinel));
}

#[test]
fn extra_tokens_in_the_parentheses_are_refused() {
    let p = with(head(), vec![AttrPiece::Other]);
    assert_eq!(check_attr_pieces(&p), Err(AttrArgsError::UnexpectedTokensInRepr));
    let p = with(head(), vec![AttrPiece::Comma, AttrPiece::Other]);
    assert_eq!(check_attr_pieces(&p), Err(AttrArgsError::UnexpectedTokensInRepr));
}

#[test]
fn unknown_flags_are_refused_at_their_equals_sign() {
    let mut p = with(head(), vec![AttrPiece::CloseParen]);
    p.extend(flag("check_layout"));
    p.push(AttrPiece::End);
    assert_eq!(check_attr_pieces(&p), Err(AttrArgsError::UnknownFlag));
}

#[test]
fn flag_value_must_be_a_bool_literal() {
    let p = with(
        head(),
        vec![
            AttrPiece::CloseParen,
            AttrPiece::Comma,
            ident("verify_discriminants"),
            AttrPiece::Eq,
            AttrPiece::Other,
        ],
    );
    assert_eq!(check_attr_pieces(&p), Err(AttrArgsError::Syntax));
}

#[test]
fn missing_pieces_are_syntax_errors() {
    let mut p = head();
    p[3] = AttrPiece::Comma;
    assert_eq!(check_attr_pieces(&p), Err(AttrArgsError::Syntax));
    let p = vec![AttrPiece::Other];
    assert_eq!(check_attr_pieces(&p), Err(AttrArgsError::Syntax));
    let p = with(head(), vec![AttrPiece::CloseParen, AttrPiece::Other]);
    assert_eq!(check_attr_pieces(&p), Err(AttrArgsError::Syntax));
}

#[test]
fn nothing_follows_the_end() {
    let p = with(head(), vec![AttrPiece::CloseParen, AttrPiece::End, AttrPiece::End]);
    assert_eq!(check_attr_pieces(&p), Err(AttrArgsError::Syntax));
}

#[test]
fn an_unfinished_run_stops_where_it_is() {
    let p = head();
    assert_eq!(check_attr_pieces(&p), Ok(AttrParseState::AfterExpr));
    assert_eq!(expectation(AttrParseState::AfterExpr), AttrExpect::CommaOrClose);
}

#[test]
fn each_step_names_what_comes_next() {
    assert_eq!(expectation(AttrParseState::Start), AttrExpect::Ident);
    assert_eq!(
        attr_step(AttrParseState::Start, &ident("repr")),
        Ok((AttrParseState::AfterRepr, AttrExpect::OpenParen))
    );
    assert_eq!(
        attr_step(AttrParseState::AfterREq, &AttrPiece::TypeParsed),
        Ok((AttrParseState::AfterType, AttrExpect::Comma))
    );
    assert_eq!(
        attr_step(AttrParseState::FlagComma, &ident("verify_discriminants")),
        Ok((AttrParseState::FlagKey { known: true }, AttrExpect::Eq))
    );
    assert_eq!(
        attr_step(AttrParseState::FlagComma, &ident("other")),
        Ok((AttrParseState::FlagKey { known: false }, AttrExpect::Eq))
    );
    assert_eq!(
        attr_step(AttrParseState::AfterParen, &AttrPiece::End),
        Ok((AttrParseState::Done, AttrExpect::Done))
    );
}
