//! The grammar of the arguments of `#[compact_option(...)]`.
//!
//! The accepted form is
//!
//! ```text
//! repr ( R = <type> , sentinel = <expr> [,] ) { , verify_discriminants = <bool> }
//! ```
//!
//! A reader of the token stream (a syn parser, for instance) walks it piece by
//! piece: [`expectation`] says what to read next, the reader hands what it
//! found to [`attr_step`] as an [`AttrPiece`], and the step says whether the
//! arguments are still well formed and what comes next. Parsing `<type>`,
//! `<expr>` and `<bool>` is the reader's own work; it reports only whether it
//! succeeded. `verify_discriminants` is accepted and has no effect.

use vstd::prelude::*;
use vstd::string::StringExecFns;

verus! {

/// What the reader found at the place the grammar asked about.
#[derive(Clone, Debug, PartialEq, Eq)]
pub enum AttrPiece {
    /// An identifier, by its text.
    Ident(String),
    /// `=`.
    Eq,
    /// `,`.
    Comma,
    /// The opening of a parenthesized group; what follows is read inside it.
    OpenParen,
    /// The end of the parenthesized group: nothing is left inside it.
    CloseParen,
    /// A type was parsed.
    TypeParsed,
    /// An expression was parsed.
    ExprParsed,
    /// A `true` or `false` literal was parsed.
    BoolLit,
    /// The end of the arguments: nothing is left.
    End,
    /// Anything else, or a failed parse.
    Other,
}

/// What the grammar asks the reader to read next.
#[derive(Clone, Copy, Debug, PartialEq, Eq, Structural)]
pub enum AttrExpect {
    Ident,
    Eq,
    Comma,
    OpenParen,
    Type,
    Expr,
    /// A `,`, or the end of the parenthesized group.
    CommaOrClose,
    /// The end of the parenthesized group.
    Close,
    /// A `,`, or the end of the arguments.
    CommaOrEnd,
    BoolLit,
    /// Nothing: the arguments are complete.
    Done,
}

/// Why the arguments are refused.
#[derive(Clone, Copy, Debug, PartialEq, Eq, Structural)]
pub enum AttrArgsError {
    /// The first identifier is not `repr`.
    ExpectedRepr,
    /// The first identifier inside the parentheses is not `R`.
    ExpectedR,
    /// The identifier after the type is not `sentinel`.
    ExpectedSentinel,
    /// Something other than one optional `,` follows the sentinel expression
    /// inside the parentheses.
    UnexpectedTokensInRepr,
    /// A trailing flag other than `verify_discriminants`.
    UnknownFlag,
    /// A piece other than the one that the grammar asked for.
    Syntax,
}

/// A position in the grammar.
#[derive(Clone, Copy, Debug, PartialEq, Eq, Structural)]
pub enum AttrParseState {
    /// Before `repr`.
    Start,
    /// After `repr`, before `(`.
    AfterRepr,
    /// After `(`, before `R`.
    InParen,
    /// After `R`, before `=`.
    AfterR,
    /// After `R =`, before the type.
    AfterREq,
    /// After the type, before `,`.
    AfterType,
    /// After the type and `,`, before `sentinel`.
    AfterTypeComma,
    /// After `sentinel`, before `=`.
    AfterSentinel,
    /// After `sentinel =`, before the expression.
    AfterSentinelEq,
    /// After the expression, before an optional `,` and `)`.
    AfterExpr,
    /// After the `,` that follows the expression, before `)`.
    AfterTrailingComma,
    /// After `)` or after a complete flag.
    AfterParen,
    /// After the `,` that starts a flag, before its name.
    FlagComma,
    /// After a flag's name, before `=`; `known` is whether the name is `verify_discriminants`.
    FlagKey { known: bool },
    /// After `verify_discriminants =`, before the literal.
    FlagEq,
    /// The arguments are complete.
    Done,
}

/// `piece` is the identifier `word`.
pub open spec fn is_word(piece: AttrPiece, word: Seq<char>) -> bool {
    piece matches AttrPiece::Ident(name) && name@ == word
}

/// What the grammar asks for at `state`.
pub open spec fn spec_expectation(state: AttrParseState) -> AttrExpect {
    match state {
        AttrParseState::Start => AttrExpect::Ident,
        AttrParseState::AfterRepr => AttrExpect::OpenParen,
        AttrParseState::InParen => AttrExpect::Ident,
        AttrParseState::AfterR => AttrExpect::Eq,
        AttrParseState::AfterREq => AttrExpect::Type,
        AttrParseState::AfterType => AttrExpect::Comma,
        AttrParseState::AfterTypeComma => AttrExpect::Ident,
        AttrParseState::AfterSentinel => AttrExpect::Eq,
        AttrParseState::AfterSentinelEq => AttrExpect::Expr,
        AttrParseState::AfterExpr => AttrExpect::CommaOrClose,
        AttrParseState::AfterTrailingComma => AttrExpect::Close,
        AttrParseState::AfterParen => AttrExpect::CommaOrEnd,
        AttrParseState::FlagComma => AttrExpect::Ident,
        AttrParseState::FlagKey { .. } => AttrExpect::Eq,
        AttrParseState::FlagEq => AttrExpect::BoolLit,
        AttrParseState::Done => AttrExpect::Done,
    }
}

/// The position after `piece` at `state`, or why `piece` is refused there.
pub open spec fn spec_next_state(state: AttrParseState, piece: AttrPiece) -> Result<AttrParseState, AttrArgsError> {
    match state {
        AttrParseState::Start => match piece {
            AttrPiece::Ident(name) => if name@ == "repr"@ {
                Ok(AttrParseState::AfterRepr)
            } else {
                Err(AttrArgsError::ExpectedRepr)
            },
            _ => Err(AttrArgsError::Syntax),
        },
        AttrParseState::AfterRepr => match piece {
            AttrPiece::OpenParen => Ok(AttrParseState::InParen),
            _ => Err(AttrArgsError::Syntax),
        },
        AttrParseState::InParen => match piece {
            AttrPiece::Ident(name) => if name@ == "R"@ {
                Ok(AttrParseState::AfterR)
            } else {
                Err(AttrArgsError::ExpectedR)
            },
            _ => Err(AttrArgsError::Syntax),
        },
        AttrParseState::AfterR => match piece {
            AttrPiece::Eq => Ok(AttrParseState::AfterREq),
            _ => Err(AttrArgsError::Syntax),
        },
        AttrParseState::AfterREq => match piece {
            AttrPiece::TypeParsed => Ok(AttrParseState::AfterType),
            _ => Err(AttrArgsError::Syntax),
        },
        AttrParseState::AfterType => match piece {
            AttrPiece::Comma => Ok(AttrParseState::AfterTypeComma),
            _ => Err(AttrArgsError::Syntax),
        },
        AttrParseState::AfterTypeComma => match piece {
            AttrPiece::Ident(name) => if name@ == "sentinel"@ {
                Ok(AttrParseState::AfterSentinel)
            } else {
                Err(AttrArgsError::ExpectedSentinel)
            },
            _ => Err(AttrArgsError::Syntax),
        },
        AttrParseState::AfterSentinel => match piece {
            AttrPiece::Eq => Ok(AttrParseState::AfterSentinelEq),
            _ => Err(AttrArgsError::Syntax),
        },
        AttrParseState::AfterSentinelEq => match piece {
            AttrPiece::ExprParsed => Ok(AttrParseState::AfterExpr),
            _ => Err(AttrArgsError::Syntax),
        },
        AttrParseState::AfterExpr => match piece {
            AttrPiece::Comma => Ok(AttrParseState::AfterTrailingComma),
            AttrPiece::CloseParen => Ok(AttrParseState::AfterParen),
            _ => Err(AttrArgsError::UnexpectedTokensInRepr),
        },
        AttrParseState::AfterTrailingComma => match piece {
            AttrPiece::CloseParen => Ok(AttrParseState::AfterParen),
            _ => Err(AttrArgsError::UnexpectedTokensInRepr),
        },
        AttrParseState::AfterParen => match piece {
            AttrPiece::End => Ok(AttrParseState::Done),
            AttrPiece::Comma => Ok(AttrParseState::FlagComma),
            _ => Err(AttrArgsError::Syntax),
        },
        AttrParseState::FlagComma => match piece {
            AttrPiece::Ident(name) => Ok(
                AttrParseState::FlagKey { known: name@ == "verify_discriminants"@ },
            ),
            _ => Err(AttrArgsError::Syntax),
        },
        AttrParseState::FlagKey { known } => match piece {
            AttrPiece::Eq => if known {
                Ok(AttrParseState::FlagEq)
            } else {
                Err(AttrArgsError::UnknownFlag)
            },
            _ => Err(AttrArgsError::Syntax),
        },
        AttrParseState::FlagEq => match piece {
            AttrPiece::BoolLit => Ok(AttrParseState::AfterParen),
            _ => Err(AttrArgsError::Syntax),
        },
        AttrParseState::Done => Err(AttrArgsError::Syntax),
    }
}

/// One step: the next position and what it asks for, or why `piece` is refused.
pub open spec fn spec_attr_step(state: AttrParseState, piece: AttrPiece) -> Result<(AttrParseState, AttrExpect), AttrArgsError> {
    match spec_next_state(state, piece) {
        Ok(next) => Ok((next, spec_expectation(next))),
        Err(e) => Err(e),
    }
}

/// The position after reading all of `pieces` from `state`, or the first refusal.
pub open spec fn run_attr_steps(state: AttrParseState, pieces: Seq<AttrPiece>) -> Result<AttrParseState, AttrArgsError>
    decreases pieces.len(),
{
    if pieces.len() == 0 {
        Ok(state)
    } else {
        match spec_next_state(state, pieces[0]) {
            Ok(next) => run_attr_steps(next, pieces.drop_first()),
            Err(e) => Err(e),
        }
    }
}

/// `repr ( R = <type> , sentinel = <expr>`: the first nine pieces.
pub open spec fn is_attr_head(pieces: Seq<AttrPiece>) -> bool {
    &&& pieces.len() >= 9
    &&& is_word(pieces[0], "repr"@)
    &&& pieces[1] is OpenParen
    &&& is_word(pieces[2], "R"@)
    &&& pieces[3] is Eq
    &&& pieces[4] is TypeParsed
    &&& pieces[5] is Comma
    &&& is_word(pieces[6], "sentinel"@)
    &&& pieces[7] is Eq
    &&& pieces[8] is ExprParsed
}

/// Any number of `, verify_discriminants = <bool>`.
pub open spec fn is_flag_list(pieces: Seq<AttrPiece>) -> bool
    decreases pieces.len(),
{
    if pieces.len() == 0 {
        true
    } else {
        &&& pieces.len() >= 4
        &&& pieces[0] is Comma
        &&& is_word(pieces[1], "verify_discriminants"@)
        &&& pieces[2] is Eq
        &&& pieces[3] is BoolLit
        &&& is_flag_list(pieces.skip(4))
    }
}

/// The flags, then the end of the arguments.
pub open spec fn is_flags_then_end(pieces: Seq<AttrPiece>) -> bool {
    &&& pieces.len() >= 1
    &&& pieces.last() is End
    &&& is_flag_list(pieces.drop_last())
}

/// The grammar: the head, an optional `,`, `)`, the flags, the end.
pub open spec fn attr_args_accepts(pieces: Seq<AttrPiece>) -> bool {
    &&& is_attr_head(pieces)
    &&& pieces.len() >= 10
    &&& {
        ||| pieces[9] is CloseParen && is_flags_then_end(pieces.skip(10))
        ||| pieces.len() >= 11 && pieces[9] is Comma && pieces[10] is CloseParen
            && is_flags_then_end(pieces.skip(11))
    }
}

/// From [`AttrParseState::Done`] only the empty sequence ends in `Done`.
proof fn lemma_run_from_done(pieces: Seq<AttrPiece>)
    ensures
        (run_attr_steps(AttrParseState::Done, pieces) == Ok::<AttrParseState, AttrArgsError>(
            AttrParseState::Done,
        )) == (pieces.len() == 0),
{
}

/// From [`AttrParseState::AfterParen`] the pieces that end in `Done` are the
/// flags followed by the end.
proof fn lemma_run_flags(pieces: Seq<AttrPiece>)
    ensures
        (run_attr_steps(AttrParseState::AfterParen, pieces) == Ok::<AttrParseState, AttrArgsError>(
            AttrParseState::Done,
        )) == is_flags_then_end(pieces),
    decreases pieces.len(),
{
    if pieces.len() == 0 {
    } else if pieces[0] is End {
        lemma_run_from_done(pieces.drop_first());
        if pieces.len() > 1 {
            assert(pieces.drop_last()[0] is End);
        } else {
            assert(pieces.drop_last().len() == 0);
        }
    } else if pieces[0] is Comma {
        reveal_with_fuel(run_attr_steps, 5);
        let rest = pieces.skip(4);
        if pieces.len() >= 4 && is_word(pieces[1], "verify_discriminants"@) && pieces[2] is Eq
            && pieces[3] is BoolLit {
            lemma_run_flags(rest);
            assert(pieces.drop_first().drop_first().drop_first().drop_first() =~= rest);
            if pieces.len() > 4 {
                assert(pieces.drop_last().skip(4) =~= rest.drop_last());
            }
        }
    } else {
        if pieces.len() > 1 {
            assert(pieces.drop_last()[0] == pieces[0]);
        }
    }
}

/// Running over `a + b` is running over `a`, then over `b` from where `a` ended.
proof fn lemma_run_append(state: AttrParseState, a: Seq<AttrPiece>, b: Seq<AttrPiece>)
    ensures
        run_attr_steps(state, a + b) == match run_attr_steps(state, a) {
            Ok(mid) => run_attr_steps(mid, b),
            Err(e) => Err(e),
        },
    decreases a.len(),
{
    if a.len() == 0 {
        assert(a + b =~= b);
    } else {
        assert((a + b).drop_first() =~= a.drop_first() + b);
        assert((a + b)[0] == a[0]);
        if let Ok(next) = spec_next_state(state, a[0]) {
            lemma_run_append(next, a.drop_first(), b);
        }
    }
}

/// The grammar run from [`AttrParseState::Start`] ends in
/// [`AttrParseState::Done`] exactly on the pieces that [`attr_args_accepts`]
/// describes: `repr ( R = <type> , sentinel = <expr> [,] )`, any number of
/// `, verify_discriminants = <bool>`, then the end.
pub proof fn lemma_attr_run_accepts(pieces: Seq<AttrPiece>)
    ensures
        (run_attr_steps(AttrParseState::Start, pieces) == Ok::<AttrParseState, AttrArgsError>(
            AttrParseState::Done,
        )) == attr_args_accepts(pieces),
{
    reveal_with_fuel(run_attr_steps, 11);
    if pieces.len() >= 10 {
        let a = pieces.take(10);
        let b = pieces.skip(10);
        assert(a + b =~= pieces);
        lemma_run_append(AttrParseState::Start, a, b);
        lemma_run_flags(b);
        if b.len() > 0 {
            lemma_run_flags(b.drop_first());
            assert(b.drop_first() =~= pieces.skip(11));
        }
    }
}

/// `piece` is of the kind that `expect` asks the reader for.
pub open spec fn piece_fits(expect: AttrExpect, piece: AttrPiece) -> bool {
    match expect {
        AttrExpect::Ident => piece is Ident,
        AttrExpect::Eq => piece is Eq,
        AttrExpect::Comma => piece is Comma,
        AttrExpect::OpenParen => piece is OpenParen,
        AttrExpect::Type => piece is TypeParsed,
        AttrExpect::Expr => piece is ExprParsed,
        AttrExpect::CommaOrClose => piece is Comma || piece is CloseParen,
        AttrExpect::Close => piece is CloseParen,
        AttrExpect::CommaOrEnd => piece is Comma || piece is End,
        AttrExpect::BoolLit => piece is BoolLit,
        AttrExpect::Done => false,
    }
}

/// What the grammar asks for at a position covers every piece it accepts
/// there: a reader that reads only what it is asked for misses no accepted
/// piece. Conversely, it asks for nothing that is always refused: a piece of an
/// asked-for kind is accepted, except an identifier (accepted by its text) and
/// the `=` after an unknown flag name. At [`AttrParseState::Done`] nothing is
/// accepted and nothing is asked.
pub proof fn lemma_expectation_admits_accepted(state: AttrParseState, piece: AttrPiece)
    ensures
        spec_next_state(state, piece) is Ok ==> piece_fits(spec_expectation(state), piece),
        piece_fits(spec_expectation(state), piece) && !(piece is Ident) && state
            != (AttrParseState::FlagKey { known: false }) ==> spec_next_state(state, piece) is Ok,
        (spec_expectation(state) is Done) == (state is Done),
{
}

/// What a step says comes next covers every piece accepted at the position it
/// reaches: after a step gives `Ok((next, expect))`, each piece that the grammar
/// accepts at `next` is of the kind `expect` asks for.
pub proof fn lemma_step_expectation_admits_next(
    state: AttrParseState,
    piece: AttrPiece,
    following: AttrPiece,
)
    ensures
        spec_attr_step(state, piece) matches Ok((next, expect)) ==> (spec_next_state(
            next,
            following,
        ) is Ok ==> piece_fits(expect, following)),
{
    if let Ok((next, expect)) = spec_attr_step(state, piece) {
        lemma_expectation_admits_accepted(next, following);
    }
}

/// A reader that hands only pieces of the kinds it is asked for can follow
/// every accepted sequence to the end: along the run of an accepted sequence,
/// each piece fits what the position before it asks for.
pub proof fn lemma_accepted_pieces_fit(state: AttrParseState, pieces: Seq<AttrPiece>, i: int)
    requires
        0 <= i < pieces.len(),
        run_attr_steps(state, pieces) == Ok::<AttrParseState, AttrArgsError>(AttrParseState::Done),
    ensures
        run_attr_steps(state, pieces.take(i)) matches Ok(at) && piece_fits(
            spec_expectation(at),
            pieces[i],
        ),
    decreases i,
{
    let first = pieces[0];
    lemma_expectation_admits_accepted(state, first);
    if let Ok(next) = spec_next_state(state, first) {
        assert(pieces.take(1).drop_first() =~= Seq::<AttrPiece>::empty());
        if i == 0 {
            assert(pieces.take(0) =~= Seq::<AttrPiece>::empty());
        } else {
            lemma_accepted_pieces_fit(next, pieces.drop_first(), i - 1);
            assert(pieces.take(i).drop_first() =~= pieces.drop_first().take(i - 1));
            assert(pieces.drop_first()[i - 1] == pieces[i]);
        }
    }
}

/// What the grammar asks for at `state`.
pub fn expectation(state: AttrParseState) -> (result: AttrExpect)
    ensures
        result == spec_expectation(state),
{
    match state {
        AttrParseState::Start => AttrExpect::Ident,
        AttrParseState::AfterRepr => AttrExpect::OpenParen,
        AttrParseState::InParen => AttrExpect::Ident,
        AttrParseState::AfterR => AttrExpect::Eq,
        AttrParseState::AfterREq => AttrExpect::Type,
        AttrParseState::AfterType => AttrExpect::Comma,
        AttrParseState::AfterTypeComma => AttrExpect::Ident,
        AttrParseState::AfterSentinel => AttrExpect::Eq,
        AttrParseState::AfterSentinelEq => AttrExpect::Expr,
        AttrParseState::AfterExpr => AttrExpect::CommaOrClose,
        AttrParseState::AfterTrailingComma => AttrExpect::Close,
        AttrParseState::AfterParen => AttrExpect::CommaOrEnd,
        AttrParseState::FlagComma => AttrExpect::Ident,
        AttrParseState::FlagKey { .. } => AttrExpect::Eq,
        AttrParseState::FlagEq => AttrExpect::BoolLit,
        AttrParseState::Done => AttrExpect::Done,
    }
}

/// Whether `name` is the text `word`.
fn is_named(name: &String, word: &str) -> (result: bool)
    ensures
        result == (name@ == word@),
{
    let expected = String::from_str(word);
    *name == expected
}

/// The position after `piece` at `state`, or why `piece` is refused there.
fn next_state(state: AttrParseState, piece: &AttrPiece) -> (result: Result<AttrParseState, AttrArgsError>)
    ensures
        result == spec_next_state(state, *piece),
{
    match state {
        AttrParseState::Start => match piece {
            AttrPiece::Ident(name) => if is_named(name, "repr") {
                Ok(AttrParseState::AfterRepr)
            } else {
                Err(AttrArgsError::ExpectedRepr)
            },
            _ => Err(AttrArgsError::Syntax),
        },
        AttrParseState::AfterRepr => match piece {
            AttrPiece::OpenParen => Ok(AttrParseState::InParen),
            _ => Err(AttrArgsError::Syntax),
        },
        AttrParseState::InParen => match piece {
            AttrPiece::Ident(name) => if is_named(name, "R") {
                Ok(AttrParseState::AfterR)
            } else {
                Err(AttrArgsError::ExpectedR)
            },
            _ => Err(AttrArgsError::Syntax),
        },
        AttrParseState::AfterR => match piece {
            AttrPiece::Eq => Ok(AttrParseState::AfterREq),
            _ => Err(AttrArgsError::Syntax),
        },
        AttrParseState::AfterREq => match piece {
            AttrPiece::TypeParsed => Ok(AttrParseState::AfterType),
            _ => Err(AttrArgsError::Syntax),
        },
        AttrParseState::AfterType => match piece {
            AttrPiece::Comma => Ok(AttrParseState::AfterTypeComma),
            _ => Err(AttrArgsError::Syntax),
        },
        AttrParseState::AfterTypeComma => match piece {
            AttrPiece::Ident(name) => if is_named(name, "sentinel") {
                Ok(AttrParseState::AfterSentinel)
            } else {
                Err(AttrArgsError::ExpectedSentinel)
            },
            _ => Err(AttrArgsError::Syntax),
        },
        AttrParseState::AfterSentinel => match piece {
            AttrPiece::Eq => Ok(AttrParseState::AfterSentinelEq),
            _ => Err(AttrArgsError::Syntax),
        },
        AttrParseState::AfterSentinelEq => match piece {
            AttrPiece::ExprParsed => Ok(AttrParseState::AfterExpr),
            _ => Err(AttrArgsError::Syntax),
        },
        AttrParseState::AfterExpr => match piece {
            AttrPiece::Comma => Ok(AttrParseState::AfterTrailingComma),
            AttrPiece::CloseParen => Ok(AttrParseState::AfterParen),
            _ => Err(AttrArgsError::UnexpectedTokensInRepr),
        },
        AttrParseState::AfterTrailingComma => match piece {
            AttrPiece::CloseParen => Ok(AttrParseState::AfterParen),
            _ => Err(AttrArgsError::UnexpectedTokensInRepr),
        },
        AttrParseState::AfterParen => match piece {
            AttrPiece::End => Ok(AttrParseState::Done),
            AttrPiece::Comma => Ok(AttrParseState::FlagComma),
            _ => Err(AttrArgsError::Syntax),
        },
        AttrParseState::FlagComma => match piece {
            AttrPiece::Ident(name) => Ok(
                AttrParseState::FlagKey { known: is_named(name, "verify_discriminants") },
            ),
            _ => Err(AttrArgsError::Syntax),
        },
        AttrParseState::FlagKey { known } => match piece {
            AttrPiece::Eq => if known {
                Ok(AttrParseState::FlagEq)
            } else {
                Err(AttrArgsError::UnknownFlag)
            },
            _ => Err(AttrArgsError::Syntax),
        },
        AttrParseState::FlagEq => match piece {
            AttrPiece::BoolLit => Ok(AttrParseState::AfterParen),
            _ => Err(AttrArgsError::Syntax),
        },
        AttrParseState::Done => Err(AttrArgsError::Syntax),
    }
}

/// One step of the grammar: the next position and what it asks for, or why
/// `piece` is refused at `state`.
pub fn attr_step(state: AttrParseState, piece: &AttrPiece) -> (next: Result<(AttrParseState, AttrExpect), AttrArgsError>)
    ensures
        next == spec_attr_step(state, *piece),
{
    match next_state(state, piece) {
        Ok(s) => Ok((s, expectation(s))),
        Err(e) => Err(e),
    }
}

/// Runs the grammar from [`AttrParseState::Start`] over all of `pieces`: the
/// position reached, or the first refusal. The arguments are accepted exactly
/// when the result is `Ok(AttrParseState::Done)` (see [`lemma_attr_run_accepts`]).
pub fn check_attr_pieces(pieces: &Vec<AttrPiece>) -> (result: Result<AttrParseState, AttrArgsError>)
    ensures
        result == run_attr_steps(AttrParseState::Start, pieces@),
{
    let mut state = AttrParseState::Start;
    let mut i: usize = 0;
    assert(pieces@.skip(0) =~= pieces@);
    while i < pieces.len()
        invariant
            i <= pieces.len(),
            run_attr_steps(AttrParseState::Start, pieces@) == run_attr_steps(state, pieces@.skip(i as int)),
        decreases pieces.len() - i,
    {
        assert(pieces@.skip(i as int).drop_first() =~= pieces@.skip(i + 1));
        match next_state(state, &pieces[i]) {
            Ok(s) => {
                state = s;
            },
            Err(e) => {
                return Err(e);
            },
        }
        i = i + 1;
    }
    Ok(state)
}

} // verus!
