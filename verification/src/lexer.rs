//! The argument parser of `lexopt`, as far as this crate relies on it.
//!
//! A `lexopt::Parser` owns the arguments of the command line and hands them
//! out piece by piece. The model below says what such a parser still holds.
//! The functions at the end call the parser and state, over that model, what
//! the call returned and what it left behind. Their contracts are taken from
//! the source and the documentation of `lexopt` as it runs on Unix. Verus
//! believes them; nothing in this crate proves them.

use crate::token::{Token, TokenView};
use vstd::prelude::*;

verus! {

/// The byte `=`.
pub const EQUALS: u8 = 0x3d;

/// `lexopt::Parser`, opaque to the verifier.
#[verifier::external_type_specification]
#[verifier::external_body]
pub struct ExParser(lexopt::Parser);

/// `lexopt::Error`, opaque to the verifier.
#[verifier::external_type_specification]
#[verifier::external_body]
pub struct ExError(lexopt::Error);

/// One stretch of command line that a parser has yet to hand out.
pub enum Piece {
    /// An argument that the parser has not looked at.
    Arg(Seq<u8>),
    /// What is left of an argument such as `-abc` after some of its short
    /// options were handed out. Never empty.
    Cluster(Seq<u8>),
    /// The value in `--option=value`, after `--option` was handed out.
    Attached(Seq<u8>),
    /// An argument that follows `--`.
    Operand(Seq<u8>),
}

impl Piece {
    /// The bytes of the piece.
    pub open spec fn bytes(self) -> Seq<u8> {
        match self {
            Piece::Arg(b) => b,
            Piece::Cluster(b) => b,
            Piece::Attached(b) => b,
            Piece::Operand(b) => b,
        }
    }
}

/// What one call of `Parser::next` comes to.
pub enum Lexed {
    /// The parser handed out an option or an argument.
    Token(TokenView),
    /// The command line is exhausted.
    End,
    /// The parser reported an error: the option before had a value attached
    /// that nobody took.
    Failed,
}

/// What one call of `Parser::next` comes to, and what the parser holds after it.
pub struct Step {
    pub lexed: Lexed,
    pub rest: Seq<Piece>,
}

/// What the parser `p` has yet to hand out, in order.
///
/// The arguments that the parser has not looked at are [`Piece::Arg`]s, or
/// [`Piece::Operand`]s once the parser has met `--`. In front of them stands
/// what is left of the argument that the parser is in the middle of, if
/// anything is left of it: a [`Piece::Cluster`] behind a short option, a
/// [`Piece::Attached`] behind a long one.
pub uninterp spec fn unread(p: lexopt::Parser) -> Seq<Piece>;

/// Whether `p` reads `-o=value` as the option `-o` with the value `value`.
/// This is so unless `Parser::set_short_equals` has switched it off.
pub uninterp spec fn short_equals(p: lexopt::Parser) -> bool;

/// What `Parser::next` comes to on a parser that holds `unread` and has the
/// setting `short_equals`. How the parser tells options from arguments and
/// decodes their names is its own business and is not spelled out here.
pub uninterp spec fn lex(unread: Seq<Piece>, short_equals: bool) -> Step;

/// How much a parser still holds: one for each piece and one for each byte.
pub open spec fn weight(unread: Seq<Piece>) -> nat
    decreases unread.len(),
{
    if unread.len() == 0 {
        0
    } else {
        1 + unread[0].bytes().len() + weight(unread.skip(1))
    }
}

/// What `Parser::value` takes from a parser that holds `unread`: the whole
/// first piece, less the `=` that joins a value to a short option.
pub open spec fn taken_value(unread: Seq<Piece>, short_equals: bool) -> Option<Seq<u8>> {
    if unread.len() == 0 {
        None
    } else {
        match unread[0] {
            Piece::Cluster(b) => if short_equals && b.len() > 0 && b[0] == EQUALS {
                Some(b.skip(1))
            } else {
                Some(b)
            },
            piece => Some(piece.bytes()),
        }
    }
}

/// What is left of `unread` once `Parser::value` has taken from it.
pub open spec fn after_value(unread: Seq<Piece>) -> Seq<Piece> {
    if unread.len() == 0 {
        unread
    } else {
        unread.skip(1)
    }
}

/// Whether a parser that holds `unread` has a value at hand that was joined
/// to the option before: the value in `--option=value`, or the one in
/// `-o=value` where the parser reads the `=` as a joint.
pub open spec fn joined_value(unread: Seq<Piece>, short_equals: bool) -> bool {
    unread.len() > 0 && match unread[0] {
        Piece::Attached(_) => true,
        Piece::Cluster(b) => short_equals && b.len() > 0 && b[0] == EQUALS,
        _ => false,
    }
}

/// What holds of every call of `Parser::next`, on a parser that holds `unread`.
///
/// The call fails exactly when a joined value is at hand. It reports the end
/// whenever the parser holds nothing, and the parser holds nothing once it
/// has reported the end. Whenever it hands out a token, the parser holds less
/// than before.
pub open spec fn well_behaved(unread: Seq<Piece>, short_equals: bool) -> bool {
    let step = lex(unread, short_equals);
    &&& step.lexed is Failed <==> joined_value(unread, short_equals)
    &&& unread.len() == 0 ==> step.lexed is End
    &&& step.lexed is End ==> step.rest.len() == 0
    &&& step.lexed is Token ==> weight(step.rest) < weight(unread)
}

/// How a result of [`next_token`] reads as a [`Lexed`].
pub open spec fn lexed_of(r: Result<Option<Token>, lexopt::Error>) -> Lexed {
    match r {
        Ok(Some(token)) => Lexed::Token(token@),
        Ok(None) => Lexed::End,
        Err(_) => Lexed::Failed,
    }
}

/// Calls `lexopt::Parser::next` and copies what it hands out into a [`Token`].
///
/// The contract claims of `Parser::next` that what it returns and what it
/// leaves in the parser depend on nothing but what the parser held and its
/// `short_equals` setting; [`lex`] is the name of that dependency. It claims
/// that the call does not touch the setting, and of what the call comes to
/// it claims what [`well_behaved`] says.
#[verifier::external_body]
pub(crate) fn next_token(parser: &mut lexopt::Parser) -> (r: Result<Option<Token>, lexopt::Error>)
    ensures
        lexed_of(r) == lex(unread(*old(parser)), short_equals(*old(parser))).lexed,
        unread(*final(parser)) == lex(unread(*old(parser)), short_equals(*old(parser))).rest,
        short_equals(*final(parser)) == short_equals(*old(parser)),
        well_behaved(unread(*old(parser)), short_equals(*old(parser))),
{
    Ok(
        match parser.next()? {
            None => None,
            Some(lexopt::Arg::Short(c)) => Some(Token::Short(c)),
            Some(lexopt::Arg::Long(name)) => Some(Token::Long(name.to_string())),
            Some(lexopt::Arg::Value(value)) => Some(Token::Value(value.into_encoded_bytes())),
        },
    )
}

/// How a result of [`next_value`] reads: the bytes of the value, if there
/// was one.
pub open spec fn value_of(r: Result<Vec<u8>, lexopt::Error>) -> Option<Seq<u8>> {
    match r {
        Ok(value) => Some(value@),
        Err(_) => None,
    }
}

/// Calls `lexopt::Parser::value` and returns the bytes of the value.
///
/// The contract claims of `Parser::value` that it fails exactly when the
/// parser holds nothing, and that it otherwise takes the first piece whole,
/// whatever the piece looks like, dropping only the `=` that joins a value to
/// a short option. It does not touch the `short_equals` setting.
#[verifier::external_body]
pub(crate) fn next_value(parser: &mut lexopt::Parser) -> (r: Result<Vec<u8>, lexopt::Error>)
    ensures
        value_of(r) == taken_value(unread(*old(parser)), short_equals(*old(parser))),
        unread(*final(parser)) == after_value(unread(*old(parser))),
        short_equals(*final(parser)) == short_equals(*old(parser)),
{
    Ok(parser.value()?.into_encoded_bytes())
}

/// The message with which `lexopt` turns down `token`.
pub uninterp spec fn unexpected_message(token: TokenView) -> Seq<char>;

/// Hands `token` back to `lexopt` as an argument of its own kind, calls
/// `lexopt::Arg::unexpected` on it and returns the text of the error that
/// comes back. An argument that is no option is shown as text, with a
/// replacement character for each stretch of it that is not UTF-8.
///
/// The contract claims only that the text depends on nothing but the token;
/// [`unexpected_message`] is the name of that dependency.
#[verifier::external_body]
pub(crate) fn unexpected_text(token: &Token) -> (text: String)
    ensures
        text@ == unexpected_message(token@),
{
    let arg = match token {
        Token::Short(c) => lexopt::Arg::Short(*c),
        Token::Long(name) => lexopt::Arg::Long(name),
        Token::Value(bytes) => {
            lexopt::Arg::Value(String::from_utf8_lossy(bytes).into_owned().into())
        },
    };
    arg.unexpected().to_string()
}

} // verus!
