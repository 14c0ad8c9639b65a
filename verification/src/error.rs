//! The ways in which a command line can be turned down.

use crate::lexer::{unexpected_message, unexpected_text};
use crate::token::{Flag, Token, TokenView};
use vstd::prelude::*;

verus! {

/// Why a command line was turned down.
#[derive(Debug)]
pub enum ArgError {
    /// The parser could not hand out the next argument. The payload is what
    /// the parser reported.
    Lex(lexopt::Error),
    /// The command line ended where the value of a flag was due. The second
    /// field is what the parser reported.
    MissingValue(Flag, lexopt::Error),
    /// `-h` or `--help` was given; there is no help text yet.
    Help,
    /// The value of `-d` is not valid UTF-8.
    DimsInvalidChars,
    /// The value of `-d` holds no `x`.
    DimsMissingSeparator,
    /// What stands before the `x` in the value of `-d` is no number.
    DimsWidth,
    /// What stands after the `x` in the value of `-d` is no number.
    DimsHeight,
    /// `--log c` was given; the axis is known but not supported yet.
    LogUnsupported,
    /// The value of `--log` is none of `x`, `y` and `c`.
    LogUnknown,
    /// The value of `--mode` is neither `dot` nor `count`.
    ModeUnknown,
    /// An argument that is no flag of this tool.
    Unexpected(Token),
    /// `--cdf` together with `-x`.
    CdfExplicitX,
    /// `--cdf` together with `--log x`.
    CdfLogX,
}

/// The mathematical content of an [`ArgError`]: the error without what the
/// parser reported.
pub enum Failure {
    Lex,
    MissingValue(Flag),
    Help,
    DimsInvalidChars,
    DimsMissingSeparator,
    DimsWidth,
    DimsHeight,
    LogUnsupported,
    LogUnknown,
    ModeUnknown,
    Unexpected(TokenView),
    CdfExplicitX,
    CdfLogX,
}

impl View for ArgError {
    type V = Failure;

    open spec fn view(&self) -> Failure {
        match *self {
            ArgError::Lex(_) => Failure::Lex,
            ArgError::MissingValue(flag, _) => Failure::MissingValue(flag),
            ArgError::Help => Failure::Help,
            ArgError::DimsInvalidChars => Failure::DimsInvalidChars,
            ArgError::DimsMissingSeparator => Failure::DimsMissingSeparator,
            ArgError::DimsWidth => Failure::DimsWidth,
            ArgError::DimsHeight => Failure::DimsHeight,
            ArgError::LogUnsupported => Failure::LogUnsupported,
            ArgError::LogUnknown => Failure::LogUnknown,
            ArgError::ModeUnknown => Failure::ModeUnknown,
            ArgError::Unexpected(token) => Failure::Unexpected(token@),
            ArgError::CdfExplicitX => Failure::CdfExplicitX,
            ArgError::CdfLogX => Failure::CdfLogX,
        }
    }
}

impl Failure {
    /// The message that tells the user of the failure.
    pub open spec fn message(self) -> Seq<char> {
        match self {
            Failure::Lex => "read next argument"@,
            Failure::MissingValue(flag) => match flag {
                Flag::Help => "value for --help"@,
                Flag::Dims => "value for -d"@,
                Flag::Log => "value for --log"@,
                Flag::Mode => "value for --mode"@,
                Flag::ColumnX => "value for -x"@,
                Flag::Cdf => "value for --cdf"@,
            },
            Failure::Help => "--help is not yet implemented"@,
            Failure::DimsInvalidChars => "-d argument contains invalid characters"@,
            Failure::DimsMissingSeparator =>
                "-d must be specified as WxH (eg, 72x40, which is the default)"@,
            Failure::DimsWidth => "parse width in -d argument"@,
            Failure::DimsHeight => "parse height in -d argument"@,
            Failure::LogUnsupported => "--log c is not yet supported"@,
            Failure::LogUnknown => "--log takes x, y, or c"@,
            Failure::ModeUnknown => "--mode takes dot (the default) or count"@,
            Failure::Unexpected(token) => unexpected_message(token),
            Failure::CdfExplicitX =>
                "CDF is only over the Y value; an explicit X value will be ignored"@,
            Failure::CdfLogX =>
                "CDF is only over the Y value and changes the axes; logarithmic X would have no effet"@,
        }
    }
}

/// A failure can be told from its message: two failures with the same
/// message are the same failure. Left out are the arguments that are no
/// flag, whose message comes from `lexopt`.
pub proof fn law_message_tells(a: Failure, b: Failure)
    requires
        !(a is Unexpected),
        !(b is Unexpected),
        a.message() == b.message(),
    ensures
        a == b,
{
    reveal_strlit("read next argument");
    reveal_strlit("value for --help");
    reveal_strlit("value for -d");
    reveal_strlit("value for --log");
    reveal_strlit("value for --mode");
    reveal_strlit("value for -x");
    reveal_strlit("value for --cdf");
    reveal_strlit("--help is not yet implemented");
    reveal_strlit("-d argument contains invalid characters");
    reveal_strlit("-d must be specified as WxH (eg, 72x40, which is the default)");
    reveal_strlit("parse width in -d argument");
    reveal_strlit("parse height in -d argument");
    reveal_strlit("--log c is not yet supported");
    reveal_strlit("--log takes x, y, or c");
    reveal_strlit("--mode takes dot (the default) or count");
    reveal_strlit("CDF is only over the Y value; an explicit X value will be ignored");
    reveal_strlit(
        "CDF is only over the Y value and changes the axes; logarithmic X would have no effet",
    );
    let m = a.message();
    if m.len() == 12 {
        assert("value for -d"@[11] != "value for -x"@[11]);
    } else if m.len() == 15 {
        assert("value for --log"@[12] != "value for --cdf"@[12]);
    } else if m.len() == 16 {
        assert("value for --help"@[12] != "value for --mode"@[12]);
    } else if m.len() == 39 {
        assert("-d argument contains invalid characters"@[1]
            != "--mode takes dot (the default) or count"@[1]);
    }
}

impl ArgError {
    /// The message that tells the user what was wrong.
    pub fn message(&self) -> (text: String)
        ensures
            text@ == self@.message(),
    {
        match self {
            ArgError::Lex(_) => "read next argument".to_owned(),
            ArgError::MissingValue(flag, _) => match flag {
                Flag::Help => "value for --help".to_owned(),
                Flag::Dims => "value for -d".to_owned(),
                Flag::Log => "value for --log".to_owned(),
                Flag::Mode => "value for --mode".to_owned(),
                Flag::ColumnX => "value for -x".to_owned(),
                Flag::Cdf => "value for --cdf".to_owned(),
            },
            ArgError::Help => "--help is not yet implemented".to_owned(),
            ArgError::DimsInvalidChars => "-d argument contains invalid characters".to_owned(),
            ArgError::DimsMissingSeparator =>
                "-d must be specified as WxH (eg, 72x40, which is the default)".to_owned(),
            ArgError::DimsWidth => "parse width in -d argument".to_owned(),
            ArgError::DimsHeight => "parse height in -d argument".to_owned(),
            ArgError::LogUnsupported => "--log c is not yet supported".to_owned(),
            ArgError::LogUnknown => "--log takes x, y, or c".to_owned(),
            ArgError::ModeUnknown => "--mode takes dot (the default) or count".to_owned(),
            ArgError::Unexpected(token) => unexpected_text(token),
            ArgError::CdfExplicitX =>
                "CDF is only over the Y value; an explicit X value will be ignored".to_owned(),
            ArgError::CdfLogX =>
                "CDF is only over the Y value and changes the axes; logarithmic X would have no effet".to_owned(),
        }
    }
}

} // verus!
