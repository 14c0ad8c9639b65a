//! What the argument parser hands out, and the flags this tool knows.

use crate::text::same_text;
use vstd::prelude::*;

verus! {

/// One item of a command line, as the argument parser hands it out.
#[derive(Debug, PartialEq, Eq)]
pub enum Token {
    /// A short option such as `-x`, without the dash.
    Short(char),
    /// A long option such as `--cdf`, without the dashes.
    Long(String),
    /// An argument that is no option, as raw bytes.
    Value(Vec<u8>),
}

/// The mathematical content of a [`Token`].
pub enum TokenView {
    Short(char),
    Long(Seq<char>),
    Value(Seq<u8>),
}

impl View for Token {
    type V = TokenView;

    open spec fn view(&self) -> TokenView {
        match *self {
            Token::Short(c) => TokenView::Short(c),
            Token::Long(name) => TokenView::Long(name@),
            Token::Value(bytes) => TokenView::Value(bytes@),
        }
    }
}

/// The options that this tool knows.
#[derive(Clone, Copy, Debug, PartialEq, Eq, Structural)]
pub enum Flag {
    /// `-h` or `--help`.
    Help,
    /// `-d`, followed by the canvas size.
    Dims,
    /// `-l` or `--log`, followed by an axis.
    Log,
    /// `-m` or `--mode`, followed by a rendering style.
    Mode,
    /// `-x`.
    ColumnX,
    /// `--cdf`.
    Cdf,
}

impl Flag {
    /// The flag that a token names, if it names one.
    pub open spec fn of_spec(token: TokenView) -> Option<Flag> {
        match token {
            TokenView::Short(c) => if c == 'h' {
                Some(Flag::Help)
            } else if c == 'd' {
                Some(Flag::Dims)
            } else if c == 'l' {
                Some(Flag::Log)
            } else if c == 'm' {
                Some(Flag::Mode)
            } else if c == 'x' {
                Some(Flag::ColumnX)
            } else {
                None
            },
            TokenView::Long(name) => if name == "help"@ {
                Some(Flag::Help)
            } else if name == "log"@ {
                Some(Flag::Log)
            } else if name == "mode"@ {
                Some(Flag::Mode)
            } else if name == "cdf"@ {
                Some(Flag::Cdf)
            } else {
                None
            },
            TokenView::Value(_) => None,
        }
    }

    /// Whether the flag is followed by a value.
    pub open spec fn takes_value_spec(self) -> bool {
        self == Flag::Dims || self == Flag::Log || self == Flag::Mode
    }

    /// The flag that `token` names, or `None` for a token that names no flag
    /// of this tool: an unknown option, or an argument that is no option.
    pub fn of(token: &Token) -> (r: Option<Flag>)
        ensures
            r == Flag::of_spec(token@),
    {
        match token {
            Token::Short(c) => {
                let c: char = *c;
                if c == 'h' {
                    Some(Flag::Help)
                } else if c == 'd' {
                    Some(Flag::Dims)
                } else if c == 'l' {
                    Some(Flag::Log)
                } else if c == 'm' {
                    Some(Flag::Mode)
                } else if c == 'x' {
                    Some(Flag::ColumnX)
                } else {
                    None
                }
            },
            Token::Long(name) => {
                let name: &str = name.as_str();
                if same_text(name, "help") {
                    Some(Flag::Help)
                } else if same_text(name, "log") {
                    Some(Flag::Log)
                } else if same_text(name, "mode") {
                    Some(Flag::Mode)
                } else if same_text(name, "cdf") {
                    Some(Flag::Cdf)
                } else {
                    None
                }
            },
            Token::Value(_) => None,
        }
    }

    /// Whether the flag is followed by a value.
    #[verifier::when_used_as_spec(takes_value_spec)]
    pub fn takes_value(self) -> (r: bool)
        ensures
            r == self.takes_value_spec(),
    {
        match self {
            Flag::Dims | Flag::Log | Flag::Mode => true,
            Flag::Help | Flag::ColumnX | Flag::Cdf => false,
        }
    }
}

} // verus!
