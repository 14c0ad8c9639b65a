//! The options record and the rules by which a command line fills it.

use crate::canvas::Mode;
use crate::error::{ArgError, Failure};
use crate::lexer::{
    after_value, lex, next_token, next_value, short_equals, taken_value, unread, weight, Lexed,
    Piece,
};
use crate::number::{decimal_text, parse_usize, parsed};
use crate::text::{
    first_index, find_byte, is_utf8, lemma_first_index, lemma_spelled_ascii, spelled, spells,
};
use crate::token::Flag;
use vstd::prelude::*;
use vstd::slice::slice_subrange;
use vstd::utf8::valid_utf8;

verus! {

/// The byte `x`, which parts width and height in the value of `-d`.
pub const SEPARATOR: u8 = 0x78;

/// The axes that `--log` can name.
#[derive(Clone, Copy, Debug, PartialEq, Eq, Structural)]
pub enum LogAxis {
    /// `x`.
    X,
    /// `y`.
    Y,
    /// `c`: known, and not supported yet.
    C,
}

/// What the user asked for on the command line.
#[derive(Clone, Copy, Debug, PartialEq, Eq, Structural)]
pub struct Opt {
    /// Plot the logarithm of X.
    pub log_x: bool,
    /// Plot the logarithm of Y. With `cdf`, this is the logarithm of the
    /// values that go in, not of the distribution that comes out.
    pub log_y: bool,
    /// X is the row number. `-x` clears this: X is then read from a column.
    pub x_is_row: bool,
    /// Width of the canvas.
    pub width: usize,
    /// Height of the canvas.
    pub height: usize,
    /// Rendering style.
    pub mode: Mode,
    /// Plot the cumulative distribution of Y.
    pub cdf: bool,
}

/// How [`Opt::parse_from_env`] ends, and what it leaves in the parser.
pub struct Parsed {
    pub result: Result<Opt, Failure>,
    pub rest: Seq<Piece>,
}

/// An exec result with its error read as a [`Failure`].
pub open spec fn outcome<T>(r: Result<T, ArgError>) -> Result<T, Failure> {
    match r {
        Ok(value) => Ok(value),
        Err(e) => Err(e@),
    }
}

/// The canvas size that the value of `-d` denotes: width, `x`, height, the
/// `x` being the first one in the value.
pub open spec fn dims_of(value: Seq<u8>) -> Result<(usize, usize), Failure> {
    if !valid_utf8(value) {
        Err(Failure::DimsInvalidChars)
    } else {
        match first_index(value, SEPARATOR) {
            None => Err(Failure::DimsMissingSeparator),
            Some(i) => match parsed(value.take(i)) {
                None => Err(Failure::DimsWidth),
                Some(width) => match parsed(value.skip(i + 1)) {
                    None => Err(Failure::DimsHeight),
                    Some(height) => Ok((width, height)),
                },
            },
        }
    }
}

/// A canvas size as it is written for `-d`: width, `x`, height.
pub open spec fn dims_text(width: usize, height: usize) -> Seq<u8> {
    decimal_text(width as nat) + seq![SEPARATOR] + decimal_text(height as nat)
}

/// The axis that the value of `--log` names.
pub open spec fn axis_of(value: Seq<u8>) -> Option<LogAxis> {
    if value == spelled("x"@) {
        Some(LogAxis::X)
    } else if value == spelled("y"@) {
        Some(LogAxis::Y)
    } else if value == spelled("c"@) {
        Some(LogAxis::C)
    } else {
        None
    }
}

/// The rendering style that the value of `--mode` names.
pub open spec fn mode_of(value: Seq<u8>) -> Option<Mode> {
    if value == spelled("dot"@) {
        Some(Mode::Dot)
    } else if value == spelled("count"@) {
        Some(Mode::Count)
    } else {
        None
    }
}

impl Opt {
    /// The options of a command line without arguments.
    pub open spec fn initial() -> Opt {
        Opt {
            log_x: false,
            log_y: false,
            x_is_row: true,
            width: 72,
            height: 40,
            mode: Mode::Dot,
            cdf: false,
        }
    }

    /// Whether the options can be plotted together: the cumulative
    /// distribution is taken over Y alone, so it goes neither with an X of
    /// the user's choosing nor with a logarithmic X.
    pub open spec fn consistent(self) -> bool {
        self.cdf ==> self.x_is_row && !self.log_x
    }

    /// The options after `flag` was given with `value`. A flag that takes no
    /// value pays no attention to `value`.
    pub open spec fn applied(self, flag: Flag, value: Seq<u8>) -> Result<Opt, Failure> {
        match flag {
            Flag::Help => Err(Failure::Help),
            Flag::Dims => match dims_of(value) {
                Ok((width, height)) => Ok(Opt { width, height, ..self }),
                Err(e) => Err(e),
            },
            Flag::Log => match axis_of(value) {
                Some(LogAxis::X) => Ok(Opt { log_x: true, ..self }),
                Some(LogAxis::Y) => Ok(Opt { log_y: true, ..self }),
                Some(LogAxis::C) => Err(Failure::LogUnsupported),
                None => Err(Failure::LogUnknown),
            },
            Flag::Mode => match mode_of(value) {
                Some(mode) => Ok(Opt { mode, ..self }),
                None => Err(Failure::ModeUnknown),
            },
            Flag::ColumnX => Ok(Opt { x_is_row: false, ..self }),
            Flag::Cdf => Ok(Opt { cdf: true, ..self }),
        }
    }

    /// The options after `f` was given with `v` and then `g` with `w`.
    pub open spec fn applied_both(self, f: Flag, v: Seq<u8>, g: Flag, w: Seq<u8>) -> Result<
        Opt,
        Failure,
    > {
        match self.applied(f, v) {
            Ok(next) => next.applied(g, w),
            Err(e) => Err(e),
        }
    }

    /// The verdict on the options once the whole command line is read.
    pub open spec fn checked(self) -> Result<Opt, Failure> {
        if self.cdf && !self.x_is_row {
            Err(Failure::CdfExplicitX)
        } else if self.cdf && self.log_x {
            Err(Failure::CdfLogX)
        } else {
            Ok(self)
        }
    }

    /// What becomes of the options `self` when the rest of a command line is
    /// read from a parser that holds `unread`.
    ///
    /// Each round takes one token from the parser. A token that names no flag
    /// ends the parse, and so does a flag that fails. A flag that takes a
    /// value takes it from the parser at once. When the parser is exhausted
    /// the options are checked as a whole.
    ///
    /// The rounds end because the parser holds less after each token. Of a
    /// parser that handed out a token and held no less, which `next_token`
    /// says there is none, the definition makes a parser that failed.
    pub open spec fn parse_from(self, unread: Seq<Piece>, short_equals: bool) -> Parsed
        decreases weight(unread),
    {
        let step = lex(unread, short_equals);
        match step.lexed {
            Lexed::Failed => Parsed { result: Err(Failure::Lex), rest: step.rest },
            Lexed::End => Parsed { result: self.checked(), rest: step.rest },
            Lexed::Token(token) => if weight(step.rest) >= weight(unread) {
                Parsed { result: Err(Failure::Lex), rest: step.rest }
            } else {
                match Flag::of_spec(token) {
                    None => Parsed { result: Err(Failure::Unexpected(token)), rest: step.rest },
                    Some(flag) => if !flag.takes_value() {
                        match self.applied(flag, Seq::empty()) {
                            Ok(next) => next.parse_from(step.rest, short_equals),
                            Err(e) => Parsed { result: Err(e), rest: step.rest },
                        }
                    } else {
                        let rest = after_value(step.rest);
                        match taken_value(step.rest, short_equals) {
                            None => Parsed { result: Err(Failure::MissingValue(flag)), rest },
                            Some(value) => match self.applied(flag, value) {
                                Ok(next) => next.parse_from(rest, short_equals),
                                Err(e) => Parsed { result: Err(e), rest },
                            },
                        }
                    },
                }
            },
        }
    }
}

/// The bytes of the words that `--log` and `--mode` know.
pub proof fn lemma_words()
    ensures
        spelled("x"@) == seq![0x78u8],
        spelled("y"@) == seq![0x79u8],
        spelled("c"@) == seq![0x63u8],
        spelled("dot"@) == seq![0x64u8, 0x6f, 0x74],
        spelled("count"@) == seq![0x63u8, 0x6f, 0x75, 0x6e, 0x74],
{
    reveal_strlit("x");
    reveal_strlit("y");
    reveal_strlit("c");
    reveal_strlit("dot");
    reveal_strlit("count");
    lemma_spelled_ascii("x"@);
    lemma_spelled_ascii("y"@);
    lemma_spelled_ascii("c"@);
    lemma_spelled_ascii("dot"@);
    lemma_spelled_ascii("count"@);
    assert(spelled("x"@) =~= seq![0x78u8]);
    assert(spelled("y"@) =~= seq![0x79u8]);
    assert(spelled("c"@) =~= seq![0x63u8]);
    assert(spelled("dot"@) =~= seq![0x64u8, 0x6f, 0x74]);
    assert(spelled("count"@) =~= seq![0x63u8, 0x6f, 0x75, 0x6e, 0x74]);
}

/// Reads the value of `-d`: a width, an `x` and a height.
///
/// The value has to be valid UTF-8, or it is turned down before anything
/// else is looked at. The first `x` in it parts width and height; a value
/// without one is turned down whatever else it holds. Width is read before
/// height.
pub fn parse_dims(value: &[u8]) -> (r: Result<(usize, usize), ArgError>)
    ensures
        outcome(r) == dims_of(value@),
        !valid_utf8(value@) ==> r matches Err(ArgError::DimsInvalidChars),
        valid_utf8(value@) && !value@.contains(SEPARATOR) ==> r matches Err(
            ArgError::DimsMissingSeparator,
        ),
{
    proof {
        lemma_first_index(value@, SEPARATOR);
    }
    if !is_utf8(value) {
        return Err(ArgError::DimsInvalidChars);
    }
    let n: usize = value.len();
    let at: usize = match find_byte(value, SEPARATOR) {
        Some(at) => at,
        None => {
            return Err(ArgError::DimsMissingSeparator);
        },
    };
    assert(value@.take(at as int) =~= value@.subrange(0, at as int));
    assert(value@.skip(at + 1) =~= value@.subrange(at + 1, value@.len() as int));
    let width: usize = match parse_usize(slice_subrange(value, 0, at)) {
        Some(width) => width,
        None => {
            return Err(ArgError::DimsWidth);
        },
    };
    let height: usize = match parse_usize(slice_subrange(value, at + 1, n)) {
        Some(height) => height,
        None => {
            return Err(ArgError::DimsHeight);
        },
    };
    Ok((width, height))
}

/// Reads the value of `--log`: `x`, `y` or `c`, and nothing else.
pub fn parse_axis(value: &[u8]) -> (r: Option<LogAxis>)
    ensures
        r == axis_of(value@),
        r == Some(LogAxis::X) <==> value@ == spelled("x"@),
        r == Some(LogAxis::Y) <==> value@ == spelled("y"@),
        r == Some(LogAxis::C) <==> value@ == spelled("c"@),
{
    proof {
        lemma_words();
        assert(spelled("x"@)[0] == 0x78 && spelled("y"@)[0] == 0x79 && spelled("c"@)[0] == 0x63);
    }
    if spells(value, "x") {
        Some(LogAxis::X)
    } else if spells(value, "y") {
        Some(LogAxis::Y)
    } else if spells(value, "c") {
        Some(LogAxis::C)
    } else {
        None
    }
}

/// Reads the value of `--mode`: `dot` or `count`, and nothing else.
pub fn parse_mode(value: &[u8]) -> (r: Option<Mode>)
    ensures
        r == mode_of(value@),
        r == Some(Mode::Dot) <==> value@ == spelled("dot"@),
        r == Some(Mode::Count) <==> value@ == spelled("count"@),
{
    proof {
        lemma_words();
    }
    if spells(value, "dot") {
        Some(Mode::Dot)
    } else if spells(value, "count") {
        Some(Mode::Count)
    } else {
        None
    }
}

impl Default for Opt {
    /// The options of a command line without arguments.
    fn default() -> (opt: Opt)
        ensures
            opt == Opt::initial(),
    {
        Opt {
            log_x: false,
            log_y: false,
            x_is_row: true,
            width: 72,
            height: 40,
            mode: Mode::Dot,
            cdf: false,
        }
    }
}

impl Opt {
    /// Gives the flag `flag` with the value `value` to the options.
    ///
    /// `-d`, `--log` and `--mode` read `value` and fail on one they cannot
    /// read; `-x` and `--cdf` pay no attention to it; `--help` always fails.
    /// A flag sets what it stands for and leaves every other field alone.
    pub fn apply(self, flag: Flag, value: &[u8]) -> (r: Result<Opt, ArgError>)
        ensures
            outcome(r) == self.applied(flag, value@),
    {
        match flag {
            Flag::Help => Err(ArgError::Help),
            Flag::Dims => match parse_dims(value) {
                Ok((width, height)) => Ok(Opt { width, height, ..self }),
                Err(e) => Err(e),
            },
            Flag::Log => match parse_axis(value) {
                Some(LogAxis::X) => Ok(Opt { log_x: true, ..self }),
                Some(LogAxis::Y) => Ok(Opt { log_y: true, ..self }),
                Some(LogAxis::C) => Err(ArgError::LogUnsupported),
                None => Err(ArgError::LogUnknown),
            },
            Flag::Mode => match parse_mode(value) {
                Some(mode) => Ok(Opt { mode, ..self }),
                None => Err(ArgError::ModeUnknown),
            },
            Flag::ColumnX => Ok(Opt { x_is_row: false, ..self }),
            Flag::Cdf => Ok(Opt { cdf: true, ..self }),
        }
    }

    /// Checks the options as a whole, once every argument is read.
    ///
    /// Without `cdf` everything passes. With it, `-x` is turned down first,
    /// then a logarithmic X. A logarithmic Y passes.
    pub fn check(self) -> (r: Result<Opt, ArgError>)
        ensures
            outcome(r) == self.checked(),
            r is Ok <==> self.consistent(),
            r matches Ok(opt) ==> opt == self,
    {
        if self.cdf && !self.x_is_row {
            Err(ArgError::CdfExplicitX)
        } else if self.cdf && self.log_x {
            Err(ArgError::CdfLogX)
        } else {
            Ok(self)
        }
    }

    /// Reads the options from the arguments that `parser` has yet to hand out.
    ///
    /// Starts from the defaults and gives each flag to the options in the
    /// order of the command line; the first argument at fault ends the parse
    /// with its error. When the parser is exhausted the options are checked
    /// as a whole, so options that come back can be plotted together.
    pub fn parse_from_env(parser: &mut lexopt::Parser) -> (r: Result<Opt, ArgError>)
        ensures
            outcome(r) == Opt::initial().parse_from(
                unread(*old(parser)),
                short_equals(*old(parser)),
            ).result,
            unread(*final(parser)) == Opt::initial().parse_from(
                unread(*old(parser)),
                short_equals(*old(parser)),
            ).rest,
            short_equals(*final(parser)) == short_equals(*old(parser)),
            r matches Ok(opt) ==> opt.consistent(),
            r is Ok ==> unread(*final(parser)).len() == 0,
            unread(*old(parser)).len() == 0 ==> r == Ok::<Opt, ArgError>(Opt::initial()),
    {
        let ghost start = unread(*parser);
        let ghost setting = short_equals(*parser);
        let mut opt: Opt = Opt::default();
        loop
            invariant
                start == unread(*old(parser)),
                setting == short_equals(*old(parser)),
                short_equals(*parser) == setting,
                start.len() == 0 ==> unread(*parser).len() == 0 && opt == Opt::initial(),
                Opt::initial().parse_from(start, setting) == opt.parse_from(
                    unread(*parser),
                    setting,
                ),
            decreases weight(unread(*parser)),
        {
            let token = match next_token(parser) {
                Ok(Some(token)) => token,
                Ok(None) => {
                    return opt.check();
                },
                Err(e) => {
                    return Err(ArgError::Lex(e));
                },
            };
            let flag: Flag = match Flag::of(&token) {
                Some(flag) => flag,
                None => {
                    return Err(ArgError::Unexpected(token));
                },
            };
            let value: Vec<u8> = if flag.takes_value() {
                match next_value(parser) {
                    Ok(value) => value,
                    Err(e) => {
                        return Err(ArgError::MissingValue(flag, e));
                    },
                }
            } else {
                Vec::new()
            };
            match opt.apply(flag, value.as_slice()) {
                Ok(next) => {
                    opt = next;
                },
                Err(e) => {
                    return Err(e);
                },
            }
        }
    }
}

} // verus!
