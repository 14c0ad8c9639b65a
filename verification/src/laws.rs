//! What holds of the rules as a whole.

use crate::args::{dims_of, dims_text, Opt, Parsed, SEPARATOR};
use crate::error::Failure;
use crate::lexer::{after_value, lex, taken_value, weight, well_behaved, Lexed, Piece};
use crate::number::{decimal_text, lemma_decimal_text};
use crate::text::{lemma_ascii_is_utf8, lemma_first_index_unique};
use crate::token::Flag;
use vstd::prelude::*;

verus! {

/// A canvas size written as width, `x`, height reads back as that width and
/// that height.
pub proof fn law_dims_read_back(width: usize, height: usize)
    ensures
        dims_of(dims_text(width, height)) == Ok::<(usize, usize), Failure>((width, height)),
{
    let w = decimal_text(width as nat);
    let h = decimal_text(height as nat);
    let text = dims_text(width, height);
    lemma_decimal_text(width as nat);
    lemma_decimal_text(height as nat);
    assert forall|i: int| 0 <= i < text.len() implies #[trigger] text[i] < 0x80 by {
        if i < w.len() {
            assert(text[i] == w[i]);
        } else if i > w.len() {
            assert(text[i] == h[i - w.len() - 1]);
        }
    }
    lemma_ascii_is_utf8(text);
    assert forall|j: int| 0 <= j < w.len() implies text[j] != SEPARATOR by {
        assert(text[j] == w[j]);
    }
    lemma_first_index_unique(text, SEPARATOR, w.len() as int);
    assert(text.take(w.len() as int) =~= w);
    assert(text.skip(w.len() as int + 1) =~= h);
}

/// `-d` sets width and height and leaves every other option as it was.
pub proof fn law_dims_alone(opt: Opt, width: usize, height: usize)
    ensures
        opt.applied(Flag::Dims, dims_text(width, height)) == Ok::<Opt, Failure>(
            Opt { width, height, ..opt },
        ),
{
    law_dims_read_back(width, height);
}

/// Whether a parser that holds `unread` hands out `flag` next, with `value`
/// where the flag takes one, and holds `rest` after that.
pub open spec fn reads(
    unread: Seq<Piece>,
    short_equals: bool,
    flag: Flag,
    value: Seq<u8>,
    rest: Seq<Piece>,
) -> bool {
    let step = lex(unread, short_equals);
    &&& step.lexed matches Lexed::Token(token) && Flag::of_spec(token) == Some(flag)
    &&& weight(step.rest) < weight(unread)
    &&& if flag.takes_value() {
        taken_value(step.rest, short_equals) == Some(value) && rest == after_value(step.rest)
    } else {
        rest == step.rest
    }
}

/// Where the parser hands out a flag, the parse gives the flag to the
/// options and goes on with what the parser holds then, or ends with the
/// flag's error.
pub proof fn lemma_parse_flag(
    opt: Opt,
    unread: Seq<Piece>,
    short_equals: bool,
    flag: Flag,
    value: Seq<u8>,
    rest: Seq<Piece>,
)
    requires
        reads(unread, short_equals, flag, value, rest),
    ensures
        opt.parse_from(unread, short_equals) == (match opt.applied(flag, value) {
            Ok(next) => next.parse_from(rest, short_equals),
            Err(e) => Parsed { result: Err(e), rest },
        }),
{
    assert(!flag.takes_value() ==> opt.applied(flag, value) == opt.applied(flag, Seq::empty()));
}

/// A command line without arguments gives the defaults.
pub proof fn law_parse_nothing(short_equals: bool)
    requires
        well_behaved(Seq::empty(), short_equals),
    ensures
        Opt::initial().parse_from(Seq::empty(), short_equals).result == Ok::<Opt, Failure>(
            Opt::initial(),
        ),
{
}

/// A command line that the parser reads as `-d` with a canvas size and
/// nothing after it gives that size, with every other option at its default.
pub proof fn law_parse_dims(
    unread: Seq<Piece>,
    short_equals: bool,
    width: usize,
    height: usize,
    rest: Seq<Piece>,
)
    requires
        reads(unread, short_equals, Flag::Dims, dims_text(width, height), rest),
        lex(rest, short_equals).lexed == Lexed::End,
    ensures
        Opt::initial().parse_from(unread, short_equals).result == Ok::<Opt, Failure>(
            Opt { width, height, ..Opt::initial() },
        ),
{
    law_dims_alone(Opt::initial(), width, height);
    lemma_parse_flag(
        Opt::initial(),
        unread,
        short_equals,
        Flag::Dims,
        dims_text(width, height),
        rest,
    );
}

/// A command line on which a flag stands twice in a row, with the same
/// value, comes to what it comes to with the flag standing once.
pub proof fn law_parse_repeated(
    opt: Opt,
    unread: Seq<Piece>,
    short_equals: bool,
    flag: Flag,
    value: Seq<u8>,
    once: Seq<Piece>,
    rest: Seq<Piece>,
)
    requires
        reads(unread, short_equals, flag, value, once),
        reads(once, short_equals, flag, value, rest),
    ensures
        opt.parse_from(unread, short_equals).result == opt.parse_from(once, short_equals).result,
{
    lemma_parse_flag(opt, unread, short_equals, flag, value, once);
    lemma_parse_flag(opt, once, short_equals, flag, value, rest);
    if let Ok(next) = opt.applied(flag, value) {
        lemma_parse_flag(next, once, short_equals, flag, value, rest);
    }
}

/// Two command lines that differ in the order of their first two flags
/// either both succeed or both fail, and where both flags succeed the two
/// lines come to the same, unless both flags are `-d` or both are `--mode`.
pub proof fn law_parse_order(
    opt: Opt,
    short_equals: bool,
    f: Flag,
    v: Seq<u8>,
    g: Flag,
    w: Seq<u8>,
    f_first: Seq<Piece>,
    after_f: Seq<Piece>,
    g_first: Seq<Piece>,
    after_g: Seq<Piece>,
    rest: Seq<Piece>,
)
    requires
        f != g || (f != Flag::Dims && f != Flag::Mode),
        reads(f_first, short_equals, f, v, after_f),
        reads(after_f, short_equals, g, w, rest),
        reads(g_first, short_equals, g, w, after_g),
        reads(after_g, short_equals, f, v, rest),
    ensures
        opt.parse_from(f_first, short_equals).result is Ok <==> opt.parse_from(
            g_first,
            short_equals,
        ).result is Ok,
        opt.applied(f, v) is Ok && opt.applied(g, w) is Ok ==> opt.parse_from(
            f_first,
            short_equals,
        ) == opt.parse_from(g_first, short_equals),
{
    lemma_parse_flag(opt, f_first, short_equals, f, v, after_f);
    lemma_parse_flag(opt, g_first, short_equals, g, w, after_g);
    if let Ok(with_f) = opt.applied(f, v) {
        lemma_parse_flag(with_f, after_f, short_equals, g, w, rest);
    }
    if let Ok(with_g) = opt.applied(g, w) {
        lemma_parse_flag(with_g, after_g, short_equals, f, v, rest);
    }
}

/// A flag given twice with the same value does what it does given once.
pub proof fn law_repeated_flag(opt: Opt, flag: Flag, value: Seq<u8>)
    ensures
        opt.applied(flag, value) matches Ok(once) ==> once.applied(flag, value) == Ok::<
            Opt,
            Failure,
        >(once),
{
}

/// Two flags that both succeed come to the same options in either order,
/// unless both are `-d` or both are `--mode`.
pub proof fn law_flag_order(opt: Opt, f: Flag, v: Seq<u8>, g: Flag, w: Seq<u8>)
    requires
        f != g || (f != Flag::Dims && f != Flag::Mode),
    ensures
        Opt::applied_both(opt, f, v, g, w) is Ok <==> Opt::applied_both(opt, g, w, f, v) is Ok,
        Opt::applied_both(opt, f, v, g, w) is Ok ==> Opt::applied_both(opt, f, v, g, w)
            == Opt::applied_both(opt, g, w, f, v),
{
}

/// Of two `-d`, or of two `--mode`, the later one decides.
pub proof fn law_last_wins(opt: Opt, flag: Flag, v: Seq<u8>, w: Seq<u8>)
    requires
        flag == Flag::Dims || flag == Flag::Mode,
    ensures
        Opt::applied_both(opt, flag, v, flag, w) is Ok ==> Opt::applied_both(opt, flag, v, flag, w)
            == opt.applied(flag, w),
{
}

/// No flag takes back what an earlier flag has switched on: a logarithmic
/// axis stays logarithmic, `cdf` stays set, and X stays a column.
pub proof fn law_nothing_is_cleared(opt: Opt, flag: Flag, value: Seq<u8>)
    ensures
        opt.applied(flag, value) matches Ok(next) ==> (opt.log_x ==> next.log_x),
        opt.applied(flag, value) matches Ok(next) ==> (opt.log_y ==> next.log_y),
        opt.applied(flag, value) matches Ok(next) ==> (opt.cdf ==> next.cdf),
        opt.applied(flag, value) matches Ok(next) ==> (!opt.x_is_row ==> !next.x_is_row),
{
}

/// Whether a flag succeeds does not depend on the options it is given to.
pub proof fn law_flag_success(a: Opt, b: Opt, flag: Flag, value: Seq<u8>)
    ensures
        a.applied(flag, value) is Ok <==> b.applied(flag, value) is Ok,
        a.applied(flag, value) matches Err(e) ==> b.applied(flag, value) == Err::<Opt, Failure>(e),
{
}

/// The final check passes options exactly when they are consistent, and
/// then hands them back unchanged. Whether Y is logarithmic plays no part.
pub proof fn law_check(opt: Opt)
    ensures
        opt.checked() is Ok <==> opt.consistent(),
        opt.checked() is Ok ==> opt.checked() == Ok::<Opt, Failure>(opt),
        (Opt { log_y: true, ..opt }).checked() is Ok <==> opt.checked() is Ok,
        opt.cdf && !opt.x_is_row ==> opt.checked() == Err::<Opt, Failure>(Failure::CdfExplicitX),
        opt.cdf && opt.x_is_row && opt.log_x ==> opt.checked() == Err::<Opt, Failure>(
            Failure::CdfLogX,
        ),
{
}

/// Options that a parse returns are consistent.
pub proof fn law_parse_consistent(opt: Opt, unread: Seq<Piece>, short_equals: bool)
    ensures
        opt.parse_from(unread, short_equals).result matches Ok(done) ==> done.consistent(),
    decreases weight(unread),
{
    let step = lex(unread, short_equals);
    if let Lexed::Token(token) = step.lexed {
        if weight(step.rest) < weight(unread) {
            if let Some(flag) = Flag::of_spec(token) {
                if !flag.takes_value() {
                    if let Ok(next) = opt.applied(flag, Seq::empty()) {
                        law_parse_consistent(next, step.rest, short_equals);
                    }
                } else if let Some(value) = taken_value(step.rest, short_equals) {
                    if let Ok(next) = opt.applied(flag, value) {
                        law_parse_consistent(next, after_value(step.rest), short_equals);
                    }
                }
            }
        }
    }
}

} // verus!
