use bstr::ByteVec;
use eyre::Context;
use plotargs::{ArgError, Flag, Mode, Opt, Token};

fn defaults() -> Opt {
    Opt {
        log_x: false,
        log_y: false,
        x_is_row: true,
        width: 72,
        height: 40,
        mode: Mode::Dot,
        cdf: false,
    }
}

fn parse(args: &[&str]) -> Result<Opt, ArgError> {
    Opt::parse_from_env(&mut lexopt::Parser::from_args(args))
}

fn parse_bytes(args: &[&[u8]]) -> Result<Opt, ArgError> {
    let args: Vec<_> = args
        .iter()
        .map(|arg| arg.to_vec().into_os_string().unwrap())
        .collect();
    Opt::parse_from_env(&mut lexopt::Parser::from_args(args))
}

fn bad_string(text: &str) -> Vec<u8> {
    let mut text = text.as_bytes().to_vec();
    for ch in &mut text {
        if *ch == b'@' {
            *ch = b'\xFF';
        }
    }
    text
}

fn report(err: ArgError) -> eyre::Report {
    eyre::Report::msg(err.message())
}

#[test]
fn d_dims_ok() -> eyre::Result<()> {
    let opt = Opt::parse_from_env(&mut lexopt::Parser::from_args(&["-d50x50"]))
        .map_err(report)
        .context("parse command-line arguments")?;
    assert_eq!(
        opt,
        Opt {
            log_x: false,
            log_y: false,
            x_is_row: true,
            width: 50,
            height: 50,
            mode: Mode::Dot,
            cdf: false,
        }
    );
    Ok(())
}

#[test]
#[should_panic(expected = "-d must be specified as WxH (eg, 72x40, which is the default)")]
fn d_dims_missing() {
    Opt::parse_from_env(&mut lexopt::Parser::from_args(&["-dd"]))
        .map_err(report)
        .context("parse command-line arguments")
        .unwrap();
}

#[test]
#[should_panic(expected = "-d argument contains invalid characters")]
fn d_dims_inv_char() {
    let arg = bad_string("-d@").into_os_string().unwrap();
    Opt::parse_from_env(&mut lexopt::Parser::from_args(&[arg]))
        .map_err(report)
        .context("parse command-line arguments")
        .unwrap();
}

#[test]
fn no_arguments_give_the_defaults() {
    assert_eq!(parse(&[]).unwrap(), defaults());
    assert_eq!(Opt::default(), defaults());
}

#[test]
fn dims_value_may_follow_or_be_attached() {
    let want = Opt { width: 10, height: 20, ..defaults() };
    assert_eq!(parse(&["-d10x20"]).unwrap(), want);
    assert_eq!(parse(&["-d", "10x20"]).unwrap(), want);
    assert_eq!(parse(&["-d=10x20"]).unwrap(), want);
}

#[test]
fn dims_value_after_a_cluster_of_short_flags() {
    let want = Opt { x_is_row: false, width: 10, height: 20, ..defaults() };
    assert_eq!(parse(&["-xd10x20"]).unwrap(), want);
    assert_eq!(parse(&["-xd", "10x20"]).unwrap(), want);
}

#[test]
fn dims_value_is_taken_even_if_it_looks_like_a_flag() {
    let err = parse(&["-d", "-x"]).unwrap_err();
    assert!(matches!(err, ArgError::DimsWidth));
    let err = parse(&["-d", "--cdf"]).unwrap_err();
    assert!(matches!(err, ArgError::DimsMissingSeparator));
}

#[test]
fn dims_without_separator_fail_whatever_they_hold() {
    for value in ["d", "", "7240", "72X40", "seventy", "72 40", "72*40"] {
        let err = parse(&["-d", value]).unwrap_err();
        assert!(matches!(err, ArgError::DimsMissingSeparator), "{value:?}");
        assert_eq!(
            err.message(),
            "-d must be specified as WxH (eg, 72x40, which is the default)"
        );
    }
}

#[test]
fn dims_with_undecodable_bytes_fail_before_the_split() {
    for value in [&b"\xff"[..], b"50x50\xff", b"\xffx50", b"50x\xff", b"\xc3x50", b"5\x80x5"] {
        let mut arg = b"-d".to_vec();
        arg.extend_from_slice(value);
        let err = parse_bytes(&[&arg]).unwrap_err();
        assert!(matches!(err, ArgError::DimsInvalidChars), "{value:?}");
        assert_eq!(err.message(), "-d argument contains invalid characters");
        let err = parse_bytes(&[b"-d", value]).unwrap_err();
        assert!(matches!(err, ArgError::DimsInvalidChars), "{value:?}");
    }
}

#[test]
fn dims_with_text_outside_ascii_are_no_numbers() {
    let err = parse(&["-d５x5"]).unwrap_err();
    assert!(matches!(err, ArgError::DimsWidth));
    let err = parse(&["-d5xé"]).unwrap_err();
    assert!(matches!(err, ArgError::DimsHeight));
}

#[test]
fn dims_name_the_half_that_is_no_number() {
    let err = parse(&["-dax5"]).unwrap_err();
    assert!(matches!(err, ArgError::DimsWidth));
    assert_eq!(err.message(), "parse width in -d argument");
    let err = parse(&["-d5xb"]).unwrap_err();
    assert!(matches!(err, ArgError::DimsHeight));
    assert_eq!(err.message(), "parse height in -d argument");
    let err = parse(&["-daxb"]).unwrap_err();
    assert!(matches!(err, ArgError::DimsWidth));
    let err = parse(&["-dx"]).unwrap_err();
    assert!(matches!(err, ArgError::DimsWidth));
    let err = parse(&["-d5x"]).unwrap_err();
    assert!(matches!(err, ArgError::DimsHeight));
}

#[test]
fn dims_split_at_the_first_separator_only() {
    let err = parse(&["-d50x50x50"]).unwrap_err();
    assert!(matches!(err, ArgError::DimsHeight));
    let err = parse(&["-d50xx50"]).unwrap_err();
    assert!(matches!(err, ArgError::DimsHeight));
}

#[test]
fn dims_that_do_not_fit_are_no_numbers() {
    let err = parse(&["-d340282366920938463463374607431768211456x1"]).unwrap_err();
    assert!(matches!(err, ArgError::DimsWidth));
    let err = parse(&["-d1x340282366920938463463374607431768211456"]).unwrap_err();
    assert!(matches!(err, ArgError::DimsHeight));
    let max = usize::MAX;
    let opt = parse(&[&format!("-d{max}x{max}")]).unwrap();
    assert_eq!(opt, Opt { width: max, height: max, ..defaults() });
}

#[test]
fn dims_read_back_for_many_sizes() {
    for width in [0usize, 1, 9, 10, 72, 99, 100, 12345, usize::MAX] {
        for height in [0usize, 1, 40, 101, 65535, usize::MAX - 1] {
            let opt = parse(&[&format!("-d{width}x{height}")]).unwrap();
            assert_eq!(opt, Opt { width, height, ..defaults() });
        }
    }
}

#[test]
fn log_sets_the_axis_it_names() {
    assert_eq!(parse(&["--log", "x"]).unwrap(), Opt { log_x: true, ..defaults() });
    assert_eq!(parse(&["--log", "y"]).unwrap(), Opt { log_y: true, ..defaults() });
    assert_eq!(parse(&["--log=y"]).unwrap(), Opt { log_y: true, ..defaults() });
    assert_eq!(parse(&["-l", "x"]).unwrap(), Opt { log_x: true, ..defaults() });
    assert_eq!(parse(&["-ly"]).unwrap(), Opt { log_y: true, ..defaults() });
    assert_eq!(
        parse(&["-lx", "-ly"]).unwrap(),
        Opt { log_x: true, log_y: true, ..defaults() }
    );
    assert_eq!(parse(&["-lx", "-lx"]).unwrap(), Opt { log_x: true, ..defaults() });
}

#[test]
fn log_c_is_known_but_not_supported() {
    let unsupported = parse(&["--log", "c"]).unwrap_err();
    assert!(matches!(unsupported, ArgError::LogUnsupported));
    assert_eq!(unsupported.message(), "--log c is not yet supported");
    let unknown = parse(&["--log", "q"]).unwrap_err();
    assert!(matches!(unknown, ArgError::LogUnknown));
    assert_eq!(unknown.message(), "--log takes x, y, or c");
    assert_ne!(unsupported.message(), unknown.message());
}

#[test]
fn log_takes_nothing_but_its_three_letters() {
    for value in ["", "X", "xy", "x ", " y", "log", "cc"] {
        let err = parse(&["--log", value]).unwrap_err();
        assert!(matches!(err, ArgError::LogUnknown), "{value:?}");
    }
    let err = parse_bytes(&[b"--log", b"\xff"]).unwrap_err();
    assert!(matches!(err, ArgError::LogUnknown));
}

#[test]
fn mode_names_map_to_their_variants() {
    assert_eq!(parse(&["--mode", "dot"]).unwrap(), Opt { mode: Mode::Dot, ..defaults() });
    assert_eq!(parse(&["--mode", "count"]).unwrap(), Opt { mode: Mode::Count, ..defaults() });
    assert_eq!(parse(&["-m", "count"]).unwrap(), Opt { mode: Mode::Count, ..defaults() });
    assert_eq!(parse(&["-mcount"]).unwrap(), Opt { mode: Mode::Count, ..defaults() });
    assert_eq!(parse(&["--mode=count"]).unwrap(), Opt { mode: Mode::Count, ..defaults() });
    assert_eq!(
        parse(&["--mode", "count", "--mode", "dot"]).unwrap(),
        Opt { mode: Mode::Dot, ..defaults() }
    );
}

#[test]
fn mode_takes_nothing_but_its_two_names() {
    for value in ["", "Dot", "COUNT", "blend", "dots", "count ", "do"] {
        let err = parse(&["--mode", value]).unwrap_err();
        assert!(matches!(err, ArgError::ModeUnknown), "{value:?}");
        assert_eq!(err.message(), "--mode takes dot (the default) or count");
    }
}

#[test]
fn mode_count_with_log_y() {
    assert_eq!(
        parse(&["-m", "count", "--log", "y"]).unwrap(),
        Opt { mode: Mode::Count, log_y: true, ..defaults() }
    );
}

#[test]
fn cdf_alone_is_accepted() {
    assert_eq!(parse(&["--cdf"]).unwrap(), Opt { cdf: true, ..defaults() });
    assert_eq!(parse(&["--cdf", "--cdf"]).unwrap(), Opt { cdf: true, ..defaults() });
}

#[test]
fn cdf_with_explicit_x_fails() {
    for args in [["--cdf", "-x"], ["-x", "--cdf"]] {
        let err = parse(&args).unwrap_err();
        assert!(matches!(err, ArgError::CdfExplicitX));
        assert!(err.message().contains("ignored"));
        assert_eq!(
            err.message(),
            "CDF is only over the Y value; an explicit X value will be ignored"
        );
    }
}

#[test]
fn cdf_with_log_x_fails() {
    for args in [["--cdf", "--log", "x"], ["--log", "x", "--cdf"]] {
        let err = parse(&args).unwrap_err();
        assert!(matches!(err, ArgError::CdfLogX));
        assert!(err.message().starts_with(
            "CDF is only over the Y value and changes the axes; logarithmic X would have no"
        ));
    }
}

#[test]
fn cdf_with_explicit_x_and_log_x_reports_the_explicit_x() {
    let err = parse(&["--log", "x", "-x", "--cdf"]).unwrap_err();
    assert!(matches!(err, ArgError::CdfExplicitX));
}

#[test]
fn cdf_with_log_y_is_accepted() {
    for args in [["--cdf", "--log", "y"], ["--log", "y", "--cdf"]] {
        assert_eq!(parse(&args).unwrap(), Opt { cdf: true, log_y: true, ..defaults() });
    }
}

#[test]
fn explicit_x_and_log_x_without_cdf_are_accepted() {
    assert_eq!(
        parse(&["-x", "--log", "x"]).unwrap(),
        Opt { x_is_row: false, log_x: true, ..defaults() }
    );
}

#[test]
fn repeated_flag_is_the_flag_given_once() {
    assert_eq!(parse(&["-x", "-x"]).unwrap(), parse(&["-x"]).unwrap());
    assert_eq!(parse(&["-xx"]).unwrap(), Opt { x_is_row: false, ..defaults() });
    assert_eq!(parse(&["-d1x2", "-d1x2"]).unwrap(), parse(&["-d1x2"]).unwrap());
}

#[test]
fn flags_may_come_in_any_order() {
    let want = Opt {
        log_x: false,
        log_y: true,
        x_is_row: true,
        width: 30,
        height: 12,
        mode: Mode::Count,
        cdf: true,
    };
    assert_eq!(parse(&["--cdf", "-ly", "-d30x12", "-mcount"]).unwrap(), want);
    assert_eq!(parse(&["-mcount", "-d30x12", "-ly", "--cdf"]).unwrap(), want);
    assert_eq!(parse(&["-d30x12", "--cdf", "-mcount", "-ly"]).unwrap(), want);
}

#[test]
fn later_dims_replace_earlier_ones() {
    assert_eq!(
        parse(&["-d1x2", "-d3x4"]).unwrap(),
        Opt { width: 3, height: 4, ..defaults() }
    );
    assert_eq!(
        parse(&["-d3x4", "-d1x2"]).unwrap(),
        Opt { width: 1, height: 2, ..defaults() }
    );
}

#[test]
fn help_always_fails() {
    for args in [vec!["-h"], vec!["--help"], vec!["-x", "--help"], vec!["-hx"]] {
        let err = parse(&args).unwrap_err();
        assert!(matches!(err, ArgError::Help));
        assert!(err.message().contains("not yet implemented"));
    }
}

#[test]
fn first_fault_ends_the_parse() {
    let err = parse(&["--help", "--log", "q"]).unwrap_err();
    assert!(matches!(err, ArgError::Help));
    let err = parse(&["--log", "q", "--help"]).unwrap_err();
    assert!(matches!(err, ArgError::LogUnknown));
    let err = parse(&["--cdf", "-x", "--mode", "blend"]).unwrap_err();
    assert!(matches!(err, ArgError::ModeUnknown));
}

#[test]
fn unknown_options_are_named() {
    let err = parse(&["-q"]).unwrap_err();
    assert!(matches!(&err, ArgError::Unexpected(Token::Short('q'))));
    assert_eq!(err.message(), "invalid option '-q'");
    let err = parse(&["--frobnicate"]).unwrap_err();
    assert!(matches!(&err, ArgError::Unexpected(Token::Long(name)) if name == "frobnicate"));
    assert_eq!(err.message(), "invalid option '--frobnicate'");
    let err = parse(&["--Help"]).unwrap_err();
    assert!(matches!(&err, ArgError::Unexpected(Token::Long(name)) if name == "Help"));
    let err = parse(&["-D", "1x1"]).unwrap_err();
    assert!(matches!(&err, ArgError::Unexpected(Token::Short('D'))));
}

#[test]
fn long_forms_exist_only_where_they_exist() {
    let err = parse(&["--x"]).unwrap_err();
    assert!(matches!(&err, ArgError::Unexpected(Token::Long(name)) if name == "x"));
    let err = parse(&["--d", "1x1"]).unwrap_err();
    assert!(matches!(&err, ArgError::Unexpected(Token::Long(name)) if name == "d"));
    let err = parse(&["-c"]).unwrap_err();
    assert!(matches!(&err, ArgError::Unexpected(Token::Short('c'))));
}

#[test]
fn arguments_that_are_no_option_are_named() {
    let err = parse(&["data.txt"]).unwrap_err();
    assert!(matches!(&err, ArgError::Unexpected(Token::Value(bytes)) if bytes == b"data.txt"));
    assert_eq!(err.message(), "unexpected argument \"data.txt\"");
    let err = parse(&["-x", "--", "-x"]).unwrap_err();
    assert!(matches!(&err, ArgError::Unexpected(Token::Value(bytes)) if bytes == b"-x"));
    let err = parse(&["-"]).unwrap_err();
    assert!(matches!(&err, ArgError::Unexpected(Token::Value(bytes)) if bytes == b"-"));
}

#[test]
fn arguments_that_are_no_text_keep_their_bytes() {
    let err = parse_bytes(&[b"da\xffta"]).unwrap_err();
    assert!(matches!(&err, ArgError::Unexpected(Token::Value(bytes)) if bytes == b"da\xffta"));
    assert_eq!(err.message(), "unexpected argument \"da\u{fffd}ta\"");
}

#[test]
fn missing_value_names_the_flag() {
    let err = parse(&["-d"]).unwrap_err();
    assert!(matches!(err, ArgError::MissingValue(Flag::Dims, _)));
    assert_eq!(err.message(), "value for -d");
    let err = parse(&["-x", "--log"]).unwrap_err();
    assert!(matches!(err, ArgError::MissingValue(Flag::Log, _)));
    assert_eq!(err.message(), "value for --log");
    let err = parse(&["-l"]).unwrap_err();
    assert!(matches!(err, ArgError::MissingValue(Flag::Log, _)));
    let err = parse(&["-m"]).unwrap_err();
    assert!(matches!(err, ArgError::MissingValue(Flag::Mode, _)));
    assert_eq!(err.message(), "value for --mode");
    let err = parse(&["--mode"]).unwrap_err();
    assert!(matches!(&err, ArgError::MissingValue(Flag::Mode, cause)
        if cause.to_string() == "missing argument for option '--mode'"));
}

#[test]
fn value_given_to_a_flag_that_takes_none_fails() {
    let err = parse(&["--cdf=1"]).unwrap_err();
    assert!(matches!(&err, ArgError::Lex(cause)
        if cause.to_string() == "unexpected argument for option '--cdf': \"1\""));
    assert_eq!(err.message(), "read next argument");
    let err = parse(&["-x=1"]).unwrap_err();
    assert!(matches!(err, ArgError::Lex(_)));
}

#[test]
fn parser_keeps_what_follows_the_fault() {
    let mut parser = lexopt::Parser::from_args(&["-d1x2", "-q", "--cdf", "rest"]);
    let err = Opt::parse_from_env(&mut parser).unwrap_err();
    assert!(matches!(err, ArgError::Unexpected(Token::Short('q'))));
    assert_eq!(parser.next().unwrap(), Some(lexopt::Arg::Long("cdf")));
    let err = Opt::parse_from_env(&mut parser).unwrap_err();
    assert!(matches!(&err, ArgError::Unexpected(Token::Value(bytes)) if bytes == b"rest"));
    assert_eq!(parser.next().unwrap(), None);
}

#[test]
fn parser_is_exhausted_after_a_parse_that_succeeds() {
    let mut parser = lexopt::Parser::from_args(&["-d1x2", "--cdf"]);
    let opt = Opt::parse_from_env(&mut parser).unwrap();
    assert_eq!(opt, Opt { width: 1, height: 2, cdf: true, ..defaults() });
    assert_eq!(parser.next().unwrap(), None);
    assert_eq!(Opt::parse_from_env(&mut parser).unwrap(), defaults());
}

#[test]
fn short_equals_setting_is_honoured() {
    let mut parser = lexopt::Parser::from_args(&["-d=1x2"]);
    parser.set_short_equals(false);
    let err = Opt::parse_from_env(&mut parser).unwrap_err();
    assert!(matches!(err, ArgError::DimsWidth));
    let mut parser = lexopt::Parser::from_args(&["-d=1x2"]);
    let opt = Opt::parse_from_env(&mut parser).unwrap();
    assert_eq!(opt, Opt { width: 1, height: 2, ..defaults() });
}
