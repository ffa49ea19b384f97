use sgr_macros::color;
use sgr_macros::color_256;
use sgr_macros::color_rgb;
use sgr_macros::gen::GenCode;
use sgr_macros::gen::eval_code;
use sgr_macros::sgr::SgrReset;
use sgr_macros::sgr::color::ColorBasic;
use sgr_macros::sgr::color::ColorChange;
use sgr_macros::sgr::color::ColorNamed;
use sgr_macros::sgr::base::Output;
use sgr_macros::sgr::base::Revert;
use sgr_macros::sgr::rgb::Rgb;
use sgr_macros::sgr::rgb::RgbNumber;
use sgr_macros::sgr::rgb::accept_value;
use sgr_macros::sgr::rgb::expand_rgb_rrggbb;
use sgr_macros::sgr_style;
use sgr_macros::text::fmt_u8;
use sgr_macros::tok::ErrorKind;
use sgr_macros::tok::FloatLit;
use sgr_macros::tok::Tok;

fn lit(text: &str) -> Tok {
    Tok::Str(String::from(text))
}

fn pc(c: char) -> Tok {
    Tok::Punct(c)
}

fn id(name: &str) -> Tok {
    Tok::Ident(String::from(name))
}

fn num(v: u128) -> Tok {
    Tok::Int(v)
}

fn fl(whole: u64, frac: &[u8]) -> Tok {
    Tok::Float(FloatLit { whole, frac: frac.to_vec() })
}

fn group(toks: Vec<Tok>) -> Tok {
    Tok::Group(toks)
}

#[test]
fn const_sigil_requires_capability() {
    let err = sgr_style(3, 23, vec![pc('#'), lit("x")], false).unwrap_err();
    assert_eq!(err.kind, ErrorKind::ConstCapability);
    assert_eq!(err.pos, 0);
    assert!(sgr_style(3, 23, vec![pc('#'), lit("x")], true).is_ok());
}

#[test]
fn empty_color_is_an_error() {
    let err = color(vec![pc(';'), lit("x")], false).unwrap_err();
    assert_eq!(err.kind, ErrorKind::EmptyColor);
    assert_eq!(err.describe(), "empty color");
}

#[test]
fn unknown_color_name_is_an_error() {
    let err = ColorBasic::parse(&vec![lit("chartreuse")], 0).unwrap_err();
    assert_eq!(err.kind, ErrorKind::InvalidColorName);
    assert_eq!(err.describe(), "invalid color");
}

#[test]
fn color_names_ignore_case_space_and_bright_spelling() {
    let (c, _) = ColorBasic::parse(&vec![lit("  BRIGHT Yellow ")], 0).unwrap();
    assert_eq!(c, ColorBasic { color: ColorNamed::Yellow, bright: true });
    let (c, _) = ColorBasic::parse(&vec![lit("brightred")], 0).unwrap();
    assert_eq!(c, ColorBasic { color: ColorNamed::Red, bright: true });
    let (c, _) = ColorBasic::parse(&vec![id("_")], 0).unwrap();
    assert_eq!(c, ColorBasic { color: ColorNamed::Default, bright: false });
}

#[test]
fn rgb_over_24_bits_is_an_error() {
    let err = color_rgb(vec![num(0x1000000), pc(';'), lit("t")], false).unwrap_err();
    assert_eq!(err.kind, ErrorKind::RgbTooLarge);
    assert_eq!(err.describe(), "RGB color value exceeds 24 bits");
    assert_eq!(accept_value(0xFFFFFF), Ok(0xFFFFFF));
    assert!(accept_value(0x1000000).is_err());
}

#[test]
fn bad_hex_string_is_an_error() {
    let err = color_rgb(vec![lit("#GGHHII"), pc(';'), lit("t")], false).unwrap_err();
    assert_eq!(err.kind, ErrorKind::InvalidRgbString);
    let err = color_rgb(vec![lit("no-prefix"), pc(';'), lit("t")], false).unwrap_err();
    assert_eq!(err.kind, ErrorKind::InvalidRgbString);
    let err = color_rgb(vec![lit("#"), pc(';'), lit("t")], false).unwrap_err();
    assert_eq!(err.kind, ErrorKind::InvalidRgbString);
}

#[test]
fn negative_float_channel_is_an_error() {
    let toks = vec![
        group(vec![pc('-'), fl(0, &[5]), pc(','), num(0), pc(','), num(0)]),
        pc(';'),
        lit("t"),
    ];
    let err = color_rgb(toks, false).unwrap_err();
    assert_eq!(err.kind, ErrorKind::ChannelNegative);
    assert_eq!(err.describe(), "RGB channel cannot be negative");
}

#[test]
fn negative_zero_float_channel_is_zero() {
    let toks = vec![
        group(vec![pc('-'), fl(0, &[0, 0]), pc(','), num(1), pc(','), num(2)]),
        pc(';'),
        lit("t"),
    ];
    let text = eval_code(&color_rgb(toks, false).unwrap()).unwrap();
    assert_eq!(text, "\x1B[38;2;0;1;2mt\x1B[39m");
}

#[test]
fn float_channel_above_one_is_an_error() {
    let toks = vec![group(vec![fl(1, &[5]), pc(','), num(0), pc(','), num(0)]), pc(';'), lit("t")];
    let err = color_rgb(toks, false).unwrap_err();
    assert_eq!(err.kind, ErrorKind::ChannelTooLarge);
    assert_eq!(err.describe(), "RGB channel cannot exceed 1.0");
}

#[test]
fn float_channel_scaling_truncates() {
    // 0.127 * 255 = 32.385, truncated to 32
    let (v, _) = RgbNumber::parse(&vec![fl(0, &[1, 2, 7])], 0).unwrap();
    assert_eq!(v, 32);
    // 0.5 * 255 = 127.5, truncated to 127
    let (v, _) = RgbNumber::parse(&vec![fl(0, &[5])], 0).unwrap();
    assert_eq!(v, 127);
    // 1.0 * 255 = 255 exactly
    let (v, _) = RgbNumber::parse(&vec![fl(1, &[0, 0])], 0).unwrap();
    assert_eq!(v, 255);
    // 0.999... (30 nines) truncates to 254
    let nines = [9u8; 30];
    let (v, _) = RgbNumber::parse(&vec![fl(0, &nines)], 0).unwrap();
    assert_eq!(v, 254);
}

#[test]
fn indexed_color_out_of_range_is_an_error() {
    let err = color_256(vec![num(300), pc(';'), lit("t")], false).unwrap_err();
    assert_eq!(err.kind, ErrorKind::IntOutOfRange);
    let err = color_256(vec![lit("nan"), pc(';'), lit("t")], false).unwrap_err();
    assert_eq!(err.kind, ErrorKind::ExpectedInt);
}

#[test]
fn missing_semicolon_is_an_error() {
    let err = color_256(vec![num(5), lit("t")], false).unwrap_err();
    assert_eq!(err.kind, ErrorKind::ExpectedSemicolon);
    assert_eq!(err.pos, 1);
}

#[test]
fn leftover_tokens_are_an_error() {
    // a template literal not followed by a comma must end the invocation
    let err = sgr_style(32, 39, vec![pc('@'), lit("x"), id("junk")], false).unwrap_err();
    assert_eq!(err.kind, ErrorKind::UnexpectedToken);
    assert_eq!(err.pos, 2);
}

#[test]
fn tuple_needs_commas_and_exactly_three_channels() {
    let err = color_rgb(vec![group(vec![num(1), num(2), num(3)]), pc(';'), lit("t")], false)
        .unwrap_err();
    assert_eq!(err.kind, ErrorKind::ExpectedComma);
    let err = color_rgb(
        vec![group(vec![num(1), pc(','), num(2), pc(','), num(3), pc(','), num(4)]), pc(';'), lit("t")],
        false,
    )
    .unwrap_err();
    assert_eq!(err.kind, ErrorKind::UnexpectedToken);
    let err = color_rgb(vec![id("wat"), pc(';'), lit("t")], false).unwrap_err();
    assert_eq!(err.kind, ErrorKind::ExpectedRgb);
}

#[test]
fn rgb_conversions_roundtrip() {
    let rgb = Rgb::from(0x420311u32);
    assert_eq!((rgb.a, rgb.r, rgb.g, rgb.b), (0, 0x42, 0x03, 0x11));
    assert_eq!(u32::from(rgb), 0x420311);
    let rgb = Rgb::from_str("#abc").unwrap();
    assert_eq!((rgb.r, rgb.g, rgb.b), (0xAA, 0xBB, 0xCC));
    // the string form tolerates a parsed-but-ignored alpha byte
    let rgb = Rgb::from_str("0xFF420311").unwrap();
    assert_eq!((rgb.a, rgb.r, rgb.g, rgb.b), (0xFF, 0x42, 0x03, 0x11));
    assert!(Rgb::from_str("#112233445").is_err());
    assert_eq!(expand_rgb_rrggbb("abc"), Some(String::from("aabbcc")));
    assert_eq!(expand_rgb_rrggbb("abcd"), None);
}

#[test]
fn mixing_never_resets_an_unset_side() {
    // an explicit reset request on a side that set nothing yields no code
    assert_eq!(ColorChange::mix(None, Some(ColorChange::Reset)), None);
    assert_eq!(ColorChange::mix(Some(ColorChange::NoChange), Some(ColorChange::Reset)), None);
    assert_eq!(ColorChange::mix(Some(ColorChange::Reset), None), None);
    // a side that set a color follows the request exactly
    assert_eq!(
        ColorChange::mix(
            Some(ColorChange::Apply(sgr_macros::sgr::color::ColorAny::Indexed(
                sgr_macros::sgr::color::Indexed(7),
            ))),
            Some(ColorChange::Reset),
        ),
        Some(ColorChange::Reset),
    );
}

#[test]
fn reset_invocation_renders_bare_sequence() {
    let reset = SgrReset::parse(&vec![]);
    assert_eq!(reset.render(), "\x1B[m");
}

#[test]
fn reembedding_output_reproduces_its_bytes() {
    // a generated literal fed back as plain text through an empty wrapper
    let inner = eval_code(&sgr_style(32, 39, vec![lit("green text")], false).unwrap()).unwrap();
    let code = GenCode::Concat {
        opening: String::new(),
        contents: vec![lit(&inner)],
        closing: String::new(),
    };
    assert_eq!(eval_code(&code).unwrap(), inner);
}

#[test]
fn template_braces_escape() {
    let text = eval_code(&sgr_style(1, 22, vec![pc('@'), lit("{{x}}")], false).unwrap()).unwrap();
    assert_eq!(text, "\x1B[1m{x}\x1B[22m");
}

#[test]
fn implicit_template_takes_one_argument() {
    // with no template literal, the implicit `{}` formats the next argument
    let text = eval_code(&sgr_style(4, 24, vec![pc('@'), lit("five")], false).unwrap()).unwrap();
    assert_eq!(text, "\x1B[4mfive\x1B[24m");
}

#[test]
fn decimal_formatting_is_exact() {
    assert_eq!(fmt_u8(0), "0");
    assert_eq!(fmt_u8(7), "7");
    assert_eq!(fmt_u8(48), "48");
    assert_eq!(fmt_u8(173), "173");
    assert_eq!(fmt_u8(255), "255");
}

#[test]
fn background_only_color_with_suppressed_foreground() {
    // `!` on the foreground side is an explicit no-op, not an error
    let code = color(vec![pc('!'), id("in"), lit("red"), pc(';'), lit("t")], false).unwrap();
    assert_eq!(eval_code(&code).unwrap(), "\x1B[41mt\x1B[49m");
}

#[test]
fn unified_color_reset_both_sides() {
    // a bare `*` as the opening pair resets both sides fully
    let code = color(vec![pc('*'), pc(';'), lit("t")], false).unwrap();
    assert_eq!(eval_code(&code).unwrap(), "\x1B[39;49mt");
}

#[test]
fn unified_revert_suppression_and_reset_all() {
    let code = color(vec![lit("green"), pc(';'), lit("t"), pc(';'), pc('!')], false).unwrap();
    assert_eq!(eval_code(&code).unwrap(), "\x1B[32mt");
    let code = color(vec![lit("green"), pc(';'), lit("t"), pc(';'), pc('*')], false).unwrap();
    assert_eq!(eval_code(&code).unwrap(), "\x1B[32mt\x1B[39;49m");
}

#[test]
fn lowercase_hex_string_agrees_with_integer_form() {
    let a = eval_code(&color_rgb(vec![num(0xFF7F00), pc(';'), lit("t")], false).unwrap()).unwrap();
    let b = eval_code(&color_rgb(vec![lit("#ff7f00"), pc(';'), lit("t")], false).unwrap()).unwrap();
    assert_eq!(a, b);
}

#[test]
fn unified_color_with_output_sigil() {
    let code = color(vec![lit("green"), pc(';'), pc('@'), lit("t")], false).unwrap();
    assert_eq!(eval_code(&code).unwrap(), "\x1B[32mt\x1B[39m");
    let code = color(vec![lit("green"), pc(';'), pc('@'), pc(','), lit("t")], false).unwrap();
    assert_eq!(eval_code(&code).unwrap(), "\x1B[32mt\x1B[39m");
}

#[test]
fn named_color_requires_a_string() {
    let err = ColorBasic::parse(&vec![num(5)], 0).unwrap_err();
    assert_eq!(err.kind, ErrorKind::ExpectedColorName);
    let err = ColorBasic::parse(&vec![], 0).unwrap_err();
    assert_eq!(err.kind, ErrorKind::ExpectedColorName);
}

#[test]
fn channel_requires_a_number() {
    let toks = vec![group(vec![lit("red"), pc(','), num(0), pc(','), num(0)]), pc(';'), lit("t")];
    let err = color_rgb(toks, false).unwrap_err();
    assert_eq!(err.kind, ErrorKind::ExpectedChannel);
    let toks = vec![group(vec![num(256), pc(','), num(0), pc(','), num(0)]), pc(';'), lit("t")];
    let err = color_rgb(toks, false).unwrap_err();
    assert_eq!(err.kind, ErrorKind::IntOutOfRange);
}

#[test]
fn mode_getters_follow_the_sigils() {
    assert!(!Output::Concat.needs_template());
    assert!(Output::ConstFormat.needs_template());
    assert!(Output::Format.needs_template());
    assert!(Output::String.needs_template());
    assert!(!Output::Concat.has_sigil());
    assert!(Output::String.has_sigil());
    assert!(!Revert::One.has_sigil());
    assert!(Revert::All.has_sigil());
    assert!(Revert::Off.has_sigil());
}
