use sgr_macros::color;
use sgr_macros::color_256;
use sgr_macros::color_256_bg;
use sgr_macros::color_rgb;
use sgr_macros::color_rgb_bg;
use sgr_macros::gen::eval_code;
use sgr_macros::sgr_style;
use sgr_macros::tok::FloatLit;
use sgr_macros::tok::Tok;

fn lit(text: &str) -> Tok {
    Tok::Str(String::from(text))
}

fn pc(c: char) -> Tok {
    Tok::Punct(c)
}

fn id(name: &str) -> Tok {
    Tok::Ident(String::from(name))
}

fn num(v: u128) -> Tok {
    Tok::Int(v)
}

fn fl(whole: u64, frac: &[u8]) -> Tok {
    Tok::Float(FloatLit { whole, frac: frac.to_vec() })
}

fn group(toks: Vec<Tok>) -> Tok {
    Tok::Group(toks)
}

fn style(start: u8, end: u8, toks: Vec<Tok>, allow_const: bool) -> String {
    eval_code(&sgr_style(start, end, toks, allow_const).unwrap()).unwrap()
}

fn rgb(toks: Vec<Tok>) -> String {
    eval_code(&color_rgb(toks, false).unwrap()).unwrap()
}

fn rgb_bg(toks: Vec<Tok>) -> String {
    eval_code(&color_rgb_bg(toks, false).unwrap()).unwrap()
}

fn c256(toks: Vec<Tok>) -> String {
    eval_code(&color_256(toks, false).unwrap()).unwrap()
}

fn c256_bg(toks: Vec<Tok>) -> String {
    eval_code(&color_256_bg(toks, false).unwrap()).unwrap()
}

fn unified(toks: Vec<Tok>) -> String {
    eval_code(&color(toks, false).unwrap()).unwrap()
}

#[test]
fn test_sgr_concat() {
    let text = style(32, 39, vec![lit("green text")], false);
    assert_eq!(text, "\x1B[32mgreen text\x1B[39m");

    let text = style(32, 39, vec![pc('!'), lit("green text non-reverted")], false);
    assert_eq!(text, "\x1B[32mgreen text non-reverted");

    let inner_green = style(32, 39, vec![lit("Italic Green")], false);
    let inner_red = style(31, 39, vec![pc('!'), lit("Italic Red")], false);
    let text = style(
        3,
        23,
        vec![
            pc('*'),
            pc(','),
            lit("Italic, "),
            pc(','),
            lit(&inner_green),
            pc(','),
            lit(", "),
            pc(','),
            lit(&inner_red),
            pc(','),
        ],
        false,
    );
    assert_eq!(
        text,
        "\x1B[3mItalic, \x1B[32mItalic Green\x1B[39m, \x1B[31mItalic Red\x1B[m",
    );
}

#[test]
fn test_sgr_const() {
    let text = style(32, 39, vec![lit("green text")], true);
    assert_eq!(text, "\x1B[32mgreen text\x1B[39m");

    let text = style(32, 39, vec![pc('!'), lit("green text non-reverted")], true);
    assert_eq!(text, "\x1B[32mgreen text non-reverted");

    let inner_green = style(32, 39, vec![lit("green")], true);
    let inner_blue = style(34, 39, vec![pc('!'), lit("blue")], true);
    let inner_red = style(31, 39, vec![pc('!'), lit("red")], true);
    let text = style(
        3,
        23,
        vec![
            pc('#'),
            pc('*'),
            pc(','),
            lit("italic {r} {} {b}"),
            pc(','),
            lit(&inner_green),
            pc(','),
            id("b"),
            pc('='),
            lit(&inner_blue),
            pc(','),
            id("r"),
            pc('='),
            lit(&inner_red),
            pc(','),
        ],
        true,
    );
    assert_eq!(
        text,
        "\x1B[3mitalic \x1B[31mred \x1B[32mgreen\x1B[39m \x1B[34mblue\x1B[m",
    );
}

#[test]
fn test_sgr_format() {
    let text = style(32, 39, vec![pc('%'), lit("green text")], false);
    assert_eq!(text, "\x1B[32mgreen text\x1B[39m");

    let text = style(32, 39, vec![pc('%'), pc('*'), lit("green text")], false);
    assert_eq!(text, "\x1B[32mgreen text\x1B[m");

    let text = style(32, 39, vec![pc('%'), pc('!'), lit("green text")], false);
    assert_eq!(text, "\x1B[32mgreen text");
}

#[test]
fn test_sgr_string() {
    let text = style(32, 39, vec![pc('@'), lit("green text")], false);
    assert_eq!(text, "\x1B[32mgreen text\x1B[39m");

    let text = style(32, 39, vec![pc('@'), pc('!'), lit("green text non-reverted")], false);
    assert_eq!(text, "\x1B[32mgreen text non-reverted");

    let inner_green = style(32, 39, vec![lit("green")], false);
    let inner_blue = style(34, 39, vec![pc('!'), lit("blue")], false);
    let inner_red = style(31, 39, vec![pc('!'), lit("red")], false);
    let text = style(
        3,
        23,
        vec![
            pc('@'),
            pc('*'),
            pc(','),
            lit("italic {r} {} {b}"),
            pc(','),
            lit(&inner_green),
            pc(','),
            id("b"),
            pc('='),
            lit(&inner_blue),
            pc(','),
            id("r"),
            pc('='),
            lit(&inner_red),
            pc(','),
        ],
        false,
    );
    assert_eq!(
        text,
        "\x1B[3mitalic \x1B[31mred \x1B[32mgreen\x1B[39m \x1B[34mblue\x1B[m",
    );
}

#[test]
fn test_sgr_rgb() {
    //  Literal `0xRRGGBB` hex format.
    assert_eq!(
        rgb_bg(vec![num(0x420311), pc(';'), lit("RGB text")]),
        "\x1B[48;2;66;3;17mRGB text\x1B[49m",
    );

    //  Maximum value.
    assert_eq!(
        rgb(vec![num(0xFFFFFF), pc(';'), lit("RGB text")]),
        "\x1B[38;2;255;255;255mRGB text\x1B[39m",
    );

    assert_eq!(
        rgb(vec![num(0xFF55FF), pc(';'), lit("RGB text")]),
        "\x1B[38;2;255;85;255mRGB text\x1B[39m",
    );

    //  String "0xRRGGBB" hex format.
    assert_eq!(
        rgb(vec![lit("0xFF55FF"), pc(';'), lit("RGB text")]),
        "\x1B[38;2;255;85;255mRGB text\x1B[39m",
    );

    //  String "#RRGGBB" hex format.
    assert_eq!(
        rgb(vec![lit("#FF55FF"), pc(';'), lit("RGB text")]),
        "\x1B[38;2;255;85;255mRGB text\x1B[39m",
    );

    //  Tuple format (all integers).
    assert_eq!(
        rgb(vec![group(vec![num(255), pc(','), num(127), pc(','), num(0)]), pc(';'), lit("RGB text")]),
        "\x1B[38;2;255;127;0mRGB text\x1B[39m",
    );

    //  Tuple format (with floats).
    assert_eq!(
        rgb(vec![
            group(vec![fl(1, &[0]), pc(','), fl(0, &[5]), pc(','), num(0)]),
            pc(';'),
            lit("RGB text"),
        ]),
        "\x1B[38;2;255;127;0mRGB text\x1B[39m",
    );

    //  Confirm equivalence between zero forms.
    assert_eq!(
        rgb(vec![num(0x000), pc(';'), lit("RGB text")]),
        rgb(vec![num(0x000000), pc(';'), lit("RGB text")]),
    );
    assert_eq!(
        rgb(vec![num(0x000), pc(';'), lit("RGB text")]),
        rgb(vec![num(0), pc(';'), lit("RGB text")]),
    );

    //  Confirm equivalence between nonzero forms.
    assert_eq!(
        rgb(vec![num(0xFF7F00), pc(';'), lit("RGB text")]),
        rgb(vec![lit("#FF7F00"), pc(';'), lit("RGB text")]),
    );
    assert_eq!(
        rgb(vec![num(0xFF7F00), pc(';'), lit("RGB text")]),
        rgb(vec![
            group(vec![num(0xFF), pc(','), num(0x7F), pc(','), num(0x00)]),
            pc(';'),
            lit("RGB text"),
        ]),
    );
    assert_eq!(
        rgb(vec![num(0xFF7F00), pc(';'), lit("RGB text")]),
        rgb(vec![group(vec![num(255), pc(','), num(127), pc(','), num(0)]), pc(';'), lit("RGB text")]),
    );

    //  Confirm that expansion of `RGB` into `RRGGBB` works properly.
    assert_eq!(
        rgb(vec![lit("#ABC"), pc(';'), lit("RGB text")]),
        rgb(vec![lit("#AABBCC"), pc(';'), lit("RGB text")]),
    );

    //  Confirm that non-revert mode works properly.
    assert_eq!(
        rgb_bg(vec![num(0x553355), pc(';'), pc('!'), lit("RGB text")]),
        "\x1B[48;2;85;51;85mRGB text",
    );

    //  Confirm that all-revert mode works properly.
    assert_eq!(
        rgb_bg(vec![num(0x335555), pc(';'), pc('*'), lit("RGB text")]),
        "\x1B[48;2;51;85;85mRGB text\x1B[m",
    );
}

#[test]
fn test_sgr_256() {
    assert_eq!(
        c256(vec![num(255), pc(';'), lit("Indexed-color text")]),
        "\x1B[38;5;255mIndexed-color text\x1B[39m",
    );

    assert_eq!(
        c256(vec![num(173), pc(';'), lit("Indexed-color text")]),
        "\x1B[38;5;173mIndexed-color text\x1B[39m",
    );

    assert_eq!(
        c256_bg(vec![num(64), pc(';'), pc('!'), lit("Indexed-color text")]),
        "\x1B[48;5;64mIndexed-color text",
    );

    assert_eq!(
        c256_bg(vec![num(128), pc(';'), pc('*'), lit("Indexed-color text")]),
        "\x1B[48;5;128mIndexed-color text\x1B[m",
    );
}

#[test]
fn test_unified_color() {
    //  Test all foreground set modes.
    assert_eq!(
        unified(vec![lit("green"), pc(';'), lit("Green Text")]),
        "\x1B[32mGreen Text\x1B[39m",
    );
    assert_eq!(
        unified(vec![num(73), pc(';'), lit("Indexed Text")]),
        "\x1B[38;5;73mIndexed Text\x1B[39m",
    );
    assert_eq!(
        unified(vec![num(0xFF7F00), pc(';'), lit("RGB Text")]),
        "\x1B[38;2;255;127;0mRGB Text\x1B[39m",
    );

    //  Test all background set modes.
    assert_eq!(
        unified(vec![id("in"), lit("green"), pc(';'), lit("Text on Green")]),
        "\x1B[42mText on Green\x1B[49m",
    );
    assert_eq!(
        unified(vec![id("in"), num(73), pc(';'), lit("Text on Indexed")]),
        "\x1B[48;5;73mText on Indexed\x1B[49m",
    );
    assert_eq!(
        unified(vec![id("in"), num(0xFF7F00), pc(';'), lit("Text on RGB")]),
        "\x1B[48;2;255;127;0mText on RGB\x1B[49m",
    );

    //  Test combined fg+bg set modes.
    assert_eq!(
        unified(vec![lit("bright yellow"), id("in"), lit("red"), pc(';'), lit("Yellow Text on Red")]),
        "\x1B[93;41mYellow Text on Red\x1B[39;49m",
    );
    assert_eq!(
        unified(vec![num(0xFF7F00), id("in"), num(73), pc(';'), lit("RGB Text on Indexed")]),
        "\x1B[38;2;255;127;0;48;5;73mRGB Text on Indexed\x1B[39;49m",
    );
    assert_eq!(
        unified(vec![num(73), id("in"), num(0xFF7F00), pc(';'), lit("Indexed Text on RGB")]),
        "\x1B[38;5;73;48;2;255;127;0mIndexed Text on RGB\x1B[39;49m",
    );

    //  Test revert specification.
    assert_eq!(
        unified(vec![lit("green"), pc(';'), lit("Green Text"), pc(';'), id("in"), lit("red")]),
        "\x1B[32mGreen Text\x1B[39;41m",
    );
    assert_eq!(
        unified(vec![
            lit("green"),
            pc(';'),
            lit("Green Text"),
            pc(';'),
            lit("bright yellow"),
            id("in"),
            lit("red"),
        ]),
        "\x1B[32mGreen Text\x1B[93;41m",
    );
}
