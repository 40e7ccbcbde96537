use infocard::decimal::to_decimal;
use infocard::esc_seq::{colorize, contains_reset, is_nested, sgr_text, EscSeq};
use infocard::general::{assemble_blocks, concat_all, generate, BlockType};
use infocard::text::repeat_text;

#[test]
fn colorize_wraps_the_text_in_colour_and_reset() {
    assert_eq!(colorize(&EscSeq::Red, "Hello"), "\x1b[31mHello\x1b[0m");
    assert_eq!(colorize(&EscSeq::LightCyan, ""), "\x1b[96m\x1b[0m");
    assert_eq!(colorize(&EscSeq::End, "x"), "\x1b[0mx\x1b[0m");
}

#[test]
fn colorize_takes_a_raw_sequence_as_it_stands() {
    let token = EscSeq::Raw("\x1b[38;5;208m".to_string());
    assert_eq!(colorize(&token, "orange"), "\x1b[38;5;208morange\x1b[0m");
}

#[test]
fn every_named_colour_has_its_code() {
    let named = [
        (EscSeq::Black, 30u128),
        (EscSeq::Red, 31),
        (EscSeq::Green, 32),
        (EscSeq::Yellow, 33),
        (EscSeq::Blue, 34),
        (EscSeq::Magenta, 35),
        (EscSeq::Cyan, 36),
        (EscSeq::White, 37),
        (EscSeq::LightBlack, 90),
        (EscSeq::LightRed, 91),
        (EscSeq::LightGreen, 92),
        (EscSeq::LightYellow, 93),
        (EscSeq::LightBlue, 94),
        (EscSeq::LightMagenta, 95),
        (EscSeq::LightCyan, 96),
        (EscSeq::LightWhite, 97),
    ];
    for (token, code) in named.iter() {
        assert_eq!(token.sgr_code(), *code);
        assert_eq!(token.to_escape(), format!("\x1b[{}m", code));
    }
    assert_eq!(EscSeq::End.to_escape(), "\x1b[0m");
}

#[test]
fn coloured_text_ends_with_its_only_reset() {
    let out = colorize(&EscSeq::Green, "plain text");
    assert!(!is_nested(&EscSeq::Green, "plain text"));
    assert!(out.ends_with("\x1b[0m"));
    assert_eq!(out.matches("\x1b[0m").count(), 1);
}

#[test]
fn nested_colouring_is_flagged() {
    let inner = colorize(&EscSeq::Red, "inner");
    assert!(is_nested(&EscSeq::Blue, &inner));
    assert!(is_nested(&EscSeq::End, "text"));
    assert!(is_nested(&EscSeq::Raw("\x1b[".to_string()), "0m text"));
    assert!(!is_nested(&EscSeq::Blue, "\x1b[0"));
}

#[test]
fn contains_reset_finds_the_sequence() {
    assert!(contains_reset("\x1b[0m"));
    assert!(contains_reset("ab\x1b[0mcd"));
    assert!(!contains_reset(""));
    assert!(!contains_reset("\x1b[0"));
    assert!(!contains_reset("\x1b[1m [0m"));
}

#[test]
fn a_palette_has_nine_cells() {
    for padding in [0u8, 1, 3, 255] {
        assert_eq!(generate(BlockType::Normal, padding).len(), 9);
        assert_eq!(generate(BlockType::Light, padding).len(), 9);
    }
}

#[test]
fn the_plain_palette_starts_at_forty() {
    let row = generate(BlockType::Normal, 2);
    let expected: Vec<String> = (0..9).map(|i| format!("\x1b[4{}m  \x1b[0m", i)).collect();
    assert_eq!(row, expected);
}

#[test]
fn the_light_palette_starts_at_one_hundred() {
    let row = generate(BlockType::Light, 3);
    let expected: Vec<String> = (0..9).map(|i| format!("\x1b[10{}m   \x1b[0m", i)).collect();
    assert_eq!(row, expected);
}

#[test]
fn the_two_palettes_share_no_colour() {
    let plain = generate(BlockType::Normal, 1);
    let light = generate(BlockType::Light, 1);
    for cell in &plain {
        assert!(!light.contains(cell));
    }
}

#[test]
fn padding_zero_leaves_no_blank() {
    assert_eq!(generate(BlockType::Normal, 0)[8], "\x1b[48m\x1b[0m");
}

#[test]
fn a_block_line_is_the_cells_in_a_row() {
    let line = assemble_blocks(BlockType::Normal, 1);
    assert_eq!(line, generate(BlockType::Normal, 1).concat());
    assert_eq!(
        line,
        "\x1b[40m \x1b[0m\x1b[41m \x1b[0m\x1b[42m \x1b[0m\x1b[43m \x1b[0m\x1b[44m \x1b[0m\x1b[45m \x1b[0m\x1b[46m \x1b[0m\x1b[47m \x1b[0m\x1b[48m \x1b[0m"
    );
}

#[test]
fn concat_all_joins_without_separator() {
    assert_eq!(concat_all(&vec!["ab".to_string(), "".to_string(), "c".to_string()]), "abc");
    assert_eq!(concat_all(&Vec::new()), "");
}

#[test]
fn decimal_text_of_numbers() {
    assert_eq!(to_decimal(0), "0");
    assert_eq!(to_decimal(7), "7");
    assert_eq!(to_decimal(10), "10");
    assert_eq!(to_decimal(1234567890), "1234567890");
    assert_eq!(to_decimal(u128::MAX), u128::MAX.to_string());
}

#[test]
fn sgr_text_is_the_rendition_sequence() {
    assert_eq!(sgr_text(0), "\x1b[0m");
    assert_eq!(sgr_text(108), "\x1b[108m");
}

#[test]
fn repeat_text_repeats() {
    assert_eq!(repeat_text("-=", 3), "-=-=-=");
    assert_eq!(repeat_text("x", 0), "");
    assert_eq!(repeat_text("", 5), "");
}
