use lang_rs::text::{
    concat_texts, copy_rows, copy_texts, leading_word, remove_spaces, rest_after_word, trim,
};

#[test]
fn trims_white_space_on_both_sides() {
    assert_eq!(trim("  parler \n"), "parler");
    assert_eq!(trim("\tse lever"), "se lever");
    assert_eq!(trim("je"), "je");
}

#[test]
fn trims_blank_text_to_nothing() {
    assert_eq!(trim(""), "");
    assert_eq!(trim(" \t\n "), "");
}

#[test]
fn trims_unicode_white_space_like_std() {
    let text = "\u{a0}\u{2003}été\u{3000}";
    assert_eq!(trim(text), "été");
    assert_eq!(trim(text), text.trim());
}

#[test]
fn keeps_inner_white_space_when_trimming() {
    assert_eq!(trim("  il  a  "), "il  a");
}

#[test]
fn concatenates_parts_in_order() {
    let parts = vec!["dog".to_string(), " ".to_string(), "n".to_string()];
    assert_eq!(concat_texts(&parts), "dog n");
    assert_eq!(concat_texts(&Vec::new()), "");
}

#[test]
fn splits_off_the_first_word() {
    assert_eq!(leading_word("conj parler"), "conj");
    assert_eq!(rest_after_word("conj parler"), "parler");
    assert_eq!(leading_word("help"), "help");
    assert_eq!(rest_after_word("help"), "");
}

#[test]
fn first_word_ends_at_the_first_space_only() {
    assert_eq!(leading_word(" conj parler"), "");
    assert_eq!(rest_after_word(" conj parler"), "conj parler");
    assert_eq!(rest_after_word("def  pomme de terre"), " pomme de terre");
    assert_eq!(leading_word("conj\tparler"), "conj\tparler");
    assert_eq!(leading_word(""), "");
    assert_eq!(rest_after_word(""), "");
}

#[test]
fn removes_every_space() {
    assert_eq!(remove_spaces("fren ch"), "french");
    assert_eq!(remove_spaces("  "), "");
    assert_eq!(remove_spaces("été a"), "étéa");
}

#[test]
fn copies_texts_and_rows() {
    let texts = vec!["je".to_string(), "mange".to_string()];
    assert_eq!(copy_texts(&texts), texts);
    let rows = vec![texts.clone(), vec!["tu".to_string(), "manges".to_string()], Vec::new()];
    assert_eq!(copy_rows(&rows), rows);
}

fn is_listed_white_space(c: char) -> bool {
    matches!(
        c as u32,
        0x09..=0x0d
            | 0x20
            | 0x85
            | 0xa0
            | 0x1680
            | 0x2000..=0x200a
            | 0x2028
            | 0x2029
            | 0x202f
            | 0x205f
            | 0x3000
    )
}

#[test]
fn white_space_is_exactly_the_listed_characters() {
    let mut count = 0;
    for code in 0..=0x10ffff_u32 {
        if let Some(c) = char::from_u32(code) {
            let alone = c.to_string();
            let trimmed_away = trim(&alone).is_empty();
            assert_eq!(trimmed_away, is_listed_white_space(c), "character {:#x}", code);
            if trimmed_away {
                count += 1;
            }
        }
    }
    assert_eq!(count, 25);
}
