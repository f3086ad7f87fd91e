use lang_rs::definitions::{emit_rows, group_cells, DefinitionTable, WordCell, WordDefinitions};
use lang_rs::user_error::ErrorKind;

fn texts(values: &[&str]) -> Vec<String> {
    values.iter().map(|value| value.to_string()).collect()
}

fn rows_of(values: &[[&str; 2]]) -> Vec<Vec<String>> {
    values.iter().map(|row| texts(row)).collect()
}

fn source(text: &str) -> WordCell {
    WordCell { text: text.to_string(), target: false }
}

fn target(text: &str) -> WordCell {
    WordCell { text: text.to_string(), target: true }
}

const TABLE: &str = "<table class=\"WRD\">\
<tr class=\"langHeader\">\
<td class=\"FrWrd\"><span class=\"ph\" data-ph=\"sLang_en\">English</span></td>\
<td></td>\
<td class=\"ToWrd\"><span class=\"ph\" data-ph=\"sLang_fr\">French</span></td>\
</tr>\
<tr>\
<td class=\"FrWrd\"><strong>dog</strong> <em class=\"POS2\" data-lang=\"en\">n</em></td>\
<td>animal</td>\
<td class=\"ToWrd\">chien <em class=\"POS2\" data-lang=\"fr\">nm</em></td>\
</tr>\
<tr>\
<td>&nbsp;</td><td></td>\
<td class=\"ToWrd\">toutou <em class=\"POS2\" data-lang=\"fr\">nm</em></td>\
</tr>\
</table>";

#[test]
fn source_with_two_targets_gives_two_rows() {
    let cells = vec![source("dog"), target("chien"), target("toutou")];
    let groups = group_cells(&cells).unwrap();
    assert_eq!(groups.len(), 1);
    assert_eq!(groups[0].source, "dog");
    assert_eq!(groups[0].targets, texts(&["chien", "toutou"]));
    let rows = emit_rows(&groups);
    assert_eq!(rows, rows_of(&[["dog", "chien"], ["", "toutou"]]));
}

#[test]
fn rows_share_a_blank_first_column() {
    let cells = vec![source(""), target("chien"), target("toutou")];
    let rows = emit_rows(&group_cells(&cells).unwrap());
    assert_eq!(rows.len(), 2);
    assert_eq!(rows[0][0], rows[1][0]);
    assert_eq!(rows, rows_of(&[["", "chien"], ["", "toutou"]]));
}

#[test]
fn first_row_becomes_the_header() {
    let cells = vec![
        source("English"),
        target("French"),
        source("dog"),
        target("chien"),
        target("toutou"),
        source("cat"),
        target("chat"),
    ];
    let table = DefinitionTable::from_cells(&cells, "french").unwrap();
    assert_eq!(table.header, texts(&["English", "French"]));
    assert_eq!(
        table.definitions,
        rows_of(&[["dog", "chien"], ["", "toutou"], ["cat", "chat"]])
    );
}

#[test]
fn source_without_target_gives_no_row() {
    let cells = vec![source("English"), source("dog"), target("chien"), source("cat")];
    let groups = group_cells(&cells).unwrap();
    assert_eq!(groups.len(), 3);
    assert!(groups[0].targets.is_empty());
    let table = DefinitionTable::from_cells(&cells, "french").unwrap();
    assert_eq!(table.header, texts(&["dog", "chien"]));
    assert!(table.definitions.is_empty());
}

#[test]
fn target_before_any_source_is_malformed() {
    let cells = vec![target("chien"), source("dog"), target("chien")];
    assert!(group_cells(&cells).is_none());
    let error = DefinitionTable::from_cells(&cells, "french").unwrap_err();
    assert_eq!(error.kind, ErrorKind::MalformedMarkup);
    assert_eq!(
        error.message,
        "Translations to 'french' could not be found for the word. \
         Please double check your spelling"
    );
}

#[test]
fn no_cells_give_an_empty_table() {
    let table = DefinitionTable::from_cells(&Vec::new(), "french").unwrap();
    assert!(table.header.is_empty());
    assert!(table.definitions.is_empty());
    let table = DefinitionTable::from_rows(&Vec::new());
    assert!(table.header.is_empty());
    assert!(table.definitions.is_empty());
}

#[test]
fn splits_header_from_rows() {
    let rows = rows_of(&[["a", "b"], ["c", "d"], ["", "e"]]);
    let table = DefinitionTable::from_rows(&rows);
    assert_eq!(table.header, texts(&["a", "b"]));
    assert_eq!(table.definitions, rows_of(&[["c", "d"], ["", "e"]]));
    let copy = table.duplicate();
    assert_eq!(copy.header, table.header);
    assert_eq!(copy.definitions, table.definitions);
}

#[test]
fn empty_definitions_hold_nothing() {
    let empty = WordDefinitions::empty();
    assert_eq!(empty.title, "");
    assert!(empty.definitions.is_empty());
    assert!(!WordDefinitions::holds_rows(&empty.definitions));
}

#[test]
fn builds_the_marker_selector() {
    assert_eq!(
        WordDefinitions::marker_query("french"),
        "em[data-lang=\"fr\"], span[data-ph=\"sLang_fr\"]"
    );
    assert_eq!(
        WordDefinitions::marker_query("bogus"),
        "em[data-lang=\"\"], span[data-ph=\"sLang_\"]"
    );
}

#[test]
fn reads_a_cell_from_markup() {
    let marker = "em[data-lang=\"fr\"], span[data-ph=\"sLang_fr\"]";
    let cell = WordDefinitions::read_cell(
        "<td class=\"ToWrd\">chien <em class=\"POS2\" data-lang=\"fr\">nm</em></td>",
        marker,
    )
    .unwrap();
    assert_eq!(cell.text, "chien nm");
    assert!(cell.target);
    let cell = WordDefinitions::read_cell(
        "<td class=\"FrWrd\"><strong>dog</strong> <em data-lang=\"en\">n</em></td>",
        marker,
    )
    .unwrap();
    assert_eq!(cell.text, "dog n");
    assert!(!cell.target);
    assert!(WordDefinitions::read_cell("<td>dog</td>", "em[").is_none());
}

#[test]
fn extracts_a_table_from_markup() {
    let table =
        WordDefinitions::extract_definitions_from_table(TABLE, "french".to_string()).unwrap();
    assert_eq!(table.header, texts(&["English", "French"]));
    assert_eq!(table.definitions, rows_of(&[["dog n", "chien nm"], ["", "toutou nm"]]));
}

#[test]
fn table_that_starts_with_a_target_is_rejected() {
    let table = "<table class=\"WRD\"><tr>\
                 <td class=\"ToWrd\">chien <em data-lang=\"fr\">nm</em></td></tr></table>";
    let error =
        WordDefinitions::extract_definitions_from_table(table, "french".to_string()).unwrap_err();
    assert_eq!(error.kind, ErrorKind::MalformedMarkup);
    let tables = vec![TABLE.to_string(), table.to_string()];
    assert!(WordDefinitions::extract_definitions_from_tables(&tables, "french".to_string())
        .is_empty());
}

#[test]
fn extracts_every_table() {
    let tables = vec![TABLE.to_string(), TABLE.to_string()];
    let found = WordDefinitions::extract_definitions_from_tables(&tables, "french".to_string());
    assert_eq!(found.len(), 2);
    assert_eq!(found[1].header, texts(&["English", "French"]));
    assert!(WordDefinitions::holds_rows(&found));
    assert!(WordDefinitions::extract_definitions_from_tables(&Vec::new(), "french".to_string())
        .is_empty());
}

#[test]
fn reads_definitions_from_a_page() {
    let page = format!("<html><body><p>dog</p>{}{}</body></html>", TABLE, TABLE);
    let found = WordDefinitions::get_definition_tables(
        "french".to_string(),
        "english".to_string(),
        "dog".to_string(),
        &page,
    )
    .unwrap();
    assert_eq!(found.title, "Translate 'dog' to french");
    assert_eq!(found.definitions.len(), 2);
    assert_eq!(found.definitions[0].header, texts(&["English", "French"]));
    assert_eq!(
        found.definitions[0].definitions,
        rows_of(&[["dog n", "chien nm"], ["", "toutou nm"]])
    );
    let copy = found.duplicate();
    assert_eq!(copy.title, found.title);
    assert_eq!(copy.definitions.len(), 2);
}

#[test]
fn scrapes_the_markup_of_the_tables() {
    let page = format!("<html><body>{}</body></html>", TABLE);
    let tables = WordDefinitions::scrape_definition_tables(
        "dog".to_string(),
        "english".to_string(),
        "french".to_string(),
        &page,
    )
    .unwrap();
    assert_eq!(tables.len(), 1);
    assert!(tables[0].starts_with("<table class=\"WRD\">"));
    assert!(tables[0].contains("toutou"));
}

#[test]
fn page_without_source_cells_is_not_found() {
    let page = "<html><body><table class=\"WRD\"><tr><td>dog</td></tr></table></body></html>";
    let error = WordDefinitions::get_definition_tables(
        "french".to_string(),
        "english".to_string(),
        "dgo".to_string(),
        page,
    )
    .unwrap_err();
    assert_eq!(error.kind, ErrorKind::NotFound);
    assert_eq!(
        error.message,
        "The word 'dgo' does not exist in the selected language (english). \
         Please double check your spelling"
    );
}

#[test]
fn page_without_tables_is_not_found_for_words() {
    let error = WordDefinitions::get_definition_tables(
        "english".to_string(),
        "french".to_string(),
        "chein".to_string(),
        "<html><body><p>nothing</p></body></html>",
    )
    .unwrap_err();
    assert_eq!(error.kind, ErrorKind::NotFound);
    assert_eq!(
        error.message,
        "The word 'chein' does not exist in the selected language (french). \
         Please double check your spelling"
    );
}

#[test]
fn page_with_a_malformed_table_is_not_found() {
    let bad = "<table class=\"WRD\"><tr>\
               <td class=\"ToWrd\">chien <em data-lang=\"fr\">nm</em></td></tr></table>";
    let page = format!("<html><body>{}{}</body></html>", TABLE, bad);
    let error = WordDefinitions::get_definition_tables(
        "french".to_string(),
        "english".to_string(),
        "dog".to_string(),
        &page,
    )
    .unwrap_err();
    assert_eq!(error.kind, ErrorKind::NotFound);
}

#[test]
fn markup_keeps_the_attributes_in_source_order() {
    let page = format!("<html><body>{}</body></html>", TABLE);
    let first = WordDefinitions::scrape_definition_tables(
        "dog".to_string(),
        "english".to_string(),
        "french".to_string(),
        &page,
    )
    .unwrap();
    assert!(first[0].contains("<span class=\"ph\" data-ph=\"sLang_en\">English</span>"));
    assert!(first[0].contains("<em class=\"POS2\" data-lang=\"fr\">nm</em>"));
    for _ in 0..50 {
        let again = WordDefinitions::scrape_definition_tables(
            "dog".to_string(),
            "english".to_string(),
            "french".to_string(),
            &page,
        )
        .unwrap();
        assert_eq!(again, first);
    }
}
