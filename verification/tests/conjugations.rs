use lang_rs::conjugations::{flatten_cells, ConjugationTable, VerbConjugations};
use lang_rs::user_error::ErrorKind;

fn texts(values: &[&str]) -> Vec<String> {
    values.iter().map(|value| value.to_string()).collect()
}

fn rows_of(values: &[[&str; 2]]) -> Vec<Vec<String>> {
    values.iter().map(|row| texts(row)).collect()
}

const PAGE: &str = "<html><body>\
<table id=\"conjtable\"><tr><td>infinitif</td><td> parler </td></tr></table>\
<table class=\"neoConj\">\
<tr><th>pr\u{e9}sent</th></tr>\
<tr><th> je </th><td><b>parl</b>e</td></tr>\
<tr><th>tu</th><td>parles</td></tr>\
</table>\
<table class=\"neoConj\">\
<tr><th>imparfait</th></tr>\
<tr><th>je</th><td>parlais</td></tr>\
<tr><th>tu</th></tr>\
</table>\
</body></html>";

#[test]
fn pairs_cells_behind_the_tense() {
    let table = ConjugationTable::new(texts(&["Present", "je", "mange", "tu", "manges"]));
    assert_eq!(table.tense, "Present");
    assert_eq!(table.conjugations, rows_of(&[["je", "mange"], ["tu", "manges"]]));
}

#[test]
fn drops_a_trailing_cell_without_partner() {
    let table = ConjugationTable::new(texts(&["Present", "je", "mange", "tu", "manges", "il"]));
    assert_eq!(table.tense, "Present");
    assert_eq!(table.conjugations, rows_of(&[["je", "mange"], ["tu", "manges"]]));
}

#[test]
fn table_of_a_lone_tense_has_no_rows() {
    let table = ConjugationTable::new(texts(&["Present"]));
    assert_eq!(table.tense, "Present");
    assert!(table.conjugations.is_empty());
    let table = ConjugationTable::new(texts(&["Present", "je"]));
    assert!(table.conjugations.is_empty());
}

#[test]
fn copies_conjugations_as_strings() {
    let table = ConjugationTable::new(texts(&["Present", "je", "mange", "tu", "manges"]));
    assert_eq!(table.conjugations_as_strings(), table.conjugations);
    let copy = table.duplicate();
    assert_eq!(copy.tense, "Present");
    assert_eq!(copy.conjugations, table.conjugations);
}

#[test]
fn empty_conjugations_hold_nothing() {
    let empty = VerbConjugations::empty();
    assert_eq!(empty.verb, "");
    assert!(empty.conjugation_tables.is_empty());
    let fresh = VerbConjugations::new();
    assert_eq!(fresh.verb, "");
    assert!(fresh.conjugation_tables.is_empty());
}

#[test]
fn flattens_rows_and_trims_cells() {
    let rows = vec![
        vec![texts(&[" Present "])],
        vec![texts(&["je"]), texts(&["man", "ge "])],
        Vec::new(),
        vec![texts(&[]), texts(&["\n"])],
    ];
    assert_eq!(flatten_cells(&rows), texts(&["Present", "je", "mange", "", ""]));
    assert!(flatten_cells(&Vec::new()).is_empty());
}

#[test]
fn takes_infinitive_from_first_text_of_first_cell() {
    let cells = Some(vec![texts(&[" parler ", "ignored"]), texts(&["other"])]);
    assert_eq!(VerbConjugations::infinitive_of(&cells), Some("parler".to_string()));
}

#[test]
fn finds_no_infinitive_without_text() {
    assert_eq!(VerbConjugations::infinitive_of(&None), None);
    assert_eq!(VerbConjugations::infinitive_of(&Some(Vec::new())), None);
    assert_eq!(VerbConjugations::infinitive_of(&Some(vec![Vec::new(), texts(&["parler"])])), None);
    assert_eq!(VerbConjugations::infinitive_of(&Some(vec![texts(&["  ", "parler"])])), None);
}

#[test]
fn pushes_table_from_cell_texts() {
    let mut conjugations = VerbConjugations::new();
    let rows = Some(vec![vec![texts(&["Present"])], vec![texts(&["je"]), texts(&["mange"])]]);
    assert!(conjugations.push_table(&rows));
    assert_eq!(conjugations.conjugation_tables.len(), 1);
    assert_eq!(conjugations.conjugation_tables[0].tense, "Present");
    assert_eq!(conjugations.conjugation_tables[0].conjugations, rows_of(&[["je", "mange"]]));
    assert!(!conjugations.push_table(&None));
    assert!(!conjugations.push_table(&Some(Vec::new())));
    assert!(!conjugations.push_table(&Some(vec![Vec::new()])));
    assert_eq!(conjugations.conjugation_tables.len(), 1);
}

#[test]
fn reads_conjugations_from_a_page() {
    let found = VerbConjugations::get_conjugation_tables("parle", "french", PAGE).unwrap();
    assert_eq!(found.verb, "parler");
    assert_eq!(found.conjugation_tables.len(), 2);
    assert_eq!(found.conjugation_tables[0].tense, "pr\u{e9}sent");
    assert_eq!(
        found.conjugation_tables[0].conjugations,
        rows_of(&[["je", "parle"], ["tu", "parles"]])
    );
    assert_eq!(found.conjugation_tables[1].tense, "imparfait");
    assert_eq!(found.conjugation_tables[1].conjugations, rows_of(&[["je", "parlais"]]));
}

#[test]
fn scrapes_infinitive_and_table_markup() {
    let mut conjugations = VerbConjugations::new();
    let tables = conjugations.scrape_conjugation_tables("parle", "french", PAGE).unwrap();
    assert_eq!(conjugations.verb, "parler");
    assert_eq!(tables.len(), 2);
    assert!(tables[0].starts_with("<table class=\"neoConj\">"));
    assert!(tables[1].contains("imparfait"));
    assert!(conjugations.extract_conjugations_from_table(&tables[1]));
    assert_eq!(conjugations.conjugation_tables.len(), 1);
    assert_eq!(conjugations.conjugation_tables[0].tense, "imparfait");
    assert!(!conjugations.extract_conjugations_from_table("<p>no table</p>"));
    assert_eq!(conjugations.conjugation_tables.len(), 1);
}

#[test]
fn page_without_tables_is_not_found() {
    let page = "<table id=\"conjtable\"><tr><td>infinitif</td><td>parler</td></tr></table>";
    let error = VerbConjugations::get_conjugation_tables("parler", "french", page).unwrap_err();
    assert_eq!(error.kind, ErrorKind::NotFound);
    assert_eq!(
        error.message,
        "The verb 'parler' does not exist in the selected language (french). \
         Please double check your spelling"
    );
}

#[test]
fn page_without_infinitive_is_not_found() {
    let page = "<table class=\"neoConj\"><tr><th>pr\u{e9}sent</th></tr></table>";
    let mut conjugations = VerbConjugations::new();
    let error = conjugations.scrape_conjugation_tables("xyz", "italian", page).unwrap_err();
    assert_eq!(error.kind, ErrorKind::NotFound);
    assert_eq!(
        error.message,
        "The verb 'xyz' does not exist in the selected language (italian). \
         Please double check your spelling"
    );
    assert_eq!(conjugations.verb, "");
    assert!(VerbConjugations::get_conjugation_tables("xyz", "italian", "").is_err());
}

#[test]
fn page_with_a_table_without_cells_is_not_found() {
    let page = "<table id=\"conjtable\"><tr><td>infinitif</td><td>parler</td></tr></table>\
                <table class=\"neoConj\"></table>";
    let error = VerbConjugations::get_conjugation_tables("parler", "french", page).unwrap_err();
    assert_eq!(error.kind, ErrorKind::NotFound);
}
