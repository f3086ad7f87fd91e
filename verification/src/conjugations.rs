use crate::markup::{
    document_element_texts, document_elements, fragment_cell_texts, select_cells_in_fragment,
    select_in_document, select_texts_in_document,
};
use crate::text::{concat_texts, concatenated, copy_rows, trim, trimmed};
use crate::user_error::{verb_not_found_error, viewed, UserError, UserErrorView};
use vstd::prelude::*;
use vstd::string::*;

verus! {

/// One tense of a verb: its label and the rows of pronoun and form.
#[derive(Clone, Debug)]
pub struct ConjugationTable {
    pub tense: String,
    pub conjugations: Vec<Vec<String>>,
}

/// What a `ConjugationTable` holds, as plain values.
#[verifier::ext_equal]
pub struct ConjugationTableView {
    pub tense: Seq<char>,
    pub conjugations: Seq<Seq<Seq<char>>>,
}

impl DeepView for ConjugationTable {
    type V = ConjugationTableView;

    open spec fn deep_view(&self) -> ConjugationTableView {
        ConjugationTableView {
            tense: self.tense@,
            conjugations: self.conjugations.deep_view(),
        }
    }
}

impl View for ConjugationTable {
    type V = ConjugationTableView;

    open spec fn view(&self) -> ConjugationTableView {
        self.deep_view()
    }
}

/// The number of rows that the cells of a table give: one for every two cells
/// behind the label.
pub open spec fn pair_count(cells: Seq<Seq<char>>) -> nat {
    if cells.len() == 0 {
        0
    } else {
        ((cells.len() - 1) / 2) as nat
    }
}

/// The cells behind the label, two by two; a last cell without a partner is
/// left out.
pub open spec fn paired(cells: Seq<Seq<char>>) -> Seq<Seq<Seq<char>>> {
    Seq::new(pair_count(cells), |i: int| seq![cells[2 * i + 1], cells[2 * i + 2]])
}

/// The table that a flat sequence of cells stands for: the first cell is the
/// label of the tense, the others are pronoun and form in turn.
pub open spec fn conjugation_table(cells: Seq<Seq<char>>) -> ConjugationTableView {
    ConjugationTableView { tense: cells[0], conjugations: paired(cells) }
}

impl ConjugationTable {
    /// Builds the table of one tense from its cells in document order.
    pub fn new(cell_values: Vec<String>) -> (table: ConjugationTable)
        requires
            cell_values.len() > 0,
        ensures
            table@ == conjugation_table(cell_values.deep_view()),
    {
        let n = cell_values.len();
        let mut conjugations: Vec<Vec<String>> = Vec::new();
        let mut i: usize = 1;
        while n - i > 1
            invariant
                n == cell_values.len(),
                1 <= i <= n,
                i == 2 * conjugations.len() + 1,
                forall|k: int|
                    0 <= k < conjugations.len() ==> (#[trigger] conjugations[k]).deep_view()
                        == seq![cell_values[2 * k + 1]@, cell_values[2 * k + 2]@],
            decreases n - i,
        {
            let mut row: Vec<String> = Vec::new();
            row.push(cell_values[i].clone());
            row.push(cell_values[i + 1].clone());
            assert(row.deep_view() =~= seq![cell_values[i as int]@, cell_values[i + 1]@]);
            conjugations.push(row);
            i = i + 2;
        }
        let tense = cell_values[0].clone();
        let table = ConjugationTable { tense, conjugations };
        proof {
            let cells = cell_values.deep_view();
            assert(table.conjugations.deep_view() =~= paired(cells));
        }
        table
    }

    /// A copy of the table.
    pub fn duplicate(&self) -> (copy: ConjugationTable)
        ensures
            copy@ == self@,
    {
        ConjugationTable { tense: self.tense.clone(), conjugations: copy_rows(&self.conjugations) }
    }

    /// A copy of the rows of the table.
    pub fn conjugations_as_strings(&self) -> (rows: Vec<Vec<String>>)
        ensures
            rows.deep_view() == self@.conjugations,
    {
        copy_rows(&self.conjugations)
    }
}

/// Every row of a table built from cells is a pair, and there is one row for
/// every two cells behind the label.
pub proof fn lemma_rows_are_pairs(cells: Seq<Seq<char>>)
    requires
        cells.len() > 0,
    ensures
        conjugation_table(cells).tense == cells[0],
        conjugation_table(cells).conjugations.len() == (cells.len() - 1) / 2,
        forall|i: int|
            0 <= i < (cells.len() - 1) / 2 ==> {
                let row = #[trigger] conjugation_table(cells).conjugations[i];
                row.len() == 2 && row[0] == cells[2 * i + 1] && row[1] == cells[2 * i + 2]
            },
{
}

/// A last cell that has no partner changes nothing: the table is that of the
/// cells without it.
pub proof fn lemma_unpaired_cell_dropped(cells: Seq<Seq<char>>)
    requires
        cells.len() >= 2,
        cells.len() % 2 == 0,
    ensures
        conjugation_table(cells) == conjugation_table(cells.drop_last()),
{
    let shorter = cells.drop_last();
    assert(pair_count(cells) == pair_count(shorter));
    assert(paired(cells) =~= paired(shorter));
}

/// The conjugations of one verb: its infinitive and one table for each tense.
/// With no infinitive and no table it stands for "nothing looked up yet".
#[derive(Clone, Debug)]
pub struct VerbConjugations {
    pub verb: String,
    pub conjugation_tables: Vec<ConjugationTable>,
}

/// What a `VerbConjugations` holds, as plain values.
#[verifier::ext_equal]
pub struct VerbConjugationsView {
    pub verb: Seq<char>,
    pub conjugation_tables: Seq<ConjugationTableView>,
}

impl DeepView for VerbConjugations {
    type V = VerbConjugationsView;

    open spec fn deep_view(&self) -> VerbConjugationsView {
        VerbConjugationsView {
            verb: self.verb@,
            conjugation_tables: self.conjugation_tables.deep_view(),
        }
    }
}

impl View for VerbConjugations {
    type V = VerbConjugationsView;

    open spec fn view(&self) -> VerbConjugationsView {
        self.deep_view()
    }
}

/// The selector of the cell that holds the infinitive.
pub open spec fn infinitive_selector() -> Seq<char> {
    "#conjtable td:nth-child(2)"@
}

/// The selector of the tables of conjugations.
pub open spec fn tense_selector() -> Seq<char> {
    "table.neoConj"@
}

/// The selector of the rows of a table.
pub open spec fn row_selector() -> Seq<char> {
    "tr"@
}

/// The selector of the cells of a row.
pub open spec fn cell_selector() -> Seq<char> {
    "td, th"@
}

/// The text of a cell: its text nodes one after another, without the white
/// space around them.
pub open spec fn cell_text(nodes: Seq<Seq<char>>) -> Seq<char> {
    trimmed(concatenated(nodes))
}

/// The texts of the cells of one row.
pub open spec fn row_cells(row: Seq<Seq<Seq<char>>>) -> Seq<Seq<char>> {
    Seq::new(row.len(), |i: int| cell_text(row[i]))
}

/// The texts of all cells of a table, row after row.
pub open spec fn table_cells(rows: Seq<Seq<Seq<Seq<char>>>>) -> Seq<Seq<char>>
    decreases rows.len(),
{
    if rows.len() == 0 {
        Seq::empty()
    } else {
        table_cells(rows.drop_last()) + row_cells(rows.last())
    }
}

/// The infinitive that the page gives: the first text node of the first cell
/// found, without the white space around it. There is none where no cell was
/// found, where the cell holds no text, or where nothing but white space
/// stands in it.
pub open spec fn infinitive(cells: Option<Seq<Seq<Seq<char>>>>) -> Option<Seq<char>> {
    if cells is Some && cells->0.len() > 0 && cells->0[0].len() > 0 && trimmed(
        cells->0[0][0],
    ).len() > 0 {
        Some(trimmed(cells->0[0][0]))
    } else {
        None
    }
}

/// The table of one tense, from the text nodes of its cells. There is none
/// where the cells could not be selected or the table has no cell.
pub open spec fn tense_table(rows: Option<Seq<Seq<Seq<Seq<char>>>>>) -> Option<
    ConjugationTableView,
> {
    if rows is Some && table_cells(rows->0).len() > 0 {
        Some(conjugation_table(table_cells(rows->0)))
    } else {
        None
    }
}

/// The table that a fragment of markup stands for.
pub open spec fn fragment_table(fragment: Seq<char>) -> Option<ConjugationTableView> {
    tense_table(fragment_cell_texts(fragment, row_selector(), cell_selector()))
}

/// The fragments of markup that hold the tenses of a page. There are none
/// where the page names no infinitive or holds no table.
pub open spec fn page_fragments(document: Seq<char>) -> Option<Seq<Seq<char>>> {
    let fragments = document_elements(document, tense_selector());
    if infinitive(document_element_texts(document, infinitive_selector())) is Some
        && fragments is Some && fragments->0.len() > 0 {
        fragments
    } else {
        None
    }
}

/// What a page of conjugations gives for a verb: the infinitive the page
/// names and one table for each tense, or the error that the verb does not
/// exist, where the page names no infinitive, holds no table, or holds a
/// table without cells.
pub open spec fn page_conjugations(
    verb: Seq<char>,
    language: Seq<char>,
    document: Seq<char>,
) -> Result<VerbConjugationsView, UserErrorView> {
    let fragments = page_fragments(document);
    if fragments is Some && (forall|i: int|
        0 <= i < fragments->0.len() ==> fragment_table(#[trigger] fragments->0[i]) is Some) {
        Ok(
            VerbConjugationsView {
                verb: infinitive(document_element_texts(document, infinitive_selector()))->0,
                conjugation_tables: Seq::new(
                    fragments->0.len(),
                    |i: int| fragment_table(fragments->0[i])->0,
                ),
            },
        )
    } else {
        Err(verb_not_found_error(verb, language))
    }
}

/// The texts of the cells of a table, row after row, from the text nodes of
/// each cell.
pub fn flatten_cells(rows: &Vec<Vec<Vec<String>>>) -> (cells: Vec<String>)
    ensures
        cells.deep_view() == table_cells(rows.deep_view()),
{
    let mut cells: Vec<String> = Vec::new();
    let mut r: usize = 0;
    while r < rows.len()
        invariant
            r <= rows.len(),
            cells.deep_view() == table_cells(rows.deep_view().take(r as int)),
        decreases rows.len() - r,
    {
        let row = &rows[r];
        let ghost before = cells.deep_view();
        let mut c: usize = 0;
        while c < row.len()
            invariant
                c <= row.len(),
                cells.len() == before.len() + c,
                forall|k: int| 0 <= k < before.len() ==> cells[k]@ == before[k],
                forall|k: int|
                    0 <= k < c ==> (#[trigger] cells[before.len() + k])@ == cell_text(
                        row[k].deep_view(),
                    ),
            decreases row.len() - c,
        {
            let joined = concat_texts(&row[c]);
            cells.push(trim(joined.as_str()));
            c = c + 1;
        }
        proof {
            let all = rows.deep_view();
            assert(all.take(r + 1).drop_last() =~= all.take(r as int));
            assert(all.take(r + 1).last() == row.deep_view());
            assert forall|k: int| 0 <= k < row.len() implies row_cells(row.deep_view())[k]
                == cell_text(row[k].deep_view()) by {
                assert(row.deep_view()[k] == row[k].deep_view());
            }
            assert forall|k: int| before.len() <= k < cells.len() implies cells.deep_view()[k]
                == row_cells(row.deep_view())[k - before.len()] by {
                assert(cells[before.len() + (k - before.len())]@ == cell_text(
                    row[k - before.len()].deep_view(),
                ));
            }
            assert(cells.deep_view() =~= before + row_cells(row.deep_view()));
        }
        r = r + 1;
    }
    proof {
        assert(rows.deep_view().take(r as int) =~= rows.deep_view());
    }
    cells
}

impl VerbConjugations {
    /// The conjugations that stand for "nothing looked up yet".
    pub fn new() -> (fresh: VerbConjugations)
        ensures
            fresh@.verb.len() == 0,
            fresh@.conjugation_tables.len() == 0,
    {
        let fresh = VerbConjugations { verb: String::new(), conjugation_tables: Vec::new() };
        assert(fresh.conjugation_tables.deep_view() =~= Seq::empty());
        fresh
    }

    /// The conjugations that stand for "nothing looked up yet".
    pub fn empty() -> (fresh: VerbConjugations)
        ensures
            fresh@.verb.len() == 0,
            fresh@.conjugation_tables.len() == 0,
    {
        VerbConjugations::new()
    }

    /// A copy of the conjugations.
    pub fn duplicate(&self) -> (copy: VerbConjugations)
        ensures
            copy@ == self@,
    {
        let mut tables: Vec<ConjugationTable> = Vec::new();
        let mut i: usize = 0;
        while i < self.conjugation_tables.len()
            invariant
                i <= self.conjugation_tables.len(),
                tables.len() == i,
                forall|k: int| 0 <= k < i ==> (#[trigger] tables[k])@ == self.conjugation_tables[k]@,
            decreases self.conjugation_tables.len() - i,
        {
            tables.push(self.conjugation_tables[i].duplicate());
            i = i + 1;
        }
        assert(tables.deep_view() =~= self.conjugation_tables.deep_view());
        VerbConjugations { verb: self.verb.clone(), conjugation_tables: tables }
    }

    /// The infinitive among the text nodes of the cells that were selected
    /// for it.
    pub fn infinitive_of(cells: &Option<Vec<Vec<String>>>) -> (found: Option<String>)
        ensures
            found.deep_view() == infinitive(cells.deep_view()),
    {
        match cells {
            Some(cells) => {
                if cells.len() == 0 || cells[0].len() == 0 {
                    return None;
                }
                assert(cells.deep_view()[0] == cells[0].deep_view());
                assert(cells[0].deep_view()[0] == cells[0][0]@);
                let name = trim(cells[0][0].as_str());
                if name.as_str().unicode_len() == 0 {
                    None
                } else {
                    Some(name)
                }
            },
            None => None,
        }
    }

    /// Adds the table of one tense from the text nodes of its cells. Returns
    /// whether a table was added; none is where the cells could not be
    /// selected or the table has no cell.
    pub fn push_table(&mut self, rows: &Option<Vec<Vec<Vec<String>>>>) -> (added: bool)
        ensures
            added == tense_table(rows.deep_view()) is Some,
            added ==> final(self)@ == (VerbConjugationsView {
                verb: old(self)@.verb,
                conjugation_tables: old(self)@.conjugation_tables.push(
                    tense_table(rows.deep_view())->0,
                ),
            }),
            !added ==> *final(self) == *old(self),
    {
        match rows {
            Some(rows) => {
                let cells = flatten_cells(rows);
                if cells.len() == 0 {
                    return false;
                }
                let table = ConjugationTable::new(cells);
                self.conjugation_tables.push(table);
                assert(self.conjugation_tables.deep_view() =~= old(
                    self,
                ).conjugation_tables.deep_view().push(table@));
                true
            },
            None => false,
        }
    }

    /// Reads the infinitive of the page into `self` and returns the markup of
    /// its tables, one for each tense. Fails, and leaves `self` as it was,
    /// where the page names no infinitive or holds no table.
    pub fn scrape_conjugation_tables(&mut self, verb: &str, language: &str, document: &str) -> (tables:
        Result<Vec<String>, UserError>)
        ensures
            match tables {
                Ok(fragments) => {
                    &&& page_fragments(document@) == Some(fragments.deep_view())
                    &&& final(self)@.verb == infinitive(
                        document_element_texts(document@, infinitive_selector()),
                    )->0
                    &&& final(self).conjugation_tables == old(self).conjugation_tables
                },
                Err(error) => {
                    &&& page_fragments(document@) is None
                    &&& error@ == verb_not_found_error(verb@, language@)
                    &&& *final(self) == *old(self)
                },
            },
    {
        let cells = select_texts_in_document(document, "#conjtable td:nth-child(2)");
        let name = match VerbConjugations::infinitive_of(&cells) {
            Some(name) => name,
            None => {
                return Err(UserError::verb_not_found(verb, language));
            },
        };
        match select_in_document(document, "table.neoConj") {
            Some(fragments) => {
                if fragments.len() == 0 {
                    return Err(UserError::verb_not_found(verb, language));
                }
                self.verb = name;
                Ok(fragments)
            },
            None => Err(UserError::verb_not_found(verb, language)),
        }
    }

    /// Adds the table of one tense from its markup. Returns whether a table
    /// was added; none is where the markup holds no cell.
    pub fn extract_conjugations_from_table(&mut self, table: &str) -> (added: bool)
        ensures
            added == fragment_table(table@) is Some,
            added ==> final(self)@ == (VerbConjugationsView {
                verb: old(self)@.verb,
                conjugation_tables: old(self)@.conjugation_tables.push(fragment_table(table@)->0),
            }),
            !added ==> *final(self) == *old(self),
    {
        let rows = select_cells_in_fragment(table, "tr", "td, th");
        self.push_table(&rows)
    }

    /// The conjugations that a fetched page holds for a verb. A successful
    /// result names an infinitive and holds at least one table.
    pub fn get_conjugation_tables(verb: &str, language: &str, document: &str) -> (found: Result<
        VerbConjugations,
        UserError,
    >)
        ensures
            viewed(found) == page_conjugations(verb@, language@, document@),
            found is Ok ==> found->Ok_0@.verb.len() > 0 && found->Ok_0@.conjugation_tables.len()
                > 0,
    {
        let mut conjugations = VerbConjugations::new();
        let fragments = match conjugations.scrape_conjugation_tables(verb, language, document) {
            Ok(fragments) => fragments,
            Err(error) => {
                return Err(error);
            },
        };
        let ghost name = conjugations@.verb;
        let mut i: usize = 0;
        while i < fragments.len()
            invariant
                i <= fragments.len(),
                page_fragments(document@) == Some(fragments.deep_view()),
                conjugations@.verb == name,
                conjugations@.conjugation_tables.len() == i,
                forall|k: int|
                    0 <= k < i ==> fragment_table(#[trigger] fragments.deep_view()[k]) == Some(
                        conjugations@.conjugation_tables[k],
                    ),
            decreases fragments.len() - i,
        {
            assert(fragments.deep_view()[i as int] == fragments[i as int]@);
            if !conjugations.extract_conjugations_from_table(fragments[i].as_str()) {
                return Err(UserError::verb_not_found(verb, language));
            }
            i = i + 1;
        }
        proof {
            let expected = page_conjugations(verb@, language@, document@);
            assert(expected is Ok);
            assert(conjugations@.conjugation_tables =~= expected->Ok_0.conjugation_tables);
        }
        Ok(conjugations)
    }
}

/// Conjugations read from a page name a verb and hold at least one table.
pub proof fn lemma_page_conjugations_hold(
    verb: Seq<char>,
    language: Seq<char>,
    document: Seq<char>,
)
    ensures
        match page_conjugations(verb, language, document) {
            Ok(conjugations) => conjugations.verb.len() > 0
                && conjugations.conjugation_tables.len() > 0,
            Err(error) => error == verb_not_found_error(verb, language),
        },
{
}

} // verus!
