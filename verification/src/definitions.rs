use crate::markup::{
    document_elements, fragment_elements, fragment_texts, select_in_document, select_in_fragment,
    texts_of_fragment,
};
use crate::text::{concat_texts, concatenated, copy_rows, copy_texts};
use crate::user_error::{
    translation_missing_error, viewed, word_not_found_error, UserError, UserErrorView,
};
use crate::wordreference::{language_code, map_language};
use vstd::prelude::*;
use vstd::string::*;

verus! {

/// One table of the page of a word: its two column titles and its rows of
/// source word and translation.
#[derive(Clone, Debug)]
pub struct DefinitionTable {
    pub header: Vec<String>,
    pub definitions: Vec<Vec<String>>,
}

/// What a `DefinitionTable` holds, as plain values.
#[verifier::ext_equal]
pub struct DefinitionTableView {
    pub header: Seq<Seq<char>>,
    pub definitions: Seq<Seq<Seq<char>>>,
}

impl DeepView for DefinitionTable {
    type V = DefinitionTableView;

    open spec fn deep_view(&self) -> DefinitionTableView {
        DefinitionTableView {
            header: self.header.deep_view(),
            definitions: self.definitions.deep_view(),
        }
    }
}

impl View for DefinitionTable {
    type V = DefinitionTableView;

    open spec fn view(&self) -> DefinitionTableView {
        self.deep_view()
    }
}

/// The definitions of one word: a title and one table for each sense that
/// the page holds.
#[derive(Clone, Debug)]
pub struct WordDefinitions {
    pub title: String,
    pub definitions: Vec<DefinitionTable>,
}

/// What a `WordDefinitions` holds, as plain values.
#[verifier::ext_equal]
pub struct WordDefinitionsView {
    pub title: Seq<char>,
    pub definitions: Seq<DefinitionTableView>,
}

impl DeepView for WordDefinitions {
    type V = WordDefinitionsView;

    open spec fn deep_view(&self) -> WordDefinitionsView {
        WordDefinitionsView { title: self.title@, definitions: self.definitions.deep_view() }
    }
}

impl View for WordDefinitions {
    type V = WordDefinitionsView;

    open spec fn view(&self) -> WordDefinitionsView {
        self.deep_view()
    }
}

/// One cell of a table of definitions: its text, and whether it carries the
/// mark of the language translated into.
#[derive(Clone, Debug)]
pub struct WordCell {
    pub text: String,
    pub target: bool,
}

/// What a `WordCell` holds, as plain values.
pub struct WordCellView {
    pub text: Seq<char>,
    pub target: bool,
}

impl DeepView for WordCell {
    type V = WordCellView;

    open spec fn deep_view(&self) -> WordCellView {
        WordCellView { text: self.text@, target: self.target }
    }
}

impl View for WordCell {
    type V = WordCellView;

    open spec fn view(&self) -> WordCellView {
        self.deep_view()
    }
}

/// A source word with the translations that follow it.
#[derive(Clone, Debug)]
pub struct WordGroup {
    pub source: String,
    pub targets: Vec<String>,
}

/// What a `WordGroup` holds, as plain values.
#[verifier::ext_equal]
pub struct WordGroupView {
    pub source: Seq<char>,
    pub targets: Seq<Seq<char>>,
}

impl DeepView for WordGroup {
    type V = WordGroupView;

    open spec fn deep_view(&self) -> WordGroupView {
        WordGroupView { source: self.source@, targets: self.targets.deep_view() }
    }
}

impl View for WordGroup {
    type V = WordGroupView;

    open spec fn view(&self) -> WordGroupView {
        self.deep_view()
    }
}

/// The cells in groups: a source cell opens a group, a target cell joins the
/// group that is open. There is no grouping where a target cell comes before
/// any source cell.
pub open spec fn grouped(cells: Seq<WordCellView>) -> Option<Seq<WordGroupView>>
    decreases cells.len(),
{
    if cells.len() == 0 {
        Some(Seq::empty())
    } else {
        let before = grouped(cells.drop_last());
        let cell = cells.last();
        if before is None {
            None
        } else if !cell.target {
            Some(before->0.push(WordGroupView { source: cell.text, targets: Seq::empty() }))
        } else if before->0.len() == 0 {
            None
        } else {
            let open = before->0.last();
            Some(
                before->0.drop_last().push(
                    WordGroupView { source: open.source, targets: open.targets.push(cell.text) },
                ),
            )
        }
    }
}

/// The rows that one group gives: one for each of its translations, with the
/// translation in the second column. The first column holds the source word
/// in the first row and is blank in the others.
pub open spec fn group_rows(group: WordGroupView) -> Seq<Seq<Seq<char>>> {
    Seq::new(
        group.targets.len(),
        |j: int|
            seq![
                if j == 0 {
                    group.source
                } else {
                    Seq::empty()
                },
                group.targets[j],
            ],
    )
}

/// The rows of all groups, group after group.
pub open spec fn emitted_rows(groups: Seq<WordGroupView>) -> Seq<Seq<Seq<char>>>
    decreases groups.len(),
{
    if groups.len() == 0 {
        Seq::empty()
    } else {
        emitted_rows(groups.drop_last()) + group_rows(groups.last())
    }
}

/// The table that the rows stand for: the first row gives the column titles,
/// the others are the data. Without rows the table is empty.
pub open spec fn table_of_rows(rows: Seq<Seq<Seq<char>>>) -> DefinitionTableView {
    if rows.len() == 0 {
        DefinitionTableView { header: Seq::empty(), definitions: Seq::empty() }
    } else {
        DefinitionTableView { header: rows[0], definitions: rows.subrange(1, rows.len() as int) }
    }
}

/// The table that the cells of one table of the page stand for, or the error
/// that no translation was found, where a target cell comes before any source
/// cell.
pub open spec fn cells_table(cells: Seq<WordCellView>, to_language: Seq<char>) -> Result<
    DefinitionTableView,
    UserErrorView,
> {
    if grouped(cells) is Some {
        Ok(table_of_rows(emitted_rows(grouped(cells)->0)))
    } else {
        Err(translation_missing_error(to_language))
    }
}

/// Puts the cells into groups of a source word and its translations.
pub fn group_cells(cells: &Vec<WordCell>) -> (groups: Option<Vec<WordGroup>>)
    ensures
        groups.deep_view() == grouped(cells.deep_view()),
{
    let mut groups: Vec<WordGroup> = Vec::new();
    let mut i: usize = 0;
    assert(cells.deep_view().take(0) =~= Seq::empty());
    assert(groups.deep_view() =~= Seq::empty());
    while i < cells.len()
        invariant
            i <= cells.len(),
            grouped(cells.deep_view().take(i as int)) == Some(groups.deep_view()),
        decreases cells.len() - i,
    {
        let ghost all = cells.deep_view();
        let ghost before = groups.deep_view();
        proof {
            assert(all.take(i + 1).drop_last() =~= all.take(i as int));
            assert(all.take(i + 1).last() == cells[i as int]@);
        }
        if !cells[i].target {
            let group = WordGroup { source: cells[i].text.clone(), targets: Vec::new() };
            assert(group.targets.deep_view() =~= Seq::empty());
            groups.push(group);
            assert(groups.deep_view() =~= before.push(group@));
        } else {
            match groups.pop() {
                Some(open) => {
                    let mut open = open;
                    let ghost earlier = open@;
                    assert(earlier == before.last());
                    assert(groups.deep_view() =~= before.drop_last());
                    open.targets.push(cells[i].text.clone());
                    assert(open.targets.deep_view() =~= earlier.targets.push(cells[i as int].text@));
                    groups.push(open);
                    assert(groups.deep_view() =~= before.drop_last().push(open@));
                },
                None => {
                    proof {
                        lemma_grouping_stays_lost(all, i + 1);
                    }
                    return None;
                },
            }
        }
        i = i + 1;
    }
    proof {
        assert(cells.deep_view().take(i as int) =~= cells.deep_view());
    }
    Some(groups)
}

/// Cells that cannot be grouped up to some place cannot be grouped at all.
pub proof fn lemma_grouping_stays_lost(cells: Seq<WordCellView>, i: int)
    requires
        0 <= i <= cells.len(),
        grouped(cells.take(i)) is None,
    ensures
        grouped(cells) is None,
    decreases cells.len() - i,
{
    if i == cells.len() {
        assert(cells.take(i) =~= cells);
    } else {
        assert(cells.take(i + 1).drop_last() =~= cells.take(i));
        lemma_grouping_stays_lost(cells, i + 1);
    }
}

/// Writes out the rows of the groups: for each translation of a group a row
/// of two cells.
pub fn emit_rows(groups: &Vec<WordGroup>) -> (rows: Vec<Vec<String>>)
    ensures
        rows.deep_view() == emitted_rows(groups.deep_view()),
{
    let mut table_cells: Vec<Vec<String>> = Vec::new();
    let mut g: usize = 0;
    assert(groups.deep_view().take(0) =~= Seq::empty());
    assert(table_cells.deep_view() =~= Seq::empty());
    while g < groups.len()
        invariant
            g <= groups.len(),
            table_cells.deep_view() == emitted_rows(groups.deep_view().take(g as int)),
        decreases groups.len() - g,
    {
        let group = &groups[g];
        let ghost before = table_cells.deep_view();
        let mut table_text: Vec<String> = Vec::new();
        table_text.push(group.source.clone());
        let mut t: usize = 0;
        while t < group.targets.len()
            invariant
                t <= group.targets.len(),
                table_text.len() == 1,
                table_text[0]@ == if t == 0 {
                    group.source@
                } else {
                    Seq::<char>::empty()
                },
                table_cells.len() == before.len() + t,
                forall|k: int| 0 <= k < before.len() ==> table_cells[k].deep_view() == before[k],
                forall|k: int|
                    0 <= k < t ==> (#[trigger] table_cells[before.len() + k]).deep_view()
                        == group_rows(group@)[k],
            decreases group.targets.len() - t,
        {
            table_text.push(group.targets[t].clone());
            proof {
                assert(group@.targets[t as int] == group.targets[t as int]@);
                assert(table_text.deep_view() =~= group_rows(group@)[t as int]);
            }
            if table_text.len() == 2 {
                table_cells.push(table_text);
                table_text = Vec::new();
            }
            table_text.push(String::new());
            t = t + 1;
        }
        proof {
            let all = groups.deep_view();
            assert(all.take(g + 1).drop_last() =~= all.take(g as int));
            assert(all.take(g + 1).last() == group@);
            assert forall|k: int| before.len() <= k < table_cells.len() implies table_cells.deep_view()[k]
                == group_rows(group@)[k - before.len()] by {
                assert(table_cells[before.len() + (k - before.len())].deep_view() == group_rows(
                    group@,
                )[k - before.len()]);
            }
            assert(table_cells.deep_view() =~= before + group_rows(group@));
        }
        g = g + 1;
    }
    proof {
        assert(groups.deep_view().take(g as int) =~= groups.deep_view());
    }
    table_cells
}

impl DefinitionTable {
    /// Whether the table holds anything at all.
    pub open spec fn has_rows(table: DefinitionTableView) -> bool {
        table.header.len() > 0
    }

    /// A copy of the table.
    pub fn duplicate(&self) -> (copy: DefinitionTable)
        ensures
            copy@ == self@,
    {
        DefinitionTable {
            header: copy_texts(&self.header),
            definitions: copy_rows(&self.definitions),
        }
    }

    /// The table that the rows stand for: the first row becomes the column
    /// titles and is taken out of the data.
    pub fn from_rows(rows: &Vec<Vec<String>>) -> (table: DefinitionTable)
        ensures
            table@ == table_of_rows(rows.deep_view()),
    {
        let mut definitions: Vec<Vec<String>> = Vec::new();
        if rows.len() == 0 {
            let table = DefinitionTable { header: Vec::new(), definitions };
            assert(table.header.deep_view() =~= Seq::empty());
            assert(table.definitions.deep_view() =~= Seq::empty());
            return table;
        }
        let header = copy_texts(&rows[0]);
        let mut i: usize = 1;
        while i < rows.len()
            invariant
                1 <= i <= rows.len(),
                definitions.len() == i - 1,
                forall|k: int|
                    0 <= k < i - 1 ==> (#[trigger] definitions[k]).deep_view() == rows[k
                        + 1].deep_view(),
            decreases rows.len() - i,
        {
            definitions.push(copy_texts(&rows[i]));
            i = i + 1;
        }
        let table = DefinitionTable { header, definitions };
        proof {
            let all = rows.deep_view();
            assert(table.definitions.deep_view() =~= all.subrange(1, all.len() as int));
        }
        table
    }

    /// The table that the cells of one table of the page stand for. Fails
    /// where a target cell comes before any source cell.
    pub fn from_cells(cells: &Vec<WordCell>, to_language: &str) -> (table: Result<
        DefinitionTable,
        UserError,
    >)
        ensures
            viewed(table) == cells_table(cells.deep_view(), to_language@),
    {
        match group_cells(cells) {
            Some(groups) => {
                let rows = emit_rows(&groups);
                Ok(DefinitionTable::from_rows(&rows))
            },
            None => Err(UserError::translation_missing(to_language)),
        }
    }
}

/// The selector of the tables of a page of definitions.
pub open spec fn table_selector() -> Seq<char> {
    "table.WRD"@
}

/// The selector of the cells that hold a source word or a translation.
pub open spec fn word_selector() -> Seq<char> {
    "tr > td.FrWrd, tr > td.ToWrd"@
}

/// The selector of the mark that a cell of the language with this code
/// carries.
pub open spec fn marker_selector(code: Seq<char>) -> Seq<char> {
    "em[data-lang=\""@ + code + "\"], span[data-ph=\"sLang_"@ + code + "\"]"@
}

/// The title under which the definitions of a word are shown.
pub open spec fn definitions_title(word: Seq<char>, to_language: Seq<char>) -> Seq<char> {
    "Translate '"@ + word + "' to "@ + to_language
}

/// The cell that the markup of one word stands for: its text nodes one after
/// another, and whether the mark is found in it. There is none where the
/// selector of the mark is not accepted.
pub open spec fn word_cell(fragment: Seq<char>, marker: Seq<char>) -> Option<WordCellView> {
    let marks = fragment_elements(fragment, marker);
    if marks is Some {
        Some(
            WordCellView {
                text: concatenated(fragment_texts(fragment)),
                target: marks->0.len() > 0,
            },
        )
    } else {
        None
    }
}

/// The cells of one table of the page, in document order. There are none
/// where a selector is not accepted.
pub open spec fn fragment_cells(table: Seq<char>, marker: Seq<char>) -> Option<
    Seq<WordCellView>,
> {
    let words = fragment_elements(table, word_selector());
    if words is Some && (forall|i: int|
        0 <= i < words->0.len() ==> word_cell(#[trigger] words->0[i], marker) is Some) {
        Some(Seq::new(words->0.len(), |i: int| word_cell(words->0[i], marker)->0))
    } else {
        None
    }
}

/// The table that the markup of one table of the page stands for, or the
/// error that no translation was found.
pub open spec fn fragment_definitions(table: Seq<char>, to_language: Seq<char>) -> Result<
    DefinitionTableView,
    UserErrorView,
> {
    let cells = fragment_cells(table, marker_selector(language_code(to_language)));
    if cells is Some {
        cells_table(cells->0, to_language)
    } else {
        Err(translation_missing_error(to_language))
    }
}

/// The tables that the markup of the tables of a page stands for: one for
/// each, or none at all where one of them fails.
pub open spec fn tables_definitions(tables: Seq<Seq<char>>, to_language: Seq<char>) -> Seq<
    DefinitionTableView,
> {
    if forall|i: int|
        0 <= i < tables.len() ==> fragment_definitions(#[trigger] tables[i], to_language) is Ok {
        Seq::new(tables.len(), |i: int| fragment_definitions(tables[i], to_language)->Ok_0)
    } else {
        Seq::empty()
    }
}

/// Whether one of the tables holds a row.
pub open spec fn any_rows(tables: Seq<DefinitionTableView>) -> bool {
    exists|i: int| 0 <= i < tables.len() && DefinitionTable::has_rows(#[trigger] tables[i])
}

/// What a page of definitions gives for a word: a title and the tables of the
/// page, or the error that the word does not exist, where the page holds no
/// table, one of its tables fails, or none of them holds a row.
pub open spec fn page_definitions(
    word: Seq<char>,
    from_language: Seq<char>,
    to_language: Seq<char>,
    document: Seq<char>,
) -> Result<WordDefinitionsView, UserErrorView> {
    let tables = document_elements(document, table_selector());
    if tables is Some && any_rows(tables_definitions(tables->0, to_language)) {
        Ok(
            WordDefinitionsView {
                title: definitions_title(word, to_language),
                definitions: tables_definitions(tables->0, to_language),
            },
        )
    } else {
        Err(word_not_found_error(word, from_language))
    }
}

impl WordDefinitions {
    /// The definitions that stand for "nothing looked up yet".
    pub fn empty() -> (fresh: WordDefinitions)
        ensures
            fresh@.title.len() == 0,
            fresh@.definitions.len() == 0,
    {
        let fresh = WordDefinitions { title: String::new(), definitions: Vec::new() };
        assert(fresh.definitions.deep_view() =~= Seq::empty());
        fresh
    }

    /// A copy of the definitions.
    pub fn duplicate(&self) -> (copy: WordDefinitions)
        ensures
            copy@ == self@,
    {
        let mut tables: Vec<DefinitionTable> = Vec::new();
        let mut i: usize = 0;
        while i < self.definitions.len()
            invariant
                i <= self.definitions.len(),
                tables.len() == i,
                forall|k: int| 0 <= k < i ==> (#[trigger] tables[k])@ == self.definitions[k]@,
            decreases self.definitions.len() - i,
        {
            tables.push(self.definitions[i].duplicate());
            i = i + 1;
        }
        assert(tables.deep_view() =~= self.definitions.deep_view());
        WordDefinitions { title: self.title.clone(), definitions: tables }
    }

    /// The selector of the mark that cells of the language carry.
    pub fn marker_query(to_language: &str) -> (query: String)
        ensures
            query@ == marker_selector(language_code(to_language@)),
    {
        let code = map_language(to_language.to_owned());
        let mut query = "em[data-lang=\"".to_owned();
        query.append(code.as_str());
        query.append("\"], span[data-ph=\"sLang_");
        query.append(code.as_str());
        query.append("\"]");
        query
    }

    /// Reads one cell from the markup of a word.
    pub fn read_cell(word: &str, marker: &str) -> (cell: Option<WordCell>)
        ensures
            cell.deep_view() == word_cell(word@, marker@),
    {
        match select_in_fragment(word, marker) {
            Some(marks) => {
                let nodes = texts_of_fragment(word);
                Some(WordCell { text: concat_texts(&nodes), target: marks.len() > 0 })
            },
            None => None,
        }
    }

    /// Whether one of the tables holds a row.
    pub fn holds_rows(definitions: &Vec<DefinitionTable>) -> (yes: bool)
        ensures
            yes == any_rows(definitions.deep_view()),
    {
        let mut i: usize = 0;
        while i < definitions.len()
            invariant
                i <= definitions.len(),
                forall|k: int|
                    0 <= k < i ==> !DefinitionTable::has_rows(#[trigger] definitions.deep_view()[k]),
            decreases definitions.len() - i,
        {
            assert(definitions.deep_view()[i as int] == definitions[i as int]@);
            if definitions[i].header.len() > 0 {
                return true;
            }
            i = i + 1;
        }
        false
    }

    /// The table that the markup of one table of the page stands for.
    pub fn extract_definitions_from_table(table: &str, to_language: String) -> (found: Result<
        DefinitionTable,
        UserError,
    >)
        ensures
            viewed(found) == fragment_definitions(table@, to_language@),
    {
        let marker = WordDefinitions::marker_query(to_language.as_str());
        let words = match select_in_fragment(table, "tr > td.FrWrd, tr > td.ToWrd") {
            Some(words) => words,
            None => {
                return Err(UserError::translation_missing(to_language.as_str()));
            },
        };
        let mut cells: Vec<WordCell> = Vec::new();
        let mut i: usize = 0;
        while i < words.len()
            invariant
                i <= words.len(),
                fragment_elements(table@, word_selector()) == Some(words.deep_view()),
                marker@ == marker_selector(language_code(to_language@)),
                cells.len() == i,
                forall|k: int|
                    0 <= k < i ==> word_cell(#[trigger] words.deep_view()[k], marker@) == Some(
                        cells[k]@,
                    ),
            decreases words.len() - i,
        {
            assert(words.deep_view()[i as int] == words[i as int]@);
            match WordDefinitions::read_cell(words[i].as_str(), marker.as_str()) {
                Some(cell) => {
                    cells.push(cell);
                },
                None => {
                    return Err(UserError::translation_missing(to_language.as_str()));
                },
            }
            i = i + 1;
        }
        proof {
            let expected = fragment_cells(table@, marker@);
            assert(expected is Some);
            assert(cells.deep_view() =~= expected->0);
        }
        DefinitionTable::from_cells(&cells, to_language.as_str())
    }

    /// The tables that the markup of the tables of a page stands for; none at
    /// all where one of them fails.
    pub fn extract_definitions_from_tables(tables: &Vec<String>, to_language: String) -> (found:
        Vec<DefinitionTable>)
        ensures
            found.deep_view() == tables_definitions(tables.deep_view(), to_language@),
    {
        let mut definitions: Vec<DefinitionTable> = Vec::new();
        let mut i: usize = 0;
        while i < tables.len()
            invariant
                i <= tables.len(),
                definitions.len() == i,
                forall|k: int|
                    0 <= k < i ==> fragment_definitions(
                        #[trigger] tables.deep_view()[k],
                        to_language@,
                    ) == Ok::<DefinitionTableView, UserErrorView>(definitions[k]@),
            decreases tables.len() - i,
        {
            assert(tables.deep_view()[i as int] == tables[i as int]@);
            match WordDefinitions::extract_definitions_from_table(
                tables[i].as_str(),
                to_language.clone(),
            ) {
                Ok(table) => {
                    definitions.push(table);
                },
                Err(_) => {
                    let none: Vec<DefinitionTable> = Vec::new();
                    assert(none.deep_view() =~= Seq::empty());
                    return none;
                },
            }
            i = i + 1;
        }
        assert(definitions.deep_view() =~= tables_definitions(tables.deep_view(), to_language@));
        definitions
    }

    /// The markup of the tables of a fetched page of definitions.
    pub fn scrape_definition_tables(
        word: String,
        from_language: String,
        to_language: String,
        document: &str,
    ) -> (tables: Result<Vec<String>, UserError>)
        ensures
            match tables {
                Ok(fragments) => document_elements(document@, table_selector()) == Some(
                    fragments.deep_view(),
                ),
                Err(error) => document_elements(document@, table_selector()) is None && error@
                    == word_not_found_error(word@, from_language@),
            },
    {
        match select_in_document(document, "table.WRD") {
            Some(fragments) => Ok(fragments),
            None => Err(UserError::word_not_found(word.as_str(), from_language.as_str())),
        }
    }

    /// The definitions that a fetched page holds for a word. A successful
    /// result holds at least one row.
    pub fn get_definition_tables(
        to_language: String,
        from_language: String,
        word: String,
        document: &str,
    ) -> (found: Result<WordDefinitions, UserError>)
        ensures
            viewed(found) == page_definitions(word@, from_language@, to_language@, document@),
            found is Ok ==> any_rows(found->Ok_0@.definitions),
    {
        let tables = match WordDefinitions::scrape_definition_tables(
            word.clone(),
            from_language.clone(),
            to_language.clone(),
            document,
        ) {
            Ok(tables) => tables,
            Err(error) => {
                return Err(error);
            },
        };
        let definitions = WordDefinitions::extract_definitions_from_tables(
            &tables,
            to_language.clone(),
        );
        if !WordDefinitions::holds_rows(&definitions) {
            return Err(UserError::word_not_found(word.as_str(), from_language.as_str()));
        }
        let mut title = "Translate '".to_owned();
        title.append(word.as_str());
        title.append("' to ");
        title.append(to_language.as_str());
        Ok(WordDefinitions { title, definitions })
    }
}

/// A table whose first cell is a translation cannot be grouped.
pub proof fn lemma_target_first_is_lost(cells: Seq<WordCellView>)
    requires
        cells.len() > 0,
        cells[0].target,
    ensures
        grouped(cells) is None,
{
    assert(cells.take(1).drop_last() =~= Seq::<WordCellView>::empty());
    assert(cells.take(1).last() == cells[0]);
    assert(grouped(cells.take(1)) is None) by {
        reveal_with_fuel(grouped, 2);
    }
    lemma_grouping_stays_lost(cells, 1);
}

/// Cells without a source cell give no row: either there is no cell and the
/// table is empty, or the first cell is a translation and the table fails.
pub proof fn lemma_no_source_no_rows(cells: Seq<WordCellView>, to_language: Seq<char>)
    requires
        forall|k: int| 0 <= k < cells.len() ==> (#[trigger] cells[k]).target,
    ensures
        match cells_table(cells, to_language) {
            Ok(table) => cells.len() == 0 && !DefinitionTable::has_rows(table),
            Err(error) => cells.len() > 0 && error == translation_missing_error(to_language),
        },
{
    if cells.len() > 0 {
        lemma_target_first_is_lost(cells);
    }
}

/// A page in which no cell of any table is a source cell gives the error that
/// the word does not exist.
pub proof fn lemma_no_source_cell_not_found(
    word: Seq<char>,
    from_language: Seq<char>,
    to_language: Seq<char>,
    document: Seq<char>,
)
    requires
        ({
            let tables = document_elements(document, table_selector());
            let marker = marker_selector(language_code(to_language));
            tables is Some ==> forall|i: int, k: int|
                #![trigger fragment_cells(tables->0[i], marker)->0[k]]
                0 <= i < tables->0.len() && fragment_cells(tables->0[i], marker) is Some && 0 <= k
                    < fragment_cells(tables->0[i], marker)->0.len() ==> fragment_cells(
                    tables->0[i],
                    marker,
                )->0[k].target
        }),
    ensures
        page_definitions(word, from_language, to_language, document) == Err::<
            WordDefinitionsView,
            UserErrorView,
        >(word_not_found_error(word, from_language)),
{
    let tables = document_elements(document, table_selector());
    let marker = marker_selector(language_code(to_language));
    if tables is Some {
        let found = tables_definitions(tables->0, to_language);
        assert forall|i: int| 0 <= i < found.len() implies !DefinitionTable::has_rows(
            #[trigger] found[i],
        ) by {
            let cells = fragment_cells(tables->0[i], marker);
            assert(fragment_definitions(tables->0[i], to_language) is Ok);
            assert(cells is Some);
            assert forall|k: int| 0 <= k < cells->0.len() implies (#[trigger] cells->0[k]).target by {
                assert(fragment_cells(tables->0[i], marker)->0[k].target);
            }
            lemma_no_source_no_rows(cells->0, to_language);
        }
    }
}

/// A source cell followed by two translations gives two rows of two cells.
/// The first holds the source word and the first translation, the second a
/// blank and the second translation: the rows share their first column only
/// where the source word is blank. The first row becomes the column titles.
pub proof fn lemma_source_with_two_targets(
    source: Seq<char>,
    first: Seq<char>,
    second: Seq<char>,
    to_language: Seq<char>,
)
    ensures
        ({
            let cells = seq![
                WordCellView { text: source, target: false },
                WordCellView { text: first, target: true },
                WordCellView { text: second, target: true },
            ];
            let rows = emitted_rows(grouped(cells)->0);
            &&& grouped(cells) is Some
            &&& rows == seq![seq![source, first], seq![Seq::<char>::empty(), second]]
            &&& (rows[0][0] == rows[1][0] <==> source.len() == 0)
            &&& cells_table(cells, to_language) == Ok::<DefinitionTableView, UserErrorView>(
                DefinitionTableView {
                    header: seq![source, first],
                    definitions: seq![seq![Seq::<char>::empty(), second]],
                },
            )
        }),
{
    let c0 = WordCellView { text: source, target: false };
    let c1 = WordCellView { text: first, target: true };
    let c2 = WordCellView { text: second, target: true };
    let cells = seq![c0, c1, c2];
    let one = seq![c0];
    let two = seq![c0, c1];
    let none = Seq::<Seq<char>>::empty();
    assert(one.drop_last() =~= Seq::<WordCellView>::empty());
    assert(two.drop_last() =~= one);
    assert(cells.drop_last() =~= two);
    let g0 = WordGroupView { source, targets: none };
    let g1 = WordGroupView { source, targets: none.push(first) };
    let g2 = WordGroupView { source, targets: none.push(first).push(second) };
    assert(grouped(Seq::<WordCellView>::empty()) == Some(Seq::<WordGroupView>::empty()));
    assert(grouped(one) == Some(Seq::<WordGroupView>::empty().push(g0)));
    assert(Seq::<WordGroupView>::empty().push(g0).drop_last() =~= Seq::<WordGroupView>::empty());
    assert(grouped(two) == Some(Seq::<WordGroupView>::empty().push(g1)));
    assert(Seq::<WordGroupView>::empty().push(g1).drop_last() =~= Seq::<WordGroupView>::empty());
    assert(grouped(cells) == Some(Seq::<WordGroupView>::empty().push(g2)));
    let groups = Seq::<WordGroupView>::empty().push(g2);
    assert(groups.drop_last() =~= Seq::<WordGroupView>::empty());
    assert(emitted_rows(groups.drop_last()) =~= Seq::<Seq<Seq<char>>>::empty());
    let rows = emitted_rows(groups);
    assert(rows =~= group_rows(g2));
    assert(group_rows(g2)[0] =~= seq![source, first]);
    assert(group_rows(g2)[1] =~= seq![Seq::<char>::empty(), second]);
    assert(rows =~= seq![seq![source, first], seq![Seq::<char>::empty(), second]]);
    assert(rows.subrange(1, 2) =~= seq![seq![Seq::<char>::empty(), second]]);
    assert(rows[0][0] == source);
    assert(rows[1][0] == Seq::<char>::empty());
    if source.len() == 0 {
        assert(source =~= Seq::<char>::empty());
    }
}

/// The row that the target cell at place `k` gives: its own text in the
/// second column, and in the first the text of the cell before it where that
/// is a source cell, a blank where it is another translation.
pub open spec fn target_row(cells: Seq<WordCellView>, k: int) -> Seq<Seq<char>> {
    seq![
        if !cells[k - 1].target {
            cells[k - 1].text
        } else {
            Seq::empty()
        },
        cells[k].text,
    ]
}

/// The rows of a table, said without groups: one row for each target cell,
/// in the order of the cells.
pub open spec fn rows_of_cells(cells: Seq<WordCellView>) -> Seq<Seq<Seq<char>>>
    decreases cells.len(),
{
    if cells.len() == 0 {
        Seq::empty()
    } else if cells.last().target {
        rows_of_cells(cells.drop_last()).push(target_row(cells, cells.len() - 1))
    } else {
        rows_of_cells(cells.drop_last())
    }
}

/// Cells can be grouped exactly where there is none or the first is a source
/// cell.
pub proof fn lemma_grouped_iff_source_first(cells: Seq<WordCellView>)
    ensures
        grouped(cells) is Some <==> (cells.len() == 0 || !cells[0].target),
        grouped(cells) is Some && cells.len() > 0 ==> grouped(cells)->0.len() > 0,
    decreases cells.len(),
{
    if cells.len() > 0 {
        if cells[0].target {
            lemma_target_first_is_lost(cells);
        } else {
            let prefix = cells.drop_last();
            lemma_grouped_iff_source_first(prefix);
            if prefix.len() > 0 {
                assert(prefix[0] == cells[0]);
            }
        }
    }
}

/// The rows that the groups give are those of the target cells: each target
/// cell gives one row, with the source word before it in the first column
/// where it follows the source cell at once, and a blank there otherwise.
pub proof fn lemma_rows_follow_targets(cells: Seq<WordCellView>)
    requires
        grouped(cells) is Some,
    ensures
        emitted_rows(grouped(cells)->0) == rows_of_cells(cells),
        cells.len() > 0 ==> grouped(cells)->0.len() > 0,
        cells.len() > 0 ==> (grouped(cells)->0.last().targets.len() == 0 <==> !cells.last().target),
        cells.len() > 0 && !cells.last().target ==> grouped(cells)->0.last().source
            == cells.last().text,
    decreases cells.len(),
{
    if cells.len() > 0 {
        let prefix = cells.drop_last();
        let before = grouped(prefix)->0;
        lemma_rows_follow_targets(prefix);
        let cell = cells.last();
        let groups = grouped(cells)->0;
        if !cell.target {
            let fresh = WordGroupView { source: cell.text, targets: Seq::empty() };
            assert(groups == before.push(fresh));
            assert(groups.drop_last() =~= before);
            assert(group_rows(fresh) =~= Seq::<Seq<Seq<char>>>::empty());
            assert(emitted_rows(groups) =~= emitted_rows(before));
        } else {
            let open = before.last();
            let grown = WordGroupView {
                source: open.source,
                targets: open.targets.push(cell.text),
            };
            assert(prefix.len() > 0);
            assert(prefix.last() == cells[cells.len() - 2]);
            assert(groups == before.drop_last().push(grown));
            assert(groups.drop_last() =~= before.drop_last());
            assert(group_rows(grown) =~= group_rows(open).push(
                target_row(cells, cells.len() - 1),
            ));
            assert(emitted_rows(groups) =~= emitted_rows(before).push(
                target_row(cells, cells.len() - 1),
            ));
        }
    }
}

/// The table of cells that start with a source cell, said without groups:
/// the rows of the target cells, the first of them as the column titles.
pub proof fn lemma_table_of_target_rows(cells: Seq<WordCellView>, to_language: Seq<char>)
    ensures
        cells_table(cells, to_language) == if cells.len() == 0 || !cells[0].target {
            Ok::<DefinitionTableView, UserErrorView>(table_of_rows(rows_of_cells(cells)))
        } else {
            Err::<DefinitionTableView, UserErrorView>(translation_missing_error(to_language))
        },
{
    lemma_grouped_iff_source_first(cells);
    if grouped(cells) is Some {
        lemma_rows_follow_targets(cells);
    }
}

} // verus!
