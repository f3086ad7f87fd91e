use crate::conjugations::{VerbConjugations, VerbConjugationsView};
use crate::definitions::{WordDefinitions, WordDefinitionsView};
use crate::lookup_event::{LookupEvent, LookupRequest, LookupRequestView};
use crate::text::{
    after_first_word, copy_rows, copy_texts, first_word, leading_word, lemma_word_and_body,
    lemma_no_spaces_to_remove, pop_char, push_char, remove_spaces, rest_after_word,
    without_spaces,
};
use crate::user_error::{unknown_command_message, unsupported_language_message, UserError};
use crate::wordreference::{is_supported, supported};
use vstd::arithmetic::div_mod::{lemma_mod_add_multiples_vanish, lemma_small_mod};
use vstd::prelude::*;
use vstd::string::*;

verus! {

/// The table that is on display: a title, the column titles and the rows.
#[derive(Clone, Debug)]
pub struct TableData {
    pub title: String,
    pub header: Vec<String>,
    pub items: Vec<Vec<String>>,
}

/// What a `TableData` holds, as plain values.
#[verifier::ext_equal]
pub struct TableDataView {
    pub title: Seq<char>,
    pub header: Seq<Seq<char>>,
    pub items: Seq<Seq<Seq<char>>>,
}

impl DeepView for TableData {
    type V = TableDataView;

    open spec fn deep_view(&self) -> TableDataView {
        TableDataView {
            title: self.title@,
            header: self.header.deep_view(),
            items: self.items.deep_view(),
        }
    }
}

impl View for TableData {
    type V = TableDataView;

    open spec fn view(&self) -> TableDataView {
        self.deep_view()
    }
}

/// The table that shows nothing.
pub open spec fn blank_table() -> TableDataView {
    TableDataView { title: Seq::empty(), header: Seq::empty(), items: Seq::empty() }
}

impl TableData {
    /// A table without title, column titles or rows.
    pub fn new() -> (table: TableData)
        ensures
            table@ == blank_table(),
    {
        let table = TableData { title: String::new(), header: Vec::new(), items: Vec::new() };
        assert(table.header.deep_view() =~= Seq::empty());
        assert(table.items.deep_view() =~= Seq::empty());
        table
    }
}

/// The state of the application that all of its parts share.
pub struct App {
    conjugations: VerbConjugations,
    definitions: WordDefinitions,
    table_data: TableData,
    input: String,
    current_table: usize,
    language: String,
    error: String,
    closed: bool,
    loading: bool,
    load_start: u64,
}

/// What an `App` holds, as plain values.
#[verifier::ext_equal]
pub struct AppView {
    pub conjugations: VerbConjugationsView,
    pub definitions: WordDefinitionsView,
    pub table_data: TableDataView,
    pub input: Seq<char>,
    pub current_table: nat,
    pub language: Seq<char>,
    pub error: Seq<char>,
    pub closed: bool,
    pub loading: bool,
    pub load_start: u64,
}

impl View for App {
    type V = AppView;

    closed spec fn view(&self) -> AppView {
        AppView {
            conjugations: self.conjugations@,
            definitions: self.definitions@,
            table_data: self.table_data@,
            input: self.input@,
            current_table: self.current_table as nat,
            language: self.language@,
            error: self.error@,
            closed: self.closed,
            loading: self.loading,
            load_start: self.load_start,
        }
    }
}

/// The number of tables that can be paged through: that of the conjugations
/// or that of the definitions, whichever is larger.
pub open spec fn page_count(app: AppView) -> nat {
    if app.conjugations.conjugation_tables.len() >= app.definitions.definitions.len() {
        app.conjugations.conjugation_tables.len()
    } else {
        app.definitions.definitions.len()
    }
}

/// What always holds of the state: conjugations and definitions are never
/// both there, and the page cursor points at one of the tables, or at zero
/// where there is none.
pub open spec fn well_formed(app: AppView) -> bool {
    &&& app.conjugations.conjugation_tables.len() == 0 || app.definitions.definitions.len() == 0
    &&& page_count(app) > 0 ==> app.current_table < page_count(app)
    &&& page_count(app) == 0 ==> app.current_table == 0
}

/// The state in which the application starts: french, nothing typed, nothing
/// on display.
pub open spec fn initial_app() -> AppView {
    AppView {
        conjugations: VerbConjugationsView { verb: Seq::empty(), conjugation_tables: Seq::empty() },
        definitions: WordDefinitionsView { title: Seq::empty(), definitions: Seq::empty() },
        table_data: blank_table(),
        input: Seq::empty(),
        current_table: 0,
        language: "french"@,
        error: Seq::empty(),
        closed: false,
        loading: false,
        load_start: 0,
    }
}

/// The state without its tables: no conjugations, no definitions, nothing on
/// display, the page cursor at zero.
pub open spec fn without_tables(app: AppView) -> AppView {
    AppView {
        conjugations: VerbConjugationsView { verb: Seq::empty(), conjugation_tables: Seq::empty() },
        definitions: WordDefinitionsView { title: Seq::empty(), definitions: Seq::empty() },
        table_data: blank_table(),
        current_table: 0,
        ..app
    }
}

/// The title of a table of conjugations.
pub open spec fn conjugation_title(verb: Seq<char>, tense: Seq<char>, language: Seq<char>) -> Seq<
    char,
> {
    verb + ": "@ + tense + " "@ + language
}

/// The table of conjugations at the page cursor, as it is displayed.
pub open spec fn conjugation_page(app: AppView) -> TableDataView {
    let table = app.conjugations.conjugation_tables[app.current_table as int];
    TableDataView {
        title: conjugation_title(app.conjugations.verb, table.tense, app.language),
        header: seq!["Pronouns"@, "Conjugations"@],
        items: table.conjugations,
    }
}

/// The table of definitions at the page cursor, as it is displayed.
pub open spec fn definition_page(app: AppView) -> TableDataView {
    let table = app.definitions.definitions[app.current_table as int];
    TableDataView { title: app.definitions.title, header: table.header, items: table.definitions }
}

/// The state after the table of conjugations at the page cursor was put on
/// display; nothing changes where the cursor points at none.
pub open spec fn with_conjugation_page(app: AppView) -> AppView {
    if app.current_table < app.conjugations.conjugation_tables.len() {
        AppView { table_data: conjugation_page(app), ..app }
    } else {
        app
    }
}

/// The state after the table of definitions at the page cursor was put on
/// display; nothing changes where the cursor points at none.
pub open spec fn with_definition_page(app: AppView) -> AppView {
    if app.current_table < app.definitions.definitions.len() {
        AppView { table_data: definition_page(app), ..app }
    } else {
        app
    }
}

/// The state after the table at the page cursor was put on display.
pub open spec fn with_page(app: AppView) -> AppView {
    if app.conjugations.conjugation_tables.len() > 0 {
        with_conjugation_page(app)
    } else if app.definitions.definitions.len() > 0 {
        with_definition_page(app)
    } else {
        app
    }
}

/// The state after these conjugations became the active result.
pub open spec fn showing_conjugations(app: AppView, conjugations: VerbConjugationsView) -> AppView {
    with_conjugation_page(AppView { conjugations, ..without_tables(app) })
}

/// The state after these definitions became the active result.
pub open spec fn showing_definitions(app: AppView, definitions: WordDefinitionsView) -> AppView {
    with_definition_page(AppView { definitions, ..without_tables(app) })
}

/// The state after paging forward: the cursor moves on by one and goes back
/// to the first table behind the last. Nothing changes without tables.
pub open spec fn next_page(app: AppView) -> AppView {
    if page_count(app) > 0 {
        with_page(
            AppView {
                current_table: ((app.current_table + 1) as nat) % page_count(app),
                ..app
            },
        )
    } else {
        app
    }
}

/// The state after paging backward: the cursor moves back by one and goes to
/// the last table before the first. Nothing changes without tables.
pub open spec fn previous_page(app: AppView) -> AppView {
    if page_count(app) > 0 {
        with_page(
            AppView {
                current_table: ((app.current_table + page_count(app) - 1) as nat) % page_count(
                    app,
                ),
                ..app
            },
        )
    } else {
        app
    }
}

/// The state after the command `lang` was entered: the language is what
/// stands behind the command, without its spaces, where the site serves it.
/// Where it does not, the language stays and an error tells so. The command
/// buffer is empty afterwards.
pub open spec fn language_entered(app: AppView) -> AppView {
    let language = without_spaces(after_first_word(app.input));
    if supported(language) {
        AppView { language, input: Seq::empty(), ..app }
    } else {
        AppView { error: unsupported_language_message(language), input: Seq::empty(), ..app }
    }
}

/// The table that lists the commands.
pub open spec fn help_table() -> TableDataView {
    TableDataView {
        title: "Help Table"@,
        header: seq!["command"@, "description"@],
        items: seq![
            seq!["help"@, "lists available commands"@],
            seq!["lang <language>"@, "change the currently set language"@],
            seq!["def <word>"@, "translates a word from english to the current language"@],
            seq!["trans <word>"@, "gives the definition of the word in the current language"@],
            seq!["conj <verb>"@, "conjugate a verb in the current language"@],
        ],
    }
}

/// The state after the command `help` was entered: the tables are gone, the
/// list of commands is on display and the command buffer is empty.
pub open spec fn help_entered(app: AppView) -> AppView {
    AppView { table_data: help_table(), input: Seq::empty(), ..without_tables(app) }
}

/// The state after something that is no command was entered: an error names
/// its first word and the command buffer is empty.
pub open spec fn unknown_entered(app: AppView) -> AppView {
    AppView {
        error: unknown_command_message(first_word(app.input)),
        input: Seq::empty(),
        ..app
    }
}

/// The lookup that a command of this kind asks for: of the word behind the
/// command, in the current language.
pub open spec fn request_for(app: AppView, event: LookupEvent) -> LookupRequestView {
    LookupRequestView { event, word: after_first_word(app.input), language: app.language }
}

/// The kind of lookup that the command buffer asks for, where its first word
/// is one of `conj`, `def` and `trans`.
pub open spec fn lookup_command(input: Seq<char>) -> Option<LookupEvent> {
    let name = first_word(input);
    if name == "conj"@ {
        Some(LookupEvent::Verb)
    } else if name == "def"@ {
        Some(LookupEvent::Definition)
    } else if name == "trans"@ {
        Some(LookupEvent::Translation)
    } else {
        None
    }
}

/// The state after the command buffer was entered. The error of before is
/// gone. Then `lang` sets the language, `help` shows the commands, `conj`,
/// `def` and `trans` empty the command buffer for a lookup, and anything
/// else is answered by an error.
pub open spec fn entered(app: AppView) -> AppView {
    let fresh = AppView { error: Seq::empty(), ..app };
    let name = first_word(app.input);
    if name == "lang"@ {
        language_entered(fresh)
    } else if lookup_command(app.input) is Some {
        AppView { input: Seq::empty(), ..fresh }
    } else if name == "help"@ {
        help_entered(fresh)
    } else {
        unknown_entered(fresh)
    }
}

/// The lookup that entering the command buffer asks for, where it does.
pub open spec fn entered_request(app: AppView) -> Option<LookupRequestView> {
    if first_word(app.input) != "lang"@ && lookup_command(app.input) is Some {
        Some(request_for(app, lookup_command(app.input)->0))
    } else {
        None
    }
}

/// A row of two cells.
fn pair(first: &str, second: &str) -> (row: Vec<String>)
    ensures
        row.deep_view() == seq![first@, second@],
{
    let mut row: Vec<String> = Vec::new();
    row.push(first.to_owned());
    row.push(second.to_owned());
    assert(row.deep_view() =~= seq![first@, second@]);
    row
}

impl App {
    #[verifier::type_invariant]
    spec fn inv(self) -> bool {
        well_formed(self@)
    }

    /// Does nothing; tells that the state is well formed, as it always is.
    pub fn is_well_formed(&self)
        ensures
            well_formed(self@),
    {
        proof {
            use_type_invariant(self);
        }
    }

    /// The state in which the application starts.
    pub fn new() -> (app: App)
        ensures
            app@ == initial_app(),
            well_formed(app@),
    {
        App {
            conjugations: VerbConjugations::empty(),
            definitions: WordDefinitions::empty(),
            table_data: TableData::new(),
            input: String::new(),
            current_table: 0,
            language: "french".to_owned(),
            error: String::new(),
            closed: false,
            loading: false,
            load_start: 0,
        }
    }

    /// Marks the start of a lookup at the time `now`, in milliseconds.
    pub fn start_load(&mut self, now: u64)
        ensures
            final(self)@ == (AppView { loading: true, load_start: now, ..old(self)@ }),
            well_formed(final(self)@),
    {
        proof {
            use_type_invariant(&*self);
        }
        self.loading = true;
        self.load_start = now;
    }

    /// Marks the end of a lookup.
    pub fn end_load(&mut self)
        ensures
            final(self)@ == (AppView { loading: false, ..old(self)@ }),
            well_formed(final(self)@),
    {
        proof {
            use_type_invariant(&*self);
        }
        self.loading = false;
    }

    /// Whether a lookup is under way.
    pub fn is_loading(&self) -> (loading: bool)
        ensures
            loading == self@.loading,
    {
        self.loading
    }

    /// The milliseconds that the lookup under way has taken at the time
    /// `now`; zero where `now` lies before its start.
    pub fn loaded_for(&self, now: u64) -> (elapsed: u64)
        ensures
            elapsed == if now >= self@.load_start {
                now - self@.load_start
            } else {
                0
            },
    {
        if now >= self.load_start {
            now - self.load_start
        } else {
            0
        }
    }

    /// Asks the application to end.
    pub fn close(&mut self)
        ensures
            final(self)@ == (AppView { closed: true, ..old(self)@ }),
            well_formed(final(self)@),
    {
        proof {
            use_type_invariant(&*self);
        }
        self.closed = true;
    }

    /// Whether the application was asked to end.
    pub fn is_closed(&self) -> (closed: bool)
        ensures
            closed == self@.closed,
    {
        self.closed
    }

    /// A copy of the command buffer.
    pub fn get_input(&self) -> (input: String)
        ensures
            input@ == self@.input,
    {
        self.input.clone()
    }

    /// A copy of the name of the current language.
    pub fn get_language(&self) -> (language: String)
        ensures
            language@ == self@.language,
    {
        self.language.clone()
    }

    /// A copy of the error on display; empty where there is none.
    pub fn get_error(&self) -> (error: String)
        ensures
            error@ == self@.error,
    {
        self.error.clone()
    }

    /// The place of the table on display among the tables of the result.
    pub fn get_current_table(&self) -> (index: usize)
        ensures
            index == self@.current_table,
    {
        self.current_table
    }

    /// A copy of the table on display.
    pub fn get_table_data(&self) -> (table: TableData)
        ensures
            table@ == self@.table_data,
    {
        TableData {
            title: self.table_data.title.clone(),
            header: copy_texts(&self.table_data.header),
            items: copy_rows(&self.table_data.items),
        }
    }

    /// A copy of the conjugations that are the active result; they are empty
    /// where definitions or nothing is.
    pub fn get_conjugations(&self) -> (conjugations: VerbConjugations)
        ensures
            conjugations@ == self@.conjugations,
    {
        self.conjugations.duplicate()
    }

    /// A copy of the definitions that are the active result; they are empty
    /// where conjugations or nothing is.
    pub fn get_definitions(&self) -> (definitions: WordDefinitions)
        ensures
            definitions@ == self@.definitions,
    {
        self.definitions.duplicate()
    }

    /// The number of tables that can be paged through.
    pub fn table_count(&self) -> (count: usize)
        ensures
            count == page_count(self@),
    {
        let conj_len = self.conjugations.conjugation_tables.len();
        let def_len = self.definitions.definitions.len();
        if conj_len >= def_len {
            conj_len
        } else {
            def_len
        }
    }

    /// Takes the last character off the command buffer.
    pub fn pop_char(&mut self)
        ensures
            final(self)@ == (AppView {
                input: if old(self)@.input.len() > 0 {
                    old(self)@.input.drop_last()
                } else {
                    old(self)@.input
                },
                ..old(self)@
            }),
            well_formed(final(self)@),
    {
        proof {
            use_type_invariant(&*self);
        }
        let mut input = self.input.clone();
        pop_char(&mut input);
        self.input = input;
    }

    /// Puts a character at the end of the command buffer.
    pub fn put_char(&mut self, c: char)
        ensures
            final(self)@ == (AppView { input: old(self)@.input.push(c), ..old(self)@ }),
            well_formed(final(self)@),
    {
        proof {
            use_type_invariant(&*self);
        }
        let mut input = self.input.clone();
        push_char(&mut input, c);
        self.input = input;
    }

    /// Shows the message of the error.
    pub fn set_error(&mut self, error: UserError)
        ensures
            final(self)@ == (AppView { error: error@.message, ..old(self)@ }),
            well_formed(final(self)@),
    {
        proof {
            use_type_invariant(&*self);
        }
        self.error = error.message;
    }

    /// Takes the error off the display.
    pub fn clear_error(&mut self)
        ensures
            final(self)@ == (AppView { error: Seq::empty(), ..old(self)@ }),
            well_formed(final(self)@),
    {
        proof {
            use_type_invariant(&*self);
        }
        self.error = String::new();
    }

    /// Empties the command buffer.
    pub fn clear_input(&mut self)
        ensures
            final(self)@ == (AppView { input: Seq::empty(), ..old(self)@ }),
            well_formed(final(self)@),
    {
        proof {
            use_type_invariant(&*self);
        }
        self.input = String::new();
    }

    /// Whether a table is on display.
    pub fn table_open(&self) -> (open: bool)
        ensures
            open == (self@.table_data.title.len() > 0),
    {
        self.table_data.title.as_str().unicode_len() > 0
    }

    /// Takes the result and the table off the display.
    pub fn clear_tables(&mut self)
        ensures
            final(self)@ == without_tables(old(self)@),
            well_formed(final(self)@),
    {
        proof {
            use_type_invariant(&*self);
        }
        self.current_table = 0;
        self.conjugations = VerbConjugations::empty();
        self.definitions = WordDefinitions::empty();
        self.table_data = TableData::new();
    }

    /// Puts the table of conjugations at the page cursor on display. Nothing
    /// changes where the cursor points at none.
    pub fn load_conjugation_tables(&mut self)
        ensures
            final(self)@ == with_conjugation_page(old(self)@),
            well_formed(final(self)@),
    {
        proof {
            use_type_invariant(&*self);
        }
        if self.conjugations.conjugation_tables.len() > self.current_table {
            let table = &self.conjugations.conjugation_tables[self.current_table];
            let items = table.conjugations_as_strings();
            let mut title = self.conjugations.verb.clone();
            title.append(": ");
            title.append(table.tense.as_str());
            title.append(" ");
            title.append(self.language.as_str());
            let header = pair("Pronouns", "Conjugations");
            proof {
                assert(self.conjugations.conjugation_tables.deep_view()[self.current_table as int]
                    == table@);
            }
            self.table_data = TableData { title, header, items };
        }
    }

    /// Puts the table of definitions at the page cursor on display. Nothing
    /// changes where the cursor points at none.
    pub fn load_definition_tables(&mut self)
        ensures
            final(self)@ == with_definition_page(old(self)@),
            well_formed(final(self)@),
    {
        proof {
            use_type_invariant(&*self);
        }
        if self.definitions.definitions.len() > self.current_table {
            let table = &self.definitions.definitions[self.current_table];
            let title = self.definitions.title.clone();
            let header = copy_texts(&table.header);
            let items = copy_rows(&table.definitions);
            proof {
                assert(self.definitions.definitions.deep_view()[self.current_table as int]
                    == table@);
            }
            self.table_data = TableData { title, header, items };
        }
    }

    /// Makes these conjugations the active result and shows their first
    /// table. The result of before is gone.
    pub fn set_conjugations(&mut self, conjugations: VerbConjugations)
        ensures
            final(self)@ == showing_conjugations(old(self)@, conjugations@),
            well_formed(final(self)@),
    {
        self.clear_tables();
        proof {
            use_type_invariant(&*self);
        }
        self.conjugations = conjugations;
        self.load_conjugation_tables();
    }

    /// Makes these definitions the active result and shows their first
    /// table. The result of before is gone.
    pub fn set_definitions(&mut self, definitions: WordDefinitions)
        ensures
            final(self)@ == showing_definitions(old(self)@, definitions@),
            well_formed(final(self)@),
    {
        self.clear_tables();
        proof {
            use_type_invariant(&*self);
        }
        self.definitions = definitions;
        self.load_definition_tables();
    }

    /// Shows the next table of the result, the first one behind the last.
    /// Nothing changes without tables.
    pub fn next(&mut self)
        ensures
            final(self)@ == next_page(old(self)@),
            well_formed(final(self)@),
    {
        proof {
            use_type_invariant(&*self);
        }
        let conj_len = self.conjugations.conjugation_tables.len();
        let def_len = self.definitions.definitions.len();
        let num_tables = self.table_count();
        if num_tables > 0 {
            self.current_table = (self.current_table + 1) % num_tables;
            if conj_len > 0 {
                self.load_conjugation_tables();
            } else if def_len > 0 {
                self.load_definition_tables();
            }
        }
    }

    /// Shows the table before, the last one before the first. Nothing
    /// changes without tables.
    pub fn prev(&mut self)
        ensures
            final(self)@ == previous_page(old(self)@),
            well_formed(final(self)@),
    {
        proof {
            use_type_invariant(&*self);
        }
        let conj_len = self.conjugations.conjugation_tables.len();
        let def_len = self.definitions.definitions.len();
        let num_tables = self.table_count();
        if num_tables > 0 {
            proof {
                let n = num_tables as int;
                let at = self.current_table as int;
                if at == 0 {
                    lemma_small_mod((n - 1) as nat, n as nat);
                } else {
                    lemma_mod_add_multiples_vanish(at - 1, n);
                    lemma_small_mod((at - 1) as nat, n as nat);
                }
            }
            self.current_table = if self.current_table == 0 {
                num_tables - 1
            } else {
                self.current_table - 1
            };
            if conj_len > 0 {
                self.load_conjugation_tables();
            } else if def_len > 0 {
                self.load_definition_tables();
            }
        }
    }

    /// What stands behind the first space of the command buffer.
    pub fn command_body(&self) -> (body: String)
        ensures
            body@ == after_first_word(self@.input),
    {
        rest_after_word(self.input.as_str())
    }

    /// The first word of the command buffer.
    pub fn command_name(&self) -> (name: String)
        ensures
            name@ == first_word(self@.input),
    {
        leading_word(self.input.as_str())
    }

    /// Leaves in the command buffer what stands behind its first word,
    /// without the spaces.
    pub fn remove_prefix(&mut self)
        ensures
            final(self)@ == (AppView {
                input: without_spaces(after_first_word(old(self)@.input)),
                ..old(self)@
            }),
            well_formed(final(self)@),
    {
        proof {
            use_type_invariant(&*self);
        }
        let body = rest_after_word(self.input.as_str());
        self.input = remove_spaces(body.as_str());
    }

    /// Carries out the command `lang`.
    pub fn set_language(&mut self)
        ensures
            final(self)@ == language_entered(old(self)@),
            well_formed(final(self)@),
    {
        self.remove_prefix();
        proof {
            use_type_invariant(&*self);
        }
        let language = self.input.clone();
        self.input = String::new();
        if is_supported(language.as_str()) {
            self.language = language;
        } else {
            self.set_error(UserError::unsupported_language(language.as_str()));
        }
    }

    /// Carries out the command `help`.
    pub fn display_help(&mut self)
        ensures
            final(self)@ == help_entered(old(self)@),
            well_formed(final(self)@),
    {
        self.clear_tables();
        proof {
            use_type_invariant(&*self);
        }
        let title = "Help Table".to_owned();
        let header = pair("command", "description");
        let mut items: Vec<Vec<String>> = Vec::new();
        items.push(pair("help", "lists available commands"));
        items.push(pair("lang <language>", "change the currently set language"));
        items.push(pair("def <word>", "translates a word from english to the current language"));
        items.push(
            pair("trans <word>", "gives the definition of the word in the current language"),
        );
        items.push(pair("conj <verb>", "conjugate a verb in the current language"));
        assert(items.deep_view() =~= help_table().items);
        self.table_data = TableData { title, header, items };
        self.clear_input();
    }

    /// Answers a command buffer that holds no command.
    pub fn handle_error(&mut self)
        ensures
            final(self)@ == unknown_entered(old(self)@),
            well_formed(final(self)@),
    {
        let command_name = self.command_name();
        self.set_error(UserError::unknown_command(command_name.as_str()));
        self.clear_input();
        proof {
            use_type_invariant(&*self);
        }
    }

    /// Carries out the command in the command buffer. Returns the lookup
    /// that the command asks for, where it asks for one.
    pub fn handle_entry(&mut self) -> (request: Option<LookupRequest>)
        ensures
            final(self)@ == entered(old(self)@),
            request.deep_view() == entered_request(old(self)@),
            well_formed(final(self)@),
    {
        self.clear_error();
        let name = self.command_name();
        if name == "lang".to_owned() {
            self.set_language();
            None
        } else if name == "conj".to_owned() {
            Some(self.set_verb())
        } else if name == "def".to_owned() {
            Some(self.set_word_definition())
        } else if name == "trans".to_owned() {
            Some(self.set_word_translation())
        } else if name == "help".to_owned() {
            self.display_help();
            None
        } else {
            self.handle_error();
            None
        }
    }

    /// Makes the lookup of this kind that the command buffer asks for, of the
    /// word behind the command in the current language, and empties the
    /// command buffer.
    pub fn dispatch_lookup(&mut self, action: LookupEvent) -> (request: LookupRequest)
        ensures
            request@ == request_for(old(self)@, action),
            final(self)@ == (AppView { input: Seq::empty(), ..old(self)@ }),
            well_formed(final(self)@),
    {
        proof {
            use_type_invariant(&*self);
        }
        let request = LookupRequest {
            event: action,
            word: self.command_body(),
            language: self.language.clone(),
        };
        self.clear_input();
        request
    }

    /// Asks for the conjugations of the verb in the command buffer.
    pub fn set_verb(&mut self) -> (request: LookupRequest)
        ensures
            request@ == request_for(old(self)@, LookupEvent::Verb),
            final(self)@ == (AppView { input: Seq::empty(), ..old(self)@ }),
            well_formed(final(self)@),
    {
        self.dispatch_lookup(LookupEvent::Verb)
    }

    /// Asks for the definitions of the word in the command buffer.
    pub fn set_word_definition(&mut self) -> (request: LookupRequest)
        ensures
            request@ == request_for(old(self)@, LookupEvent::Definition),
            final(self)@ == (AppView { input: Seq::empty(), ..old(self)@ }),
            well_formed(final(self)@),
    {
        self.dispatch_lookup(LookupEvent::Definition)
    }

    /// Asks for the translations of the word in the command buffer.
    pub fn set_word_translation(&mut self) -> (request: LookupRequest)
        ensures
            request@ == request_for(old(self)@, LookupEvent::Translation),
            final(self)@ == (AppView { input: Seq::empty(), ..old(self)@ }),
            well_formed(final(self)@),
    {
        self.dispatch_lookup(LookupEvent::Translation)
    }
}

/// Paging forward moves the cursor on by one, and from the last table back
/// to the first. The state stays well formed.
pub proof fn lemma_next_wraps(app: AppView)
    requires
        well_formed(app),
        page_count(app) > 0,
    ensures
        next_page(app).current_table == if app.current_table + 1 == page_count(app) {
            0
        } else {
            app.current_table + 1
        },
        page_count(next_page(app)) == page_count(app),
        well_formed(next_page(app)),
{
    let n = page_count(app);
    if app.current_table + 1 == n {
        lemma_mod_add_multiples_vanish(0, n as int);
        lemma_small_mod(0, n);
    } else {
        lemma_small_mod((app.current_table + 1) as nat, n);
    }
}

/// Paging backward moves the cursor back by one, and from the first table to
/// the last. The state stays well formed.
pub proof fn lemma_previous_wraps(app: AppView)
    requires
        well_formed(app),
        page_count(app) > 0,
    ensures
        previous_page(app).current_table == if app.current_table == 0 {
            page_count(app) - 1
        } else {
            app.current_table - 1
        },
        page_count(previous_page(app)) == page_count(app),
        well_formed(previous_page(app)),
{
    let n = page_count(app);
    if app.current_table == 0 {
        lemma_small_mod((n - 1) as nat, n);
    } else {
        lemma_mod_add_multiples_vanish(app.current_table - 1, n as int);
        lemma_small_mod((app.current_table - 1) as nat, n);
    }
}

/// Without tables paging changes nothing, in either direction.
pub proof fn lemma_no_tables_no_paging(app: AppView)
    requires
        page_count(app) == 0,
    ensures
        next_page(app) == app,
        previous_page(app) == app,
{
}

/// Paging forward and then backward, or backward and then forward, leads
/// back to the same table.
pub proof fn lemma_paging_there_and_back(app: AppView)
    requires
        well_formed(app),
    ensures
        previous_page(next_page(app)).current_table == app.current_table,
        next_page(previous_page(app)).current_table == app.current_table,
{
    if page_count(app) > 0 {
        lemma_next_wraps(app);
        lemma_previous_wraps(app);
        lemma_previous_wraps(next_page(app));
        lemma_next_wraps(previous_page(app));
    }
}

/// After paging, the table on display is the one at the cursor.
pub proof fn lemma_paging_shows_table(app: AppView)
    requires
        well_formed(app),
        page_count(app) > 0,
    ensures
        app.conjugations.conjugation_tables.len() > 0 ==> next_page(app).table_data
            == conjugation_page(next_page(app)) && previous_page(app).table_data
            == conjugation_page(previous_page(app)),
        app.definitions.definitions.len() > 0 ==> next_page(app).table_data == definition_page(
            next_page(app),
        ) && previous_page(app).table_data == definition_page(previous_page(app)),
{
    lemma_next_wraps(app);
    lemma_previous_wraps(app);
}

/// The command `lang` with a language that the site does not serve leaves
/// the language as it was and puts an error on display.
pub proof fn lemma_unsupported_language_rejected(app: AppView)
    requires
        first_word(app.input) == "lang"@,
        !supported(without_spaces(after_first_word(app.input))),
    ensures
        entered(app).language == app.language,
        entered(app).error.len() > 0,
        entered(app).error == unsupported_language_message(
            without_spaces(after_first_word(app.input)),
        ),
        entered_request(app) is None,
{
    reveal_strlit("'");
}

/// The command `lang` with a language that the site serves makes it the
/// current language; no error is on display afterwards.
pub proof fn lemma_supported_language_set(app: AppView)
    requires
        first_word(app.input) == "lang"@,
        supported(without_spaces(after_first_word(app.input))),
    ensures
        entered(app).language == without_spaces(after_first_word(app.input)),
        entered(app).error.len() == 0,
        entered_request(app) is None,
{
}

/// What is entered keeps the state well formed, whatever the command.
pub proof fn lemma_entered_well_formed(app: AppView)
    requires
        well_formed(app),
    ensures
        well_formed(entered(app)),
{
}

/// Making conjugations or definitions the active result clears the other
/// kind, puts the cursor on the first table and shows it.
pub proof fn lemma_one_result_active(
    app: AppView,
    conjugations: VerbConjugationsView,
    definitions: WordDefinitionsView,
)
    ensures
        showing_conjugations(app, conjugations).definitions.definitions.len() == 0,
        showing_conjugations(app, conjugations).conjugations == conjugations,
        showing_conjugations(app, conjugations).current_table == 0,
        well_formed(showing_conjugations(app, conjugations)),
        showing_definitions(app, definitions).conjugations.conjugation_tables.len() == 0,
        showing_definitions(app, definitions).definitions == definitions,
        showing_definitions(app, definitions).current_table == 0,
        well_formed(showing_definitions(app, definitions)),
{
}

/// The commands `conj`, `def` and `trans`, followed by a space and a word,
/// ask for the lookup of their kind, of that word, in the current language.
/// The command buffer is empty afterwards and no error is on display.
pub proof fn lemma_lookup_commands(app: AppView, word: Seq<char>)
    ensures
        app.input == "conj"@ + seq![' '] + word ==> entered_request(app) == Some(
            LookupRequestView { event: LookupEvent::Verb, word, language: app.language },
        ) && entered(app) == (AppView { input: Seq::empty(), error: Seq::empty(), ..app }),
        app.input == "def"@ + seq![' '] + word ==> entered_request(app) == Some(
            LookupRequestView { event: LookupEvent::Definition, word, language: app.language },
        ) && entered(app) == (AppView { input: Seq::empty(), error: Seq::empty(), ..app }),
        app.input == "trans"@ + seq![' '] + word ==> entered_request(app) == Some(
            LookupRequestView { event: LookupEvent::Translation, word, language: app.language },
        ) && entered(app) == (AppView { input: Seq::empty(), error: Seq::empty(), ..app }),
{
    reveal_strlit("lang");
    reveal_strlit("conj");
    reveal_strlit("def");
    reveal_strlit("trans");
    assert("lang"@.len() == 4 && "conj"@.len() == 4 && "def"@.len() == 3 && "trans"@.len() == 5);
    assert("lang"@[0] == 'l' && "conj"@[0] == 'c');
    lemma_word_and_body("conj"@, word);
    lemma_word_and_body("def"@, word);
    lemma_word_and_body("trans"@, word);
}

/// The command `lang`, followed by a space and the name of a language
/// without spaces, sets that language where the site serves it and leaves
/// the language as it was, with an error on display, where it does not.
pub proof fn lemma_language_command(app: AppView, language: Seq<char>)
    requires
        app.input == "lang"@ + seq![' '] + language,
        forall|k: int| 0 <= k < language.len() ==> #[trigger] language[k] != ' ',
    ensures
        entered_request(app) is None,
        entered(app).input.len() == 0,
        supported(language) ==> entered(app).language == language && entered(app).error.len()
            == 0,
        !supported(language) ==> entered(app).language == app.language && entered(app).error
            == unsupported_language_message(language),
{
    reveal_strlit("lang");
    assert("lang"@.len() == 4);
    lemma_word_and_body("lang"@, language);
    lemma_no_spaces_to_remove(language);
}

/// The command `help` shows the list of commands and clears the result;
/// what is no command at all is answered by an error that names its first
/// word.
pub proof fn lemma_other_commands(app: AppView)
    ensures
        app.input == "help"@ ==> entered(app) == help_entered(
            AppView { error: Seq::empty(), ..app },
        ) && entered_request(app) is None,
        first_word(app.input) != "lang"@ && first_word(app.input) != "conj"@ && first_word(
            app.input,
        ) != "def"@ && first_word(app.input) != "trans"@ && first_word(app.input) != "help"@
            ==> entered(app).error == unknown_command_message(first_word(app.input))
            && entered(app).language == app.language && entered_request(app) is None,
{
    reveal_strlit("lang");
    reveal_strlit("conj");
    reveal_strlit("def");
    reveal_strlit("trans");
    reveal_strlit("help");
    assert("lang"@.len() == 4 && "conj"@.len() == 4 && "def"@.len() == 3 && "trans"@.len() == 5
        && "help"@.len() == 4);
    assert("lang"@[0] == 'l' && "conj"@[0] == 'c' && "help"@[0] == 'h');
    lemma_word_and_body("help"@, Seq::empty());
}

} // verus!
