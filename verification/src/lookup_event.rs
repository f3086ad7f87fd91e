use crate::app::{
    showing_conjugations, showing_definitions, well_formed, without_tables, App, AppView,
};
use crate::conjugations::{
    lemma_page_conjugations_hold, page_conjugations, VerbConjugations, VerbConjugationsView,
};
use crate::definitions::{any_rows, page_definitions, WordDefinitions, WordDefinitionsView};
use crate::user_error::{
    unsupported_language_error, verb_network_error, viewed, word_network_error, UserError,
    UserErrorView,
};
use crate::wordreference::{
    conjugation_address, conjugation_url, definition_address, definition_url, is_supported,
    supported,
};
use vstd::prelude::*;
use vstd::string::*;

verus! {

/// The kinds of lookup that a command can ask for.
#[derive(Clone, Copy, Debug, PartialEq, Eq, Structural)]
pub enum LookupEvent {
    /// The conjugations of a verb of the current language.
    Verb,
    /// The definitions of a word of the current language.
    Definition,
    /// The translations of an english word into the current language.
    Translation,
}

/// A lookup that the command dispatcher hands to the worker: its kind, the
/// word typed behind the command, and the language that was current.
#[derive(Debug)]
pub struct LookupRequest {
    pub event: LookupEvent,
    pub word: String,
    pub language: String,
}

/// What a `LookupRequest` holds, as plain values.
#[verifier::ext_equal]
pub struct LookupRequestView {
    pub event: LookupEvent,
    pub word: Seq<char>,
    pub language: Seq<char>,
}

impl DeepView for LookupRequest {
    type V = LookupRequestView;

    open spec fn deep_view(&self) -> LookupRequestView {
        LookupRequestView { event: self.event, word: self.word@, language: self.language@ }
    }
}

impl View for LookupRequest {
    type V = LookupRequestView;

    open spec fn view(&self) -> LookupRequestView {
        self.deep_view()
    }
}

/// The language that a lookup of definitions translates into: english for
/// the definitions of a word of the current language, the current language
/// for the translations of an english word.
pub open spec fn to_language(request: LookupRequestView) -> Seq<char> {
    if request.event is Definition {
        "english"@
    } else {
        request.language
    }
}

/// The language that the word of a lookup belongs to.
pub open spec fn from_language(request: LookupRequestView) -> Seq<char> {
    if request.event is Translation {
        "english"@
    } else {
        request.language
    }
}

impl LookupRequest {
    /// A copy of the request.
    pub fn duplicate(&self) -> (copy: LookupRequest)
        ensures
            copy@ == self@,
    {
        LookupRequest {
            event: self.event,
            word: self.word.clone(),
            language: self.language.clone(),
        }
    }

    /// The language that the lookup translates into.
    pub fn to_language(&self) -> (language: String)
        ensures
            language@ == to_language(self@),
    {
        match self.event {
            LookupEvent::Definition => "english".to_owned(),
            _ => self.language.clone(),
        }
    }

    /// The language that the word of the lookup belongs to.
    pub fn from_language(&self) -> (language: String)
        ensures
            language@ == from_language(self@),
    {
        match self.event {
            LookupEvent::Translation => "english".to_owned(),
            _ => self.language.clone(),
        }
    }
}

/// What a lookup found: the conjugations of a verb or the definitions of a
/// word.
#[derive(Debug)]
pub enum Found {
    Conjugations(VerbConjugations),
    Definitions(WordDefinitions),
}

/// What a `Found` holds, as plain values.
pub enum FoundView {
    Conjugations(VerbConjugationsView),
    Definitions(WordDefinitionsView),
}

impl DeepView for Found {
    type V = FoundView;

    open spec fn deep_view(&self) -> FoundView {
        match self {
            Found::Conjugations(conjugations) => FoundView::Conjugations(conjugations@),
            Found::Definitions(definitions) => FoundView::Definitions(definitions@),
        }
    }
}

impl View for Found {
    type V = FoundView;

    open spec fn view(&self) -> FoundView {
        self.deep_view()
    }
}

impl Found {
    /// A copy of what was found.
    pub fn duplicate(&self) -> (copy: Found)
        ensures
            copy@ == self@,
    {
        match self {
            Found::Conjugations(conjugations) => Found::Conjugations(conjugations.duplicate()),
            Found::Definitions(definitions) => Found::Definitions(definitions.duplicate()),
        }
    }
}

/// What the worker asks its surroundings to do next.
#[derive(Debug)]
pub enum LookupAction {
    /// Look for the root word of this word in the table of root words.
    FindRoot { language: String, word: String },
    /// Look for the result of this lookup in the cache.
    FindCached(LookupRequest),
    /// Fetch the page at this address.
    Fetch(String),
    /// Write the result of this lookup into the cache.
    Store(LookupRequest, Found),
    /// Nothing: the worker is idle.
    Done,
}

/// What a `LookupAction` holds, as plain values.
pub enum LookupActionView {
    FindRoot { language: Seq<char>, word: Seq<char> },
    FindCached(LookupRequestView),
    Fetch(Seq<char>),
    Store(LookupRequestView, FoundView),
    Done,
}

impl DeepView for LookupAction {
    type V = LookupActionView;

    open spec fn deep_view(&self) -> LookupActionView {
        match self {
            LookupAction::FindRoot { language, word } => LookupActionView::FindRoot {
                language: language@,
                word: word@,
            },
            LookupAction::FindCached(request) => LookupActionView::FindCached(request@),
            LookupAction::Fetch(url) => LookupActionView::Fetch(url@),
            LookupAction::Store(request, found) => LookupActionView::Store(request@, found@),
            LookupAction::Done => LookupActionView::Done,
        }
    }
}

impl View for LookupAction {
    type V = LookupActionView;

    open spec fn view(&self) -> LookupActionView {
        self.deep_view()
    }
}

/// What the surroundings answer to an action of the worker.
#[derive(Debug)]
pub enum LookupReply {
    /// The root word of the word, where the table of root words holds one.
    Root(Option<String>),
    /// The result that the cache holds for the lookup, where it holds one.
    Cached(Option<Found>),
    /// The page that was fetched, or nothing where the site was not reached.
    Page(Option<String>),
    /// The result was written into the cache.
    Stored,
}

/// What a `LookupReply` holds, as plain values.
pub enum LookupReplyView {
    Root(Option<Seq<char>>),
    Cached(Option<FoundView>),
    Page(Option<Seq<char>>),
    Stored,
}

impl DeepView for LookupReply {
    type V = LookupReplyView;

    open spec fn deep_view(&self) -> LookupReplyView {
        match self {
            LookupReply::Root(root) => LookupReplyView::Root(root.deep_view()),
            LookupReply::Cached(found) => LookupReplyView::Cached(found.deep_view()),
            LookupReply::Page(page) => LookupReplyView::Page(page.deep_view()),
            LookupReply::Stored => LookupReplyView::Stored,
        }
    }
}

impl View for LookupReply {
    type V = LookupReplyView;

    open spec fn view(&self) -> LookupReplyView {
        self.deep_view()
    }
}

/// Where the worker stands in a lookup.
#[derive(Debug)]
pub enum LookupState {
    /// No lookup is under way.
    Idle,
    /// The root word of the verb is being looked for.
    Resolving(LookupRequest),
    /// The cache is being asked for the result.
    Checking(LookupRequest),
    /// The page is being fetched.
    Fetching(LookupRequest),
    /// The result is being written into the cache.
    Storing(LookupRequest, Found),
}

/// What a `LookupState` holds, as plain values.
pub enum LookupStateView {
    Idle,
    Resolving(LookupRequestView),
    Checking(LookupRequestView),
    Fetching(LookupRequestView),
    Storing(LookupRequestView, FoundView),
}

impl DeepView for LookupState {
    type V = LookupStateView;

    open spec fn deep_view(&self) -> LookupStateView {
        match self {
            LookupState::Idle => LookupStateView::Idle,
            LookupState::Resolving(request) => LookupStateView::Resolving(request@),
            LookupState::Checking(request) => LookupStateView::Checking(request@),
            LookupState::Fetching(request) => LookupStateView::Fetching(request@),
            LookupState::Storing(request, found) => LookupStateView::Storing(request@, found@),
        }
    }
}

impl View for LookupState {
    type V = LookupStateView;

    open spec fn view(&self) -> LookupStateView {
        self.deep_view()
    }
}

/// The address of the page that answers the lookup.
pub open spec fn address(request: LookupRequestView) -> Seq<char> {
    if request.event is Verb {
        conjugation_address(request.language, request.word)
    } else {
        definition_address(from_language(request), to_language(request), request.word)
    }
}

/// The error that the site could not be reached for the lookup.
pub open spec fn network_error(request: LookupRequestView) -> UserErrorView {
    if request.event is Verb {
        verb_network_error()
    } else {
        word_network_error()
    }
}

/// What the fetched page gives for the lookup.
pub open spec fn page_result(request: LookupRequestView, document: Seq<char>) -> Result<
    FoundView,
    UserErrorView,
> {
    if request.event is Verb {
        match page_conjugations(request.word, request.language, document) {
            Ok(conjugations) => Ok(FoundView::Conjugations(conjugations)),
            Err(error) => Err(error),
        }
    } else {
        match page_definitions(
            request.word,
            from_language(request),
            to_language(request),
            document,
        ) {
            Ok(definitions) => Ok(FoundView::Definitions(definitions)),
            Err(error) => Err(error),
        }
    }
}

/// Whether what was found is of the kind that the lookup asks for.
pub open spec fn answers(request: LookupRequestView, found: FoundView) -> bool {
    request.event is Verb <==> found is Conjugations
}

/// Whether what was found holds anything: conjugations name a verb and hold a
/// table, definitions hold a row.
pub open spec fn holds_result(found: FoundView) -> bool {
    match found {
        FoundView::Conjugations(conjugations) => conjugations.verb.len() > 0
            && conjugations.conjugation_tables.len() > 0,
        FoundView::Definitions(definitions) => any_rows(definitions.definitions),
    }
}

/// The application after a lookup ended well: what was found is the active
/// result, no error is on display and nothing is loading.
pub open spec fn finished(app: AppView, found: FoundView) -> AppView {
    let shown = match found {
        FoundView::Conjugations(conjugations) => showing_conjugations(app, conjugations),
        FoundView::Definitions(definitions) => showing_definitions(app, definitions),
    };
    AppView { error: Seq::empty(), loading: false, ..shown }
}

/// The application after a lookup failed: the message of the error is on
/// display, the tables are gone and nothing is loading.
pub open spec fn failed(app: AppView, error: UserErrorView) -> AppView {
    AppView { error: error.message, loading: false, ..without_tables(app) }
}

/// The state in which a lookup starts: a verb is first looked for in the
/// table of root words, anything else in the cache.
pub open spec fn started(request: LookupRequestView) -> LookupStateView {
    if request.event is Verb {
        LookupStateView::Resolving(request)
    } else {
        LookupStateView::Checking(request)
    }
}

/// The lookup with the root word in place of its word, where there is one.
pub open spec fn resolved(request: LookupRequestView, root: Option<Seq<char>>) -> LookupRequestView {
    match root {
        Some(word) => LookupRequestView { word, ..request },
        None => request,
    }
}

/// The action that a state waits for.
pub open spec fn pending(state: LookupStateView) -> LookupActionView {
    match state {
        LookupStateView::Idle => LookupActionView::Done,
        LookupStateView::Resolving(request) => LookupActionView::FindRoot {
            language: request.language,
            word: request.word,
        },
        LookupStateView::Checking(request) => LookupActionView::FindCached(request),
        LookupStateView::Fetching(request) => LookupActionView::Fetch(address(request)),
        LookupStateView::Storing(request, found) => LookupActionView::Store(request, found),
    }
}

/// What the cache gave for the lookup, where it can be used: a result of the
/// kind that the lookup asks for. A result of the other kind counts as none.
pub open spec fn usable(request: LookupRequestView, found: Option<FoundView>) -> Option<
    FoundView,
> {
    if found is Some && answers(request, found->0) {
        found
    } else {
        None
    }
}

/// The state and the application after a reply came in. A result from the
/// cache ends the lookup. Without one that can be used the page is fetched,
/// unless the site does not serve the language. A page that gives a result
/// has it written into the cache, and the lookup ends when that is done. A
/// reply that the state does not wait for changes nothing.
pub open spec fn resumed(state: LookupStateView, app: AppView, reply: LookupReplyView) -> (
    LookupStateView,
    AppView,
) {
    match (state, reply) {
        (LookupStateView::Resolving(request), LookupReplyView::Root(root)) => (
            LookupStateView::Checking(resolved(request, root)),
            app,
        ),
        (LookupStateView::Checking(request), LookupReplyView::Cached(found)) => {
            if usable(request, found) is Some {
                (LookupStateView::Idle, finished(app, usable(request, found)->0))
            } else if supported(request.language) {
                (LookupStateView::Fetching(request), app)
            } else {
                (LookupStateView::Idle, failed(app, unsupported_language_error(request.language)))
            }
        },
        (LookupStateView::Fetching(request), LookupReplyView::Page(None)) => (
            LookupStateView::Idle,
            failed(app, network_error(request)),
        ),
        (LookupStateView::Fetching(request), LookupReplyView::Page(Some(document))) => {
            match page_result(request, document) {
                Ok(found) => (LookupStateView::Storing(request, found), app),
                Err(error) => (LookupStateView::Idle, failed(app, error)),
            }
        },
        (LookupStateView::Storing(request, found), LookupReplyView::Stored) => (
            LookupStateView::Idle,
            finished(app, found),
        ),
        _ => (state, app),
    }
}

/// The worker that carries out lookups. It decides what is to be done next;
/// its surroundings do it and hand back what came of it.
pub struct LookupEventHandler {
    state: LookupState,
}

impl View for LookupEventHandler {
    type V = LookupStateView;

    closed spec fn view(&self) -> LookupStateView {
        self.state@
    }
}

impl LookupEventHandler {
    /// A worker that is idle.
    pub fn new() -> (handler: LookupEventHandler)
        ensures
            handler@ is Idle,
    {
        LookupEventHandler { state: LookupState::Idle }
    }

    /// Whether no lookup is under way.
    pub fn is_idle(&self) -> (idle: bool)
        ensures
            idle == (self@ is Idle),
    {
        match self.state {
            LookupState::Idle => true,
            _ => false,
        }
    }

    /// The action that the worker waits for.
    pub fn pending_action(&self) -> (action: LookupAction)
        ensures
            action@ == pending(self@),
    {
        match &self.state {
            LookupState::Idle => LookupAction::Done,
            LookupState::Resolving(request) => LookupAction::FindRoot {
                language: request.language.clone(),
                word: request.word.clone(),
            },
            LookupState::Checking(request) => LookupAction::FindCached(request.duplicate()),
            LookupState::Fetching(request) => {
                let url = match request.event {
                    LookupEvent::Verb => conjugation_url(
                        request.language.clone(),
                        request.word.clone(),
                    ),
                    _ => definition_url(
                        request.from_language(),
                        request.to_language(),
                        request.word.clone(),
                    ),
                };
                LookupAction::Fetch(url)
            },
            LookupState::Storing(request, found) => LookupAction::Store(
                request.duplicate(),
                found.duplicate(),
            ),
        }
    }

    /// What the cache gave for the lookup, where it is of the kind that the
    /// lookup asks for; a result of the other kind counts as none.
    pub fn usable_result(request: &LookupRequest, found: Option<Found>) -> (hit: Option<Found>)
        ensures
            hit.deep_view() == usable(request@, found.deep_view()),
    {
        match found {
            Some(found) => {
                let fits = match (&request.event, &found) {
                    (LookupEvent::Verb, Found::Conjugations(_)) => true,
                    (LookupEvent::Verb, Found::Definitions(_)) => false,
                    (_, Found::Conjugations(_)) => false,
                    (_, Found::Definitions(_)) => true,
                };
                if fits {
                    Some(found)
                } else {
                    None
                }
            },
            None => None,
        }
    }

    /// Reads from a fetched page what the lookup asks for.
    pub fn read_page(request: &LookupRequest, document: &str) -> (found: Result<Found, UserError>)
        ensures
            viewed(found) == page_result(request@, document@),
            found is Ok ==> holds_result(found->Ok_0@) && answers(request@, found->Ok_0@),
    {
        match request.event {
            LookupEvent::Verb => {
                match VerbConjugations::get_conjugation_tables(
                    request.word.as_str(),
                    request.language.as_str(),
                    document,
                ) {
                    Ok(conjugations) => Ok(Found::Conjugations(conjugations)),
                    Err(error) => Err(error),
                }
            },
            _ => {
                match WordDefinitions::get_definition_tables(
                    request.to_language(),
                    request.from_language(),
                    request.word.clone(),
                    document,
                ) {
                    Ok(definitions) => Ok(Found::Definitions(definitions)),
                    Err(error) => Err(error),
                }
            },
        }
    }

    /// Ends a lookup that went well: what was found becomes the active
    /// result, the error of before is gone and nothing is loading any more.
    pub fn finish(app: &mut App, found: Found)
        ensures
            final(app)@ == finished(old(app)@, found@),
            well_formed(final(app)@),
    {
        match found {
            Found::Conjugations(conjugations) => {
                app.set_conjugations(conjugations);
            },
            Found::Definitions(definitions) => {
                app.set_definitions(definitions);
            },
        }
        app.clear_error();
        app.end_load();
    }

    /// Ends a lookup that failed: the error is put on display, the tables are
    /// gone and nothing is loading any more.
    pub fn fail(app: &mut App, error: UserError)
        ensures
            final(app)@ == failed(old(app)@, error@),
            well_formed(final(app)@),
    {
        app.set_error(error);
        app.clear_tables();
        app.end_load();
    }

    /// Starts a lookup at the time `now`, in milliseconds: the application is
    /// marked as loading. Returns what is to be done first. A lookup that was
    /// under way is given up.
    pub fn handle_lookup_event(&mut self, app: &mut App, request: LookupRequest, now: u64) -> (action:
        LookupAction)
        ensures
            final(self)@ == started(request@),
            final(app)@ == (AppView { loading: true, load_start: now, ..old(app)@ }),
            action@ == pending(final(self)@),
            well_formed(final(app)@),
    {
        app.start_load(now);
        self.state = match request.event {
            LookupEvent::Verb => LookupState::Resolving(request),
            _ => LookupState::Checking(request),
        };
        self.pending_action()
    }

    /// Takes what came of the last action and returns what is to be done
    /// next. When the lookup ends, its result or its error is written into
    /// the application, and the action is `Done`.
    pub fn resume(&mut self, app: &mut App, reply: LookupReply) -> (action: LookupAction)
        ensures
            final(self)@ == resumed(old(self)@, old(app)@, reply@).0,
            final(app)@ == resumed(old(self)@, old(app)@, reply@).1,
            action@ == pending(final(self)@),
            well_formed(final(app)@),
    {
        app.is_well_formed();
        let mut state = LookupState::Idle;
        core::mem::swap(&mut state, &mut self.state);
        match (state, reply) {
            (LookupState::Resolving(request), LookupReply::Root(root)) => {
                let request = match root {
                    Some(word) => LookupRequest {
                        event: request.event,
                        word,
                        language: request.language,
                    },
                    None => request,
                };
                self.state = LookupState::Checking(request);
            },
            (LookupState::Checking(request), LookupReply::Cached(found)) => {
                match LookupEventHandler::usable_result(&request, found) {
                    Some(found) => {
                        LookupEventHandler::finish(app, found);
                    },
                    None => {
                        if is_supported(request.language.as_str()) {
                            self.state = LookupState::Fetching(request);
                        } else {
                            LookupEventHandler::fail(
                                app,
                                UserError::unsupported_language(request.language.as_str()),
                            );
                        }
                    },
                }
            },
            (LookupState::Fetching(request), LookupReply::Page(None)) => {
                let error = match request.event {
                    LookupEvent::Verb => UserError::verb_network(),
                    _ => UserError::word_network(),
                };
                LookupEventHandler::fail(app, error);
            },
            (LookupState::Fetching(request), LookupReply::Page(Some(document))) => {
                match LookupEventHandler::read_page(&request, document.as_str()) {
                    Ok(found) => {
                        self.state = LookupState::Storing(request, found);
                    },
                    Err(error) => {
                        LookupEventHandler::fail(app, error);
                    },
                }
            },
            (LookupState::Storing(_, found), LookupReply::Stored) => {
                LookupEventHandler::finish(app, found);
            },
            (state, _) => {
                self.state = state;
            },
        }
        self.pending_action()
    }
}

/// What surrounds the worker, as far as a lookup can tell: the table of root
/// words by language and word, the cache by lookup, and the pages of the
/// site by address. A page that is missing stands for a site that cannot be
/// reached.
pub struct World {
    pub roots: Map<(Seq<char>, Seq<char>), Seq<char>>,
    pub cache: Map<LookupRequestView, FoundView>,
    pub site: Map<Seq<char>, Seq<char>>,
}

/// How far a lookup has come: the world, the state of the worker, the
/// application, and the number of pages fetched so far.
pub struct Progress {
    pub world: World,
    pub state: LookupStateView,
    pub app: AppView,
    pub fetches: nat,
}

/// What the world answers to an action, and the world afterwards: only a
/// write into the cache changes it.
pub open spec fn answer(world: World, action: LookupActionView) -> (World, LookupReplyView) {
    match action {
        LookupActionView::FindRoot { language, word } => (
            world,
            LookupReplyView::Root(
                if world.roots.contains_key((language, word)) {
                    Some(world.roots[(language, word)])
                } else {
                    None
                },
            ),
        ),
        LookupActionView::FindCached(request) => (
            world,
            LookupReplyView::Cached(
                if world.cache.contains_key(request) {
                    Some(world.cache[request])
                } else {
                    None
                },
            ),
        ),
        LookupActionView::Fetch(url) => (
            world,
            LookupReplyView::Page(
                if world.site.contains_key(url) {
                    Some(world.site[url])
                } else {
                    None
                },
            ),
        ),
        LookupActionView::Store(request, found) => (
            World { cache: world.cache.insert(request, found), ..world },
            LookupReplyView::Stored,
        ),
        LookupActionView::Done => (world, LookupReplyView::Stored),
    }
}

/// The lookup carried on for at most `steps` actions, each answered by the
/// world, until the worker is idle.
pub open spec fn run(world: World, state: LookupStateView, app: AppView, steps: nat) -> Progress
    decreases steps,
{
    if steps == 0 || state is Idle {
        Progress { world, state, app, fetches: 0 }
    } else {
        let action = pending(state);
        let (next_world, reply) = answer(world, action);
        let (next_state, next_app) = resumed(state, app, reply);
        let rest = run(next_world, next_state, next_app, (steps - 1) as nat);
        Progress {
            fetches: rest.fetches + if action is Fetch {
                1nat
            } else {
                0nat
            },
            ..rest
        }
    }
}

/// The application as a lookup that starts at the time `now` finds it.
pub open spec fn loading(app: AppView, now: u64) -> AppView {
    AppView { loading: true, load_start: now, ..app }
}

/// A whole lookup in a world, from the request to the idle worker. Four
/// actions are the most that a lookup takes.
pub open spec fn lookup(world: World, app: AppView, request: LookupRequestView, now: u64) -> Progress {
    run(world, started(request), loading(app, now), 4)
}

/// The lookup under which the cache is asked: a verb is replaced by its root
/// word where the world knows one.
pub open spec fn cache_key(world: World, request: LookupRequestView) -> LookupRequestView {
    if request.event is Verb && world.roots.contains_key((request.language, request.word)) {
        LookupRequestView { word: world.roots[(request.language, request.word)], ..request }
    } else {
        request
    }
}

/// The result that the cache of the world holds for the lookup and that can
/// be used: one of the kind that the lookup asks for.
pub open spec fn cached(world: World, request: LookupRequestView) -> Option<FoundView> {
    let key = cache_key(world, request);
    usable(
        key,
        if world.cache.contains_key(key) {
            Some(world.cache[key])
        } else {
            None
        },
    )
}

/// Whether every result in the cache is of the kind of its lookup and holds
/// something.
pub open spec fn cache_sound(world: World) -> bool {
    forall|request: LookupRequestView| #[trigger]
        world.cache.contains_key(request) ==> answers(request, world.cache[request])
            && holds_result(world.cache[request])
}

/// What a page gives holds something and is of the kind that was asked for.
pub proof fn lemma_page_result_holds(request: LookupRequestView, document: Seq<char>)
    ensures
        page_result(request, document) is Ok ==> holds_result(page_result(request, document)->Ok_0)
            && answers(request, page_result(request, document)->Ok_0),
{
    lemma_page_conjugations_hold(request.word, request.language, document);
}

/// A lookup whose result is in the cache fetches nothing: it ends with the
/// cached result as the active one and leaves the world as it was.
pub proof fn lemma_cached_lookup_fetches_nothing(
    world: World,
    app: AppView,
    request: LookupRequestView,
    now: u64,
)
    requires
        cached(world, request) is Some,
    ensures
        lookup(world, app, request, now).fetches == 0,
        lookup(world, app, request, now).state is Idle,
        lookup(world, app, request, now).world == world,
        lookup(world, app, request, now).app == finished(
            loading(app, now),
            cached(world, request)->0,
        ),
{
    reveal_with_fuel(run, 4);
}

/// A lookup that the cache cannot answer, for a language and a page that the
/// site serves, fetches once: it writes what the page gives into the cache,
/// under the lookup's own key, and ends with it as the active result.
pub proof fn lemma_first_lookup_fetches_once(
    world: World,
    app: AppView,
    request: LookupRequestView,
    now: u64,
)
    requires
        cached(world, request) is None,
        supported(request.language),
        world.site.contains_key(address(cache_key(world, request))),
        page_result(
            cache_key(world, request),
            world.site[address(cache_key(world, request))],
        ) is Ok,
    ensures
        ({
            let key = cache_key(world, request);
            let found = page_result(key, world.site[address(key)])->Ok_0;
            let end = lookup(world, app, request, now);
            &&& end.fetches == 1
            &&& end.state is Idle
            &&& end.world == (World { cache: world.cache.insert(key, found), ..world })
            &&& end.app == finished(loading(app, now), found)
            &&& holds_result(found)
            &&& answers(key, found)
        }),
{
    let key = cache_key(world, request);
    lemma_page_result_holds(key, world.site[address(key)]);
    reveal_with_fuel(run, 5);
}

/// A lookup that fails leaves the cache as it was, and its error is on
/// display without any table.
pub proof fn lemma_failed_lookup_stores_nothing(
    world: World,
    app: AppView,
    request: LookupRequestView,
    now: u64,
)
    requires
        cached(world, request) is None,
        !supported(request.language) || !world.site.contains_key(
            address(cache_key(world, request)),
        ) || page_result(
            cache_key(world, request),
            world.site[address(cache_key(world, request))],
        ) is Err,
    ensures
        ({
            let key = cache_key(world, request);
            let end = lookup(world, app, request, now);
            let error = if !supported(request.language) {
                unsupported_language_error(request.language)
            } else if !world.site.contains_key(address(key)) {
                network_error(key)
            } else {
                page_result(key, world.site[address(key)])->Err_0
            };
            &&& end.world == world
            &&& end.state is Idle
            &&& end.app == failed(loading(app, now), error)
            &&& end.fetches == if supported(request.language) {
                1nat
            } else {
                0nat
            }
        }),
{
    reveal_with_fuel(run, 5);
}

/// After a first lookup that the cache could not answer and that ended well,
/// the same lookup again fetches nothing and ends with the same result;
/// where the language of the application is the same, the same table is on
/// display.
pub proof fn lemma_second_lookup_hits_cache(
    world: World,
    app: AppView,
    request: LookupRequestView,
    now: u64,
    later_app: AppView,
    later: u64,
)
    requires
        cached(world, request) is None,
        supported(request.language),
        world.site.contains_key(address(cache_key(world, request))),
        page_result(
            cache_key(world, request),
            world.site[address(cache_key(world, request))],
        ) is Ok,
    ensures
        ({
            let first = lookup(world, app, request, now);
            let second = lookup(first.world, later_app, request, later);
            let found = first.world.cache[cache_key(world, request)];
            &&& first.fetches == 1
            &&& second.fetches == 0
            &&& second.world == first.world
            &&& first.app == finished(loading(app, now), found)
            &&& second.app == finished(loading(later_app, later), found)
            &&& later_app.language == app.language ==> second.app.table_data
                == first.app.table_data
        }),
{
    lemma_first_lookup_fetches_once(world, app, request, now);
    let first = lookup(world, app, request, now);
    let key = cache_key(world, request);
    assert(cache_key(first.world, request) == key);
    assert(first.world.cache.contains_key(key));
    assert(cached(first.world, request) == Some(first.world.cache[key]));
    lemma_cached_lookup_fetches_nothing(first.world, later_app, request, later);
}

/// What a lookup comes to in a world: the result in the cache where there is
/// one that can be used; else the error that the language is not served; else
/// the error that the site was not reached; else what the page gives.
pub open spec fn outcome(world: World, request: LookupRequestView) -> Result<
    FoundView,
    UserErrorView,
> {
    let key = cache_key(world, request);
    if cached(world, request) is Some {
        Ok(cached(world, request)->0)
    } else if !supported(request.language) {
        Err(unsupported_language_error(request.language))
    } else if !world.site.contains_key(address(key)) {
        Err(network_error(key))
    } else {
        page_result(key, world.site[address(key)])
    }
}

/// A lookup is cache-aside, in every world. It ends with the worker idle and
/// nothing loading. What it comes to is shown: a result as the active tables
/// without an error, an error without tables. A page is fetched only where
/// the cache cannot answer and the language is served, and then once. The
/// cache changes only where a page gave a result, which is then written
/// under the key of the lookup. Where the cache was sound it stays so, and
/// the result holds something.
pub proof fn lemma_lookup_is_cache_aside(
    world: World,
    app: AppView,
    request: LookupRequestView,
    now: u64,
)
    ensures
        ({
            let key = cache_key(world, request);
            let end = lookup(world, app, request, now);
            let hit = cached(world, request) is Some;
            &&& end.state is Idle
            &&& !end.app.loading
            &&& end.fetches == if !hit && supported(request.language) {
                1nat
            } else {
                0nat
            }
            &&& match outcome(world, request) {
                Ok(found) => {
                    &&& end.app == finished(loading(app, now), found)
                    &&& answers(request, found)
                    &&& cache_sound(world) ==> holds_result(found)
                    &&& end.world.cache == if hit {
                        world.cache
                    } else {
                        world.cache.insert(key, found)
                    }
                },
                Err(error) => {
                    &&& end.app == failed(loading(app, now), error)
                    &&& end.world == world
                },
            }
            &&& cache_sound(world) ==> cache_sound(end.world)
        }),
{
    let key = cache_key(world, request);
    if cached(world, request) is Some {
        lemma_cached_lookup_fetches_nothing(world, app, request, now);
    } else if supported(request.language) && world.site.contains_key(address(key))
        && page_result(key, world.site[address(key)]) is Ok {
        lemma_first_lookup_fetches_once(world, app, request, now);
    } else {
        lemma_failed_lookup_stores_nothing(world, app, request, now);
    }
}

} // verus!
