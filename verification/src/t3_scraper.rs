//! Reading the list of models out of the T3 Chat web front end.
//!
//! The front end ships its model catalogue inside JavaScript bundles
//! ("chunks").  The scraper first tries a chunk known to hold it, then looks
//! up the chunks named by the home page, and keeps the first chunk that
//! yields more than ten models.  Fetching pages is the caller's business:
//! this module decides which page to fetch next and reads what came back.

use vstd::prelude::*;
use crate::pattern::{
    all_matches, compile, escape, escaped, first_match, regex_accepts, regex_all_matches,
    regex_first_match,
};
use crate::text::{join2, join3, to_uppercase, uppercase};

verus! {

/// The origin that chunk paths are relative to.
pub const T3_ORIGIN: &'static str = "https://t3.chat";

/// The home page, which names the chunks of the front end.
pub const HOMEPAGE_URL: &'static str = "https://t3.chat/";

/// The chunk known to hold the model catalogue.
pub const KNOWN_CHUNK_URL: &'static str = "https://t3.chat/_next/static/chunks/3af0bf4d01fe7216.js";

/// A `<script>` tag of the home page loading a chunk; group 1 is its path.
pub const CHUNK_SCRIPT_PATTERN: &'static str = r#"<script[^>]+src="(/_next/static/chunks/[a-f0-9]+\.js[^"]*)"#;

/// The array of model ids in a chunk, `let x = ["a", "b", ...]`; group 1 is
/// the quoted ids.
pub const MODEL_LIST_PATTERN: &'static str = r#"let\s+\w+\s*=\s*\[((?:"[^"]+",?\s*)+)\]"#;

/// One quoted id; group 1 is the id.
pub const QUOTED_ID_PATTERN: &'static str = r#""([^"]+)""#;

/// The start of the pattern of a model's definition, before the escaped id.
pub const MODEL_ENTRY_HEAD: &'static str = r#"(?s)""#;

/// The rest of the pattern of a model's definition, after the escaped id:
/// groups 1 to 6 are its id, name, provider, developer, short description
/// and, when present, full description.
pub const MODEL_ENTRY_TAIL: &'static str = r#"":\s*\{.*?id:\s*"([^"]+)"(?s).*?name:\s*"([^"]+)"(?s).*?provider:\s*"([^"]+)"(?s).*?developer:\s*"([^"]+)"(?s).*?shortDescription:\s*"([^"]*)"(?:.*?fullDescription:\s*"([^"]*)")?"#;

/// A model as the front end describes it.
#[derive(Clone, Debug)]
pub struct ScrapedModelInfo {
    pub id: String,
    pub name: String,
    pub provider: String,
    pub developer: String,
    pub short_description: String,
    pub full_description: String,
    pub requires_pro: bool,
    pub premium: bool,
}

/// The content of a `ScrapedModelInfo`.
pub struct ScrapedModel {
    pub id: Seq<char>,
    pub name: Seq<char>,
    pub provider: Seq<char>,
    pub developer: Seq<char>,
    pub short_description: Seq<char>,
    pub full_description: Seq<char>,
    pub requires_pro: bool,
    pub premium: bool,
}

impl View for ScrapedModelInfo {
    type V = ScrapedModel;

    open spec fn view(&self) -> ScrapedModel {
        ScrapedModel {
            id: self.id@,
            name: self.name@,
            provider: self.provider@,
            developer: self.developer@,
            short_description: self.short_description@,
            full_description: self.full_description@,
            requires_pro: self.requires_pro,
            premium: self.premium,
        }
    }
}

/// The contents of a list of models.
pub open spec fn models_view(v: Seq<ScrapedModelInfo>) -> Seq<ScrapedModel> {
    v.map_values(|m: ScrapedModelInfo| m@)
}

/// Why no model list was read.
#[derive(Clone, Debug)]
pub enum ScrapeError {
    /// The regular-expression engine rejected one of the fixed patterns.
    Pattern,
    /// The home page names no chunk.
    NoChunkUrls,
    /// A page could not be fetched; the message says why.
    Http(String),
    /// No chunk held more than ten model definitions.
    NoModelDefinitions,
}

/// The content of a `ScrapeError`.
pub enum Fault {
    Pattern,
    NoChunkUrls,
    Http(Seq<char>),
    NoModelDefinitions,
}

impl View for ScrapeError {
    type V = Fault;

    open spec fn view(&self) -> Fault {
        match self {
            ScrapeError::Pattern => Fault::Pattern,
            ScrapeError::NoChunkUrls => Fault::NoChunkUrls,
            ScrapeError::Http(m) => Fault::Http(m@),
            ScrapeError::NoModelDefinitions => Fault::NoModelDefinitions,
        }
    }
}

/// The text of capture group `i`, or the empty text when the group is
/// absent or took no part in the match.
pub open spec fn group_text(groups: Seq<Option<Seq<char>>>, i: int) -> Seq<char> {
    if 0 <= i < groups.len() {
        match groups[i] {
            Some(t) => t,
            None => Seq::empty(),
        }
    } else {
        Seq::empty()
    }
}

/// The text of capture group `i`.
fn group_string(groups: &Vec<Option<String>>, i: usize) -> (r: String)
    ensures
        r@ == group_text(groups.deep_view(), i as int),
{
    if i < groups.len() {
        match &groups[i] {
            Some(t) => t.clone(),
            None => String::new(),
        }
    } else {
        String::new()
    }
}

/// The chunk URLs that the home page `html` names, in order of appearance:
/// the origin followed by the path of each matching `<script>` tag.  It is
/// a failure when the home page names none.
pub open spec fn homepage_chunk_urls(html: Seq<char>) -> Result<Seq<Seq<char>>, Fault> {
    if !regex_accepts(CHUNK_SCRIPT_PATTERN@) {
        Err(Fault::Pattern)
    } else {
        let found = regex_all_matches(CHUNK_SCRIPT_PATTERN@, html);
        if found.len() == 0 {
            Err(Fault::NoChunkUrls)
        } else {
            Ok(found.map_values(|g: Seq<Option<Seq<char>>>| T3_ORIGIN@ + group_text(g, 1)))
        }
    }
}

/// The content of a list of URLs, or the failure.
pub open spec fn urls_result_view(r: Result<Vec<String>, ScrapeError>) -> Result<Seq<Seq<char>>, Fault> {
    match r {
        Ok(v) => Ok(v.deep_view()),
        Err(e) => Err(e@),
    }
}

/// Reads the chunk URLs out of the home page.
pub fn chunk_urls_from_homepage(html: &str) -> (r: Result<Vec<String>, ScrapeError>)
    ensures
        urls_result_view(r) == homepage_chunk_urls(html@),
{
    let pattern = match compile(CHUNK_SCRIPT_PATTERN) {
        Ok(p) => p,
        Err(_) => {
            return Err(ScrapeError::Pattern);
        },
    };
    let found = all_matches(&pattern, html);
    let ghost want = found.deep_view().map_values(
        |g: Seq<Option<Seq<char>>>| T3_ORIGIN@ + group_text(g, 1),
    );
    let mut urls: Vec<String> = Vec::new();
    let mut i: usize = 0;
    while i < found.len()
        invariant
            i <= found.len(),
            want == found.deep_view().map_values(
                |g: Seq<Option<Seq<char>>>| T3_ORIGIN@ + group_text(g, 1),
            ),
            urls.len() == i,
            forall|j: int| 0 <= j < i ==> (#[trigger] urls@[j])@ == want[j],
        decreases found.len() - i,
    {
        let path = group_string(&found[i], 1);
        urls.push(join2(T3_ORIGIN, path.as_str()));
        i = i + 1;
    }
    if urls.len() == 0 {
        return Err(ScrapeError::NoChunkUrls);
    }
    assert(urls.deep_view() =~= want);
    Ok(urls)
}

/// The model a chunk defines for `id` when no definition of it is found:
/// the id, its upper-case form as name, an unknown provider and developer,
/// and `<id> model` as short description.
pub open spec fn placeholder_model(id: Seq<char>) -> ScrapedModel {
    ScrapedModel {
        id: id,
        name: uppercase(id),
        provider: "Unknown"@,
        developer: "Unknown"@,
        short_description: id + " model"@,
        full_description: Seq::empty(),
        requires_pro: false,
        premium: false,
    }
}

/// The pattern of the definition of model `id`.
pub open spec fn model_entry_pattern(id: Seq<char>) -> Seq<char> {
    MODEL_ENTRY_HEAD@ + escaped(id) + MODEL_ENTRY_TAIL@
}

/// The model that chunk `js` defines for `id`: the fields of the first
/// definition of `id`, or the placeholder when there is none.
pub open spec fn model_from_chunk(js: Seq<char>, id: Seq<char>) -> ScrapedModel {
    let p = model_entry_pattern(id);
    if regex_accepts(p) && regex_first_match(p, js) is Some {
        let g = regex_first_match(p, js)->0;
        ScrapedModel {
            id: group_text(g, 1),
            name: group_text(g, 2),
            provider: group_text(g, 3),
            developer: group_text(g, 4),
            short_description: group_text(g, 5),
            full_description: group_text(g, 6),
            requires_pro: false,
            premium: false,
        }
    } else {
        placeholder_model(id)
    }
}

/// The model ids that chunk `js` lists: the quoted strings inside the first
/// `let x = [...]` array of strings, in order; none when there is no such
/// array.
pub open spec fn chunk_model_ids(js: Seq<char>) -> Result<Seq<Seq<char>>, Fault> {
    if !regex_accepts(MODEL_LIST_PATTERN@) {
        Err(Fault::Pattern)
    } else {
        match regex_first_match(MODEL_LIST_PATTERN@, js) {
            None => Ok(Seq::empty()),
            Some(g) => if !regex_accepts(QUOTED_ID_PATTERN@) {
                Err(Fault::Pattern)
            } else {
                Ok(
                    regex_all_matches(QUOTED_ID_PATTERN@, group_text(g, 1)).map_values(
                        |m: Seq<Option<Seq<char>>>| group_text(m, 1),
                    ),
                )
            },
        }
    }
}

/// The models that chunk `js` defines: one for each listed id, in order.
pub open spec fn chunk_models(js: Seq<char>) -> Result<Seq<ScrapedModel>, Fault> {
    match chunk_model_ids(js) {
        Err(f) => Err(f),
        Ok(ids) => Ok(ids.map_values(|id: Seq<char>| model_from_chunk(js, id))),
    }
}

/// The content of a list of models, or the failure.
pub open spec fn models_result_view(r: Result<Vec<ScrapedModelInfo>, ScrapeError>) -> Result<
    Seq<ScrapedModel>,
    Fault,
> {
    match r {
        Ok(v) => Ok(models_view(v@)),
        Err(e) => Err(e@),
    }
}

/// The placeholder model for `id`.
fn placeholder_for(id: &str) -> (m: ScrapedModelInfo)
    ensures
        m@ == placeholder_model(id@),
{
    ScrapedModelInfo {
        id: String::from_str(id),
        name: to_uppercase(id),
        provider: String::from_str("Unknown"),
        developer: String::from_str("Unknown"),
        short_description: join2(id, " model"),
        full_description: String::new(),
        requires_pro: false,
        premium: false,
    }
}

/// The model that chunk `js` defines for `id`.
pub fn model_in_chunk(js: &str, id: &str) -> (m: ScrapedModelInfo)
    ensures
        m@ == model_from_chunk(js@, id@),
{
    let escaped_id = escape(id);
    let text = join3(MODEL_ENTRY_HEAD, escaped_id.as_str(), MODEL_ENTRY_TAIL);
    assert(text@ == model_entry_pattern(id@));
    if let Ok(pattern) = compile(text.as_str()) {
        if let Some(groups) = first_match(&pattern, js) {
            return ScrapedModelInfo {
                id: group_string(&groups, 1),
                name: group_string(&groups, 2),
                provider: group_string(&groups, 3),
                developer: group_string(&groups, 4),
                short_description: group_string(&groups, 5),
                full_description: group_string(&groups, 6),
                requires_pro: false,
                premium: false,
            };
        }
    }
    placeholder_for(id)
}

/// The model ids that chunk `js` lists.
fn model_ids_in_chunk(js: &str) -> (r: Result<Vec<String>, ScrapeError>)
    ensures
        urls_result_view(r) == chunk_model_ids(js@),
{
    let list_pattern = match compile(MODEL_LIST_PATTERN) {
        Ok(p) => p,
        Err(_) => {
            return Err(ScrapeError::Pattern);
        },
    };
    let list = match first_match(&list_pattern, js) {
        Some(groups) => group_string(&groups, 1),
        None => {
            let empty: Vec<String> = Vec::new();
            assert(empty.deep_view() =~= Seq::<Seq<char>>::empty());
            return Ok(empty);
        },
    };
    let id_pattern = match compile(QUOTED_ID_PATTERN) {
        Ok(p) => p,
        Err(_) => {
            return Err(ScrapeError::Pattern);
        },
    };
    let found = all_matches(&id_pattern, list.as_str());
    let ghost want = found.deep_view().map_values(|m: Seq<Option<Seq<char>>>| group_text(m, 1));
    let mut ids: Vec<String> = Vec::new();
    let mut i: usize = 0;
    while i < found.len()
        invariant
            i <= found.len(),
            want == found.deep_view().map_values(|m: Seq<Option<Seq<char>>>| group_text(m, 1)),
            ids.len() == i,
            forall|j: int| 0 <= j < i ==> (#[trigger] ids@[j])@ == want[j],
        decreases found.len() - i,
    {
        ids.push(group_string(&found[i], 1));
        i = i + 1;
    }
    assert(ids.deep_view() =~= want);
    Ok(ids)
}

/// Reads the models out of chunk `js`.
pub fn parse_chunk(js: &str) -> (r: Result<Vec<ScrapedModelInfo>, ScrapeError>)
    ensures
        models_result_view(r) == chunk_models(js@),
{
    let ids = match model_ids_in_chunk(js) {
        Ok(ids) => ids,
        Err(e) => {
            return Err(e);
        },
    };
    let ghost want = ids.deep_view().map_values(|id: Seq<char>| model_from_chunk(js@, id));
    let mut models: Vec<ScrapedModelInfo> = Vec::new();
    let mut i: usize = 0;
    while i < ids.len()
        invariant
            i <= ids.len(),
            want == ids.deep_view().map_values(|id: Seq<char>| model_from_chunk(js@, id)),
            models.len() == i,
            forall|j: int| 0 <= j < i ==> (#[trigger] models@[j])@ == want[j],
        decreases ids.len() - i,
    {
        models.push(model_in_chunk(js, ids[i].as_str()));
        i = i + 1;
    }
    assert(models_view(models@) =~= want);
    Ok(models)
}


/// The models used when the front end cannot be read.
pub open spec fn fallback_catalogue() -> Seq<ScrapedModel> {
    seq![
        ScrapedModel {
            id: "gemini-2.5-flash"@,
            name: "gemini-2.5-flash"@,
            provider: "Google"@,
            developer: "Google"@,
            short_description: "Google's state of the art fast model"@,
            full_description: Seq::empty(),
            requires_pro: false,
            premium: false,
        },
    ]
}

/// The models used when the front end cannot be read.
pub fn fallback_models() -> (r: Vec<ScrapedModelInfo>)
    ensures
        models_view(r@) == fallback_catalogue(),
{
    let r = vec![
        ScrapedModelInfo {
            id: String::from_str("gemini-2.5-flash"),
            name: String::from_str("gemini-2.5-flash"),
            provider: String::from_str("Google"),
            developer: String::from_str("Google"),
            short_description: String::from_str("Google's state of the art fast model"),
            full_description: String::new(),
            requires_pro: false,
            premium: false,
        },
    ];
    assert(models_view(r@) =~= fallback_catalogue());
    r
}

/// The models a fetch settles on: the ones read from the front end, or the
/// fallback models when reading failed.
pub fn models_or_fallback(fetched: Result<Vec<ScrapedModelInfo>, ScrapeError>) -> (r: Vec<
    ScrapedModelInfo,
>)
    ensures
        models_view(r@) == match models_result_view(fetched) {
            Ok(ms) => ms,
            Err(_) => fallback_catalogue(),
        },
{
    match fetched {
        Ok(models) => models,
        Err(_) => fallback_models(),
    }
}

/// Where a model fetch stands.
#[derive(Clone, Debug)]
pub enum ModelFetch {
    /// Trying the chunks `urls`; the one at `next` is being fetched.
    /// `discovered` tells whether the home page named them.
    Chunks { urls: Vec<String>, next: usize, discovered: bool },
    /// The home page is being fetched.
    Homepage,
    /// The fetch is over.
    Done,
}

/// The content of a `ModelFetch`.
pub enum FetchState {
    Chunks { urls: Seq<Seq<char>>, next: nat, discovered: bool },
    Homepage,
    Done,
}

impl View for ModelFetch {
    type V = FetchState;

    open spec fn view(&self) -> FetchState {
        match self {
            ModelFetch::Chunks { urls, next, discovered } => FetchState::Chunks {
                urls: urls.deep_view(),
                next: *next as nat,
                discovered: *discovered,
            },
            ModelFetch::Homepage => FetchState::Homepage,
            ModelFetch::Done => FetchState::Done,
        }
    }
}

/// What the fetch asks for next.
#[derive(Debug)]
pub enum FetchStep {
    /// Fetch this chunk and hand its text to `step`.
    FetchChunk(String),
    /// Fetch the home page and hand its text to `step`.
    FetchHomepage,
    /// The fetch is over, with this result.
    Finished(Result<Vec<ScrapedModelInfo>, ScrapeError>),
}

/// The content of a `FetchStep`.
pub enum StepView {
    FetchChunk(Seq<char>),
    FetchHomepage,
    Finished(Result<Seq<ScrapedModel>, Fault>),
}

impl View for FetchStep {
    type V = StepView;

    open spec fn view(&self) -> StepView {
        match self {
            FetchStep::FetchChunk(url) => StepView::FetchChunk(url@),
            FetchStep::FetchHomepage => StepView::FetchHomepage,
            FetchStep::Finished(r) => StepView::Finished(models_result_view(*r)),
        }
    }
}

/// The content of a fetched page, or why it could not be fetched.
pub open spec fn fetched_view(fetched: Result<String, String>) -> Result<Seq<char>, Seq<char>> {
    match fetched {
        Ok(text) => Ok(text@),
        Err(e) => Err(e@),
    }
}

/// After a chunk that did not hold the catalogue: the next chunk of the
/// list, else the home page if the list was the known one, else the end.
pub open spec fn after_chunk(urls: Seq<Seq<char>>, next: nat, discovered: bool) -> (FetchState, StepView) {
    if next + 1 < urls.len() {
        (FetchState::Chunks { urls, next: next + 1, discovered }, StepView::FetchChunk(urls[next + 1 as int]))
    } else if !discovered {
        (FetchState::Homepage, StepView::FetchHomepage)
    } else {
        (FetchState::Done, StepView::Finished(Err(Fault::NoModelDefinitions)))
    }
}

/// One step of a model fetch: from where it stands and what the requested
/// page held, where it goes and what it asks for.  A chunk is kept when it
/// reads as more than ten models; a failed fetch of a chunk, or a chunk that
/// does not read, is passed over; a failure to fetch or read the home page
/// ends the fetch with that failure.
pub open spec fn next_state(s: FetchState, fetched: Result<Seq<char>, Seq<char>>) -> (FetchState, StepView) {
    match s {
        FetchState::Chunks { urls, next, discovered } => {
            let parsed = match fetched {
                Ok(js) => chunk_models(js),
                Err(e) => Err(Fault::Http(e)),
            };
            match parsed {
                Ok(ms) => if ms.len() > 10 {
                    (FetchState::Done, StepView::Finished(Ok(ms)))
                } else {
                    after_chunk(urls, next, discovered)
                },
                Err(_) => after_chunk(urls, next, discovered),
            }
        },
        FetchState::Homepage => match fetched {
            Err(e) => (FetchState::Done, StepView::Finished(Err(Fault::Http(e)))),
            Ok(html) => match homepage_chunk_urls(html) {
                Err(f) => (FetchState::Done, StepView::Finished(Err(f))),
                Ok(urls) => (
                    FetchState::Chunks { urls, next: 0, discovered: true },
                    StepView::FetchChunk(urls[0]),
                ),
            },
        },
        FetchState::Done => (FetchState::Done, StepView::Finished(Err(Fault::NoModelDefinitions))),
    }
}

impl ModelFetch {
    /// Starts a model fetch with the chunk known to hold the catalogue.
    pub fn start() -> (r: (ModelFetch, FetchStep))
        ensures
            r.0@ == (FetchState::Chunks { urls: seq![KNOWN_CHUNK_URL@], next: 0, discovered: false }),
            r.1@ == StepView::FetchChunk(KNOWN_CHUNK_URL@),
    {
        let urls = vec![String::from_str(KNOWN_CHUNK_URL)];
        assert(urls.deep_view() =~= seq![KNOWN_CHUNK_URL@]);
        (ModelFetch::Chunks { urls, next: 0, discovered: false }, FetchStep::FetchChunk(String::from_str(KNOWN_CHUNK_URL)))
    }

    /// Whether the fetch is over.
    pub fn is_done(&self) -> (r: bool)
        ensures
            r == (self@ is Done),
    {
        match self {
            ModelFetch::Done => true,
            _ => false,
        }
    }

    /// Hands the fetch the text of the page it asked for (or why it could
    /// not be fetched), and returns what it asks for next.
    pub fn step(&mut self, fetched: Result<String, String>) -> (r: FetchStep)
        requires
            !(old(self)@ is Done),
        ensures
            (final(self)@, r@) == next_state(old(self)@, fetched_view(fetched)),
    {
        let mut state = ModelFetch::Done;
        std::mem::swap(&mut state, self);
        match state {
            ModelFetch::Chunks { urls, next, discovered } => {
                let parsed = match fetched {
                    Ok(js) => parse_chunk(js.as_str()),
                    Err(e) => Err(ScrapeError::Http(e)),
                };
                let ghost parsed_view = models_result_view(parsed);
                assert(parsed_view == match fetched_view(fetched) {
                    Ok(js) => chunk_models(js),
                    Err(e) => Err(Fault::Http(e)),
                });
                if let Ok(models) = parsed {
                    assert(models_view(models@).len() == models@.len());
                    if models.len() > 10 {
                        return FetchStep::Finished(Ok(models));
                    }
                }
                assert(urls.deep_view().len() == urls@.len());
                if urls.len() > 0 && next < urls.len() - 1 {
                    let url = urls[next + 1].clone();
                    *self = ModelFetch::Chunks { urls, next: next + 1, discovered };
                    FetchStep::FetchChunk(url)
                } else if !discovered {
                    *self = ModelFetch::Homepage;
                    FetchStep::FetchHomepage
                } else {
                    FetchStep::Finished(Err(ScrapeError::NoModelDefinitions))
                }
            },
            ModelFetch::Homepage => {
                match fetched {
                    Err(e) => FetchStep::Finished(Err(ScrapeError::Http(e))),
                    Ok(html) => match chunk_urls_from_homepage(html.as_str()) {
                        Err(e) => FetchStep::Finished(Err(e)),
                        Ok(urls) => {
                            assert(urls.deep_view().len() == urls@.len());
                            assert(urls@.len() > 0);
                            let url = urls[0].clone();
                            *self = ModelFetch::Chunks { urls, next: 0, discovered: true };
                            FetchStep::FetchChunk(url)
                        },
                    },
                }
            },
            ModelFetch::Done => FetchStep::Finished(Err(ScrapeError::NoModelDefinitions)),
        }
    }
}

/// How far a fetch is from its end, compared lexicographically: the known
/// chunks come first, then the home page, then the chunks it names, each
/// list counted by the chunks left to try.
pub open spec fn fetch_rank(s: FetchState) -> (nat, nat) {
    match s {
        FetchState::Chunks { urls, next, discovered } => (
            if discovered {
                0nat
            } else {
                2nat
            },
            if next < urls.len() {
                (urls.len() - next) as nat
            } else {
                0nat
            },
        ),
        FetchState::Homepage => (1nat, 0nat),
        FetchState::Done => (0nat, 0nat),
    }
}

/// `a` comes strictly before `b` in the lexicographic order.
pub open spec fn rank_below(a: (nat, nat), b: (nat, nat)) -> bool {
    a.0 < b.0 || (a.0 == b.0 && a.1 < b.1)
}

/// A model fetch always ends: each step either finishes it, reporting the
/// result, or moves it strictly closer to its end; and it reports a result
/// exactly when it finishes.
pub proof fn lemma_fetch_progress(s: FetchState, fetched: Result<Seq<char>, Seq<char>>)
    requires
        !(s is Done),
    ensures
        next_state(s, fetched).0 is Done || rank_below(fetch_rank(next_state(s, fetched).0), fetch_rank(s)),
        next_state(s, fetched).1 is Finished <==> next_state(s, fetched).0 is Done,
{
}

/// A fetch only ever settles on a catalogue of more than ten models: every
/// step that finishes with models reports more than ten of them.
pub proof fn lemma_fetch_keeps_only_large_catalogues(s: FetchState, fetched: Result<Seq<char>, Seq<char>>)
    requires
        !(s is Done),
    ensures
        next_state(s, fetched).1 matches StepView::Finished(Ok(ms)) ==> ms.len() > 10,
{
}

/// How a fetched chunk decides the step: a chunk that reads as more than ten
/// models ends the fetch with exactly those models; a chunk that reads as ten
/// or fewer (or does not read, or could not be fetched) is passed over for the
/// next chunk of the list while one is left, for the home page after the
/// known chunks, and ends the fetch without models after the last chunk the
/// home page named.
pub proof fn lemma_chunk_decides_step(
    urls: Seq<Seq<char>>,
    next: nat,
    discovered: bool,
    fetched: Result<Seq<char>, Seq<char>>,
)
    ensures
        ({
            let s = FetchState::Chunks { urls, next, discovered };
            let (after, asked) = next_state(s, fetched);
            let kept = fetched matches Ok(js) && chunk_models(js) matches Ok(ms) && ms.len() > 10;
            &&& kept ==> after == FetchState::Done && asked == StepView::Finished(
                chunk_models(fetched->Ok_0),
            )
            &&& !kept && next + 1 < urls.len() ==> after == (FetchState::Chunks {
                urls,
                next: next + 1,
                discovered,
            }) && asked == StepView::FetchChunk(urls[next + 1 as int])
            &&& !kept && next + 1 >= urls.len() && !discovered ==> after == FetchState::Homepage
                && asked == StepView::FetchHomepage
            &&& !kept && next + 1 >= urls.len() && discovered ==> after == FetchState::Done && asked
                == StepView::Finished(Err(Fault::NoModelDefinitions))
        }),
{
}

/// When chunk `js` holds a definition of `id`, the model's fields are the
/// captured fields of that definition, each in its own place: group 1 the
/// id, 2 the name, 3 the provider, 4 the developer, 5 the short description
/// and 6 the full description (empty when the definition has none); a found
/// model is neither pro-only nor premium.  When there is no definition, the
/// model is the placeholder made from `id` alone.
pub proof fn lemma_model_fields_from_definition(js: Seq<char>, id: Seq<char>)
    ensures
        ({
            let p = model_entry_pattern(id);
            let m = model_from_chunk(js, id);
            if regex_accepts(p) && regex_first_match(p, js) is Some {
                let g = regex_first_match(p, js)->0;
                &&& (g.len() > 1 && g[1] is Some ==> m.id == g[1]->0)
                &&& (g.len() > 2 && g[2] is Some ==> m.name == g[2]->0)
                &&& (g.len() > 3 && g[3] is Some ==> m.provider == g[3]->0)
                &&& (g.len() > 4 && g[4] is Some ==> m.developer == g[4]->0)
                &&& (g.len() > 5 && g[5] is Some ==> m.short_description == g[5]->0)
                &&& (g.len() > 6 && g[6] is Some ==> m.full_description == g[6]->0)
                &&& (g.len() <= 6 || g[6] is None ==> m.full_description.len() == 0)
                &&& !m.requires_pro && !m.premium
            } else {
                &&& m.id == id
                &&& m.name == uppercase(id)
                &&& m.provider == "Unknown"@
                &&& m.developer == "Unknown"@
                &&& m.short_description == id + " model"@
                &&& m.full_description.len() == 0
                &&& !m.requires_pro && !m.premium
            }
        }),
{
}

} // verus!
