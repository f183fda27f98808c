//! The request handler as a state machine: each event of the outside world
//! is answered with the next stage and the next thing to do.

use vstd::prelude::*;
use crate::json::json_parsed;
use crate::layout::{attribution_job, body_job, plan_fragments, FragmentJob, FragmentJobView};
use crate::page::{
    compose_page, page_of, page_slots, page_text, template_renders, template_text, TemplateError,
};
use crate::poem::{
    author_path, content_path, dynasty_path, parse_poem, poem_result, title_path, PoemError,
    PoemRecord,
};

verus! {

/// Where a poem sentence is asked for.
pub const POEM_URL: &'static str = "https://v2.jinrishici.com/sentence";

/// The request header that carries the access token.
pub const TOKEN_HEADER: &'static str = "X-User-Token";

/// How many seconds the poem service is given to answer.
pub const FETCH_TIMEOUT_SECONDS: u16 = 5;

/// The content type of a page.
pub const PAGE_CONTENT_TYPE: &'static str = "text/html";

/// Status of a page that was served.
pub const STATUS_OK: u16 = 200;

/// Status of every failure.
pub const STATUS_FAILED: u16 = 500;

/// What every request shares: made once at startup, never changed.
#[derive(Debug, Clone, PartialEq, Eq)]
pub struct AppContext {
    pub token: String,
}

/// How far a request has come.
#[derive(Debug, Clone, Copy, PartialEq, Eq, Structural)]
pub enum Stage {
    /// Nothing was done yet.
    Start,
    /// The poem service was asked.
    Fetching,
    /// The poem was read and its two lines were handed to the renderer.
    LayingOut,
    /// The response was given: nothing follows.
    Responded,
}

/// What the outside world reports.
#[derive(Debug, Clone, PartialEq, Eq)]
pub enum Event {
    /// A request came in.
    Request,
    /// The poem service could not be reached, or did not answer in time, or
    /// its answer could not be read to the end.
    FetchFailed,
    /// The poem service answered with these bytes.
    PoemBody(Vec<u8>),
    /// The renderer failed.
    LayoutFailed,
    /// The renderer made these two fragments: the poem's and the attribution's.
    Fragments(String, String),
}

/// A request to the poem service: one GET with one header, given up as
/// failed when no answer has come within the timeout.
#[derive(Debug, Clone, PartialEq, Eq)]
pub struct FetchRequest {
    pub url: String,
    pub header_name: String,
    pub header_value: String,
    pub timeout_seconds: u16,
}

/// The response to the client.
#[derive(Debug, Clone, PartialEq, Eq)]
pub struct Response {
    pub status: u16,
    pub content_type: String,
    pub body: String,
}

/// What the outside world is to do next.
#[derive(Debug, Clone, PartialEq, Eq)]
pub enum Action {
    /// Ask the poem service.
    Fetch(FetchRequest),
    /// Lay out these two lines: the poem's text, then its attribution.
    Layout(FragmentJob, FragmentJob),
    /// Give this response.
    Respond(Response),
    /// Nothing: the response was given before.
    Nothing,
}

/// The mathematical value of an `Action`.
pub enum ActionView {
    Fetch { url: Seq<char>, header_name: Seq<char>, header_value: Seq<char>, timeout_seconds: u16 },
    Layout { poem: FragmentJobView, attribution: FragmentJobView },
    Respond { status: u16, content_type: Seq<char>, body: Seq<char> },
    Nothing,
}

impl View for Action {
    type V = ActionView;

    open spec fn view(&self) -> ActionView {
        match self {
            Action::Fetch(request) => ActionView::Fetch {
                url: request.url@,
                header_name: request.header_name@,
                header_value: request.header_value@,
                timeout_seconds: request.timeout_seconds,
            },
            Action::Layout(poem, attribution) => ActionView::Layout {
                poem: poem@,
                attribution: attribution@,
            },
            Action::Respond(response) => ActionView::Respond {
                status: response.status,
                content_type: response.content_type@,
                body: response.body@,
            },
            Action::Nothing => ActionView::Nothing,
        }
    }
}

/// The request for a poem: the fixed address, with the token in its header
/// and five seconds to answer.
pub open spec fn poem_request(token: Seq<char>) -> ActionView {
    ActionView::Fetch {
        url: "https://v2.jinrishici.com/sentence"@,
        header_name: "X-User-Token"@,
        header_value: token,
        timeout_seconds: 5,
    }
}

/// The response to every failure: status 500, no content type, no body.
pub open spec fn failure() -> ActionView {
    ActionView::Respond { status: 500, content_type: Seq::empty(), body: Seq::empty() }
}

/// The response that serves a page: status 200, `text/html`, the page.
pub open spec fn success(page: Seq<char>) -> ActionView {
    ActionView::Respond { status: 200, content_type: "text/html"@, body: page }
}

/// What follows the poem service's answer, given what the JSON reader made
/// of it: the two lines to lay out, or the failure.
pub open spec fn after_fetch(parsed: Option<Map<Seq<Seq<char>>, Seq<char>>>) -> (Stage, ActionView) {
    match poem_result(parsed) {
        Ok(poem) => (
            Stage::LayingOut,
            ActionView::Layout { poem: body_job(poem), attribution: attribution_job(poem) },
        ),
        Err(_) => (Stage::Responded, failure()),
    }
}

/// What follows the rendering of the page: the page, or the failure.
pub open spec fn after_compose(rendered: Option<Seq<char>>) -> (Stage, ActionView) {
    match rendered {
        Some(page) => (Stage::Responded, success(page)),
        None => (Stage::Responded, failure()),
    }
}

/// The handler's transition: from a stage and an event to the next stage and
/// the next action.
pub open spec fn step_of(context: AppContext, stage: Stage, event: Event) -> (Stage, ActionView) {
    match stage {
        Stage::Responded => (Stage::Responded, ActionView::Nothing),
        Stage::Start => match event {
            Event::Request => (Stage::Fetching, poem_request(context.token@)),
            _ => (Stage::Responded, failure()),
        },
        Stage::Fetching => match event {
            Event::PoemBody(bytes) => after_fetch(json_parsed(bytes@)),
            _ => (Stage::Responded, failure()),
        },
        Stage::LayingOut => match event {
            Event::Fragments(body, attribution) => after_compose(page_of(body@, attribution@)),
            _ => (Stage::Responded, failure()),
        },
    }
}

/// The response to every failure.
pub fn fail() -> (r: (Stage, Action))
    ensures
        r.0 == Stage::Responded,
        r.1@ == failure(),
{
    let status: u16 = STATUS_FAILED;
    (
        Stage::Responded,
        Action::Respond(Response { status, content_type: String::new(), body: String::new() }),
    )
}

/// The request to the poem service that carries the token.
pub fn request_poem(token: &str) -> (r: (Stage, Action))
    ensures
        r.0 == Stage::Fetching,
        r.1@ == poem_request(token@),
{
    let timeout_seconds: u16 = FETCH_TIMEOUT_SECONDS;
    (
        Stage::Fetching,
        Action::Fetch(
            FetchRequest {
                url: POEM_URL.to_owned(),
                header_name: TOKEN_HEADER.to_owned(),
                header_value: token.to_owned(),
                timeout_seconds,
            },
        ),
    )
}

/// What follows the reading of the poem service's answer: a record goes to
/// the renderer as two lines, an error ends the request.
pub fn on_poem(read: Result<PoemRecord, PoemError>) -> (r: (Stage, Action))
    ensures
        match read {
            Ok(poem) => r.0 == Stage::LayingOut && r.1@ == (ActionView::Layout {
                poem: body_job(poem@),
                attribution: attribution_job(poem@),
            }),
            Err(_) => r.0 == Stage::Responded && r.1@ == failure(),
        },
{
    match read {
        Ok(poem) => {
            let (body, attribution) = plan_fragments(&poem);
            (Stage::LayingOut, Action::Layout(body, attribution))
        },
        Err(_) => fail(),
    }
}

/// What follows the rendering of the page: a page is served whole, an error
/// ends the request with the failure.
pub fn on_page(rendered: Result<String, TemplateError>) -> (r: (Stage, Action))
    ensures
        match rendered {
            Ok(page) => r.0 == Stage::Responded && r.1@ == success(page@),
            Err(_) => r.0 == Stage::Responded && r.1@ == failure(),
        },
{
    match rendered {
        Ok(page) => {
            let status: u16 = STATUS_OK;
            (
                Stage::Responded,
                Action::Respond(
                    Response { status, content_type: PAGE_CONTENT_TYPE.to_owned(), body: page },
                ),
            )
        },
        Err(_) => fail(),
    }
}

/// Takes one step of a request: a request is answered by asking the poem
/// service; its answer by the two lines to lay out; the two fragments by the
/// page. Any failure, and any event that the stage does not await, ends the
/// request with the failure response. After the response nothing is done.
pub fn step(context: &AppContext, stage: Stage, event: Event) -> (r: (Stage, Action))
    ensures
        r.0 == step_of(*context, stage, event).0,
        r.1@ == step_of(*context, stage, event).1,
{
    match stage {
        Stage::Responded => (Stage::Responded, Action::Nothing),
        Stage::Start => match event {
            Event::Request => request_poem(context.token.as_str()),
            _ => fail(),
        },
        Stage::Fetching => match event {
            Event::PoemBody(bytes) => on_poem(parse_poem(bytes.as_slice())),
            _ => fail(),
        },
        Stage::LayingOut => match event {
            Event::Fragments(body, attribution) => on_page(
                compose_page(body.as_str(), attribution.as_str()),
            ),
            _ => fail(),
        },
    }
}

/// How far a stage is from the start.
pub open spec fn stage_rank(stage: Stage) -> nat {
    match stage {
        Stage::Start => 0,
        Stage::Fetching => 1,
        Stage::LayingOut => 2,
        Stage::Responded => 3,
    }
}

/// An answer that holds all four strings is served. The poem service is
/// asked with the token in its header; the answer leads to the two lines, the
/// poem's text and the attribution worded as two em dashes, the title in
/// guillemets, the dynasty, a middle dot and the author; and where the page
/// template renders with the two fragments, the response has status 200 and
/// its body is the page that holds both fragments.
pub proof fn lemma_well_formed_answer_is_served(
    context: AppContext,
    answer: Vec<u8>,
    strings: Map<Seq<Seq<char>>, Seq<char>>,
    poem_fragment: String,
    attribution_fragment: String,
)
    requires
        json_parsed(answer@) == Some(strings),
        strings.contains_key(content_path()),
        strings.contains_key(title_path()),
        strings.contains_key(dynasty_path()),
        strings.contains_key(author_path()),
        template_renders(template_text(), page_slots(poem_fragment@, attribution_fragment@)),
    ensures
        step_of(context, Stage::Start, Event::Request) == (
            Stage::Fetching,
            poem_request(context.token@),
        ),
        step_of(context, Stage::Fetching, Event::PoemBody(answer)).0 == Stage::LayingOut,
        step_of(context, Stage::Fetching, Event::PoemBody(answer)).1 matches ActionView::Layout {
            poem,
            attribution,
        } && poem.text == strings[content_path()] && attribution.text == "——《"@
            + strings[title_path()] + "》"@ + strings[dynasty_path()] + "·"@
            + strings[author_path()],
        step_of(
            context,
            Stage::LayingOut,
            Event::Fragments(poem_fragment, attribution_fragment),
        ) == (
            Stage::Responded,
            (ActionView::Respond {
                status: 200,
                content_type: "text/html"@,
                body: page_text(poem_fragment@, attribution_fragment@),
            }),
        ),
{
}

/// An answer that is no JSON object, or that lacks the poem's text, its
/// title, its dynasty or its author, ends the request with status 500 and an
/// empty body.
pub proof fn lemma_incomplete_answer_is_refused(context: AppContext, answer: Vec<u8>)
    requires
        json_parsed(answer@) matches Some(strings) ==> !strings.contains_key(content_path())
            || !strings.contains_key(title_path()) || !strings.contains_key(dynasty_path())
            || !strings.contains_key(author_path()),
    ensures
        step_of(context, Stage::Fetching, Event::PoemBody(answer)) == (
            Stage::Responded,
            (ActionView::Respond { status: 500, content_type: Seq::empty(), body: Seq::empty() }),
        ),
{
}

/// A failure to reach the poem service, or of the renderer, ends a request
/// that is under way with status 500 and an empty body.
pub proof fn lemma_outside_failure_is_refused(context: AppContext, stage: Stage, event: Event)
    requires
        stage != Stage::Responded,
        event is FetchFailed || event is LayoutFailed,
    ensures
        step_of(context, stage, event) == (
            Stage::Responded,
            (ActionView::Respond { status: 500, content_type: Seq::empty(), body: Seq::empty() }),
        ),
{
}

/// No partial page is ever given: a response is either the failure, or has
/// status 200 and is the whole page, which holds both of the fragments that
/// were just handed in.
pub proof fn lemma_response_is_whole_or_empty(context: AppContext, stage: Stage, event: Event)
    ensures
        step_of(context, stage, event).1 matches ActionView::Respond { status, content_type, body }
            ==> step_of(context, stage, event).1 == failure() || (status == 200 && content_type
            == "text/html"@ && stage == Stage::LayingOut && (event matches Event::Fragments(
            poem,
            attribution,
        ) && body == page_text(poem@, attribution@))),
{
}

/// A request only moves forward, and a response ends it: every step either
/// reaches `Responded` or the stage that follows; the action is a response
/// exactly when `Responded` is reached from another stage; and after the
/// response nothing is done.
pub proof fn lemma_request_moves_forward(context: AppContext, stage: Stage, event: Event)
    ensures
        step_of(context, stage, event).0 == Stage::Responded || stage_rank(
            step_of(context, stage, event).0,
        ) == stage_rank(stage) + 1,
        stage != Stage::Responded ==> (step_of(context, stage, event).0 == Stage::Responded
            <==> step_of(context, stage, event).1 is Respond),
        stage == Stage::Responded ==> step_of(context, stage, event) == (
            Stage::Responded,
            ActionView::Nothing,
        ),
{
}

} // verus!
