//! The access token: used as cached where there is one, else read from the
//! token service's answer.

use vstd::prelude::*;
use crate::json::{json_parsed, json_strings, parse_object, string_member, string_at, KeyPath};

verus! {

/// Where a fresh token is asked for.
pub const TOKEN_URL: &'static str = "https://v2.jinrishici.com/token";

/// The file that keeps the token from one run to the next.
pub const TOKEN_FILE: &'static str = ".token";

/// Why an answer of the token service yields no token.
#[derive(Debug, Clone, Copy, PartialEq, Eq, Structural)]
pub enum TokenError {
    /// The bytes are not a JSON object.
    InvalidJson,
    /// The object has no string under `data`.
    MissingToken,
}

/// Keys to the token: `data`.
pub open spec fn token_path() -> KeyPath {
    seq!["data"@]
}

/// The token read from an answer, given what the JSON reader made of it.
pub open spec fn token_result(parsed: Option<Map<KeyPath, Seq<char>>>) -> Result<Seq<char>, TokenError> {
    match parsed {
        None => Err(TokenError::InvalidJson),
        Some(strings) => match string_at(strings, token_path()) {
            Some(token) => Ok(token),
            None => Err(TokenError::MissingToken),
        },
    }
}

/// Reads the token out of a parsed answer: the string under `data`.
pub fn extract_token(doc: &serde_json::Value) -> (r: Result<String, TokenError>)
    ensures
        match r {
            Ok(token) => string_at(json_strings(*doc), token_path()) == Some(token@),
            Err(e) => e == TokenError::MissingToken && string_at(json_strings(*doc), token_path())
                is None,
        },
{
    match string_member(doc, "data") {
        Some(token) => Ok(token),
        None => Err(TokenError::MissingToken),
    }
}

/// Reads the token out of the bytes of the token service's answer.
pub fn token_from_response(body: &[u8]) -> (r: Result<String, TokenError>)
    ensures
        match r {
            Ok(token) => token_result(json_parsed(body@)) == Ok::<Seq<char>, TokenError>(token@),
            Err(e) => token_result(json_parsed(body@)) == Err::<Seq<char>, TokenError>(e),
        },
{
    match parse_object(body) {
        Ok(doc) => extract_token(&doc),
        Err(_) => Err(TokenError::InvalidJson),
    }
}

/// How far the provisioning of the token has come.
#[derive(Debug, Clone, PartialEq, Eq)]
pub enum TokenStage {
    /// Nothing was done yet.
    Start,
    /// The token file is being read.
    ReadingCache,
    /// The token service was asked.
    Fetching,
    /// This fresh token is being written to the token file.
    Storing(String),
    /// The token was handed out, or startup was given up.
    Done,
}

/// The mathematical value of a `TokenStage`.
pub enum TokenStageView {
    Start,
    ReadingCache,
    Fetching,
    Storing(Seq<char>),
    Done,
}

impl View for TokenStage {
    type V = TokenStageView;

    open spec fn view(&self) -> TokenStageView {
        match self {
            TokenStage::Start => TokenStageView::Start,
            TokenStage::ReadingCache => TokenStageView::ReadingCache,
            TokenStage::Fetching => TokenStageView::Fetching,
            TokenStage::Storing(token) => TokenStageView::Storing(token@),
            TokenStage::Done => TokenStageView::Done,
        }
    }
}

/// What the outside world reports while the token is provisioned.
#[derive(Debug, Clone, PartialEq, Eq)]
pub enum TokenEvent {
    /// The process starts.
    Begin,
    /// The token file holds this text.
    Cached(String),
    /// The token file could not be read.
    NoCache,
    /// The token service answered with these bytes.
    Answer(Vec<u8>),
    /// The token service could not be reached.
    FetchFailed,
    /// The token file was written.
    Stored,
    /// The token file could not be written.
    StoreFailed,
}

/// What the outside world is to do next for the token.
#[derive(Debug, Clone, PartialEq, Eq)]
pub enum TokenAction {
    /// Read the file of this name.
    ReadCache(String),
    /// Ask the token service at this address, without a token.
    Fetch(String),
    /// Write the token to the file of this name.
    Store { path: String, token: String },
    /// Serve requests with this token.
    Ready(String),
    /// Give up startup.
    Abort,
    /// Nothing: provisioning is over.
    Nothing,
}

/// The mathematical value of a `TokenAction`.
pub enum TokenActionView {
    ReadCache(Seq<char>),
    Fetch(Seq<char>),
    Store { path: Seq<char>, token: Seq<char> },
    Ready(Seq<char>),
    Abort,
    Nothing,
}

impl View for TokenAction {
    type V = TokenActionView;

    open spec fn view(&self) -> TokenActionView {
        match self {
            TokenAction::ReadCache(path) => TokenActionView::ReadCache(path@),
            TokenAction::Fetch(url) => TokenActionView::Fetch(url@),
            TokenAction::Store { path, token } => TokenActionView::Store {
                path: path@,
                token: token@,
            },
            TokenAction::Ready(token) => TokenActionView::Ready(token@),
            TokenAction::Abort => TokenActionView::Abort,
            TokenAction::Nothing => TokenActionView::Nothing,
        }
    }
}

/// What follows the token service's answer, given what the JSON reader made
/// of it: the token is stored, or startup is given up.
pub open spec fn after_answer(parsed: Option<Map<KeyPath, Seq<char>>>) -> (
    TokenStageView,
    TokenActionView,
) {
    match token_result(parsed) {
        Ok(token) => (
            TokenStageView::Storing(token),
            TokenActionView::Store { path: ".token"@, token },
        ),
        Err(_) => (TokenStageView::Done, TokenActionView::Abort),
    }
}

/// The provisioning's transition. The token file is read first; its text is
/// the token, whatever it holds. Without it the token service is asked once,
/// and its token is written to the file before it is handed out. Every
/// failure on that way, and every event that the stage does not await, gives
/// up startup.
pub open spec fn provision_of(stage: TokenStage, event: TokenEvent) -> (
    TokenStageView,
    TokenActionView,
) {
    match stage {
        TokenStage::Done => (TokenStageView::Done, TokenActionView::Nothing),
        TokenStage::Start => match event {
            TokenEvent::Begin => (
                TokenStageView::ReadingCache,
                TokenActionView::ReadCache(".token"@),
            ),
            _ => (TokenStageView::Done, TokenActionView::Abort),
        },
        TokenStage::ReadingCache => match event {
            TokenEvent::Cached(token) => (TokenStageView::Done, TokenActionView::Ready(token@)),
            TokenEvent::NoCache => (
                TokenStageView::Fetching,
                TokenActionView::Fetch("https://v2.jinrishici.com/token"@),
            ),
            _ => (TokenStageView::Done, TokenActionView::Abort),
        },
        TokenStage::Fetching => match event {
            TokenEvent::Answer(bytes) => after_answer(json_parsed(bytes@)),
            _ => (TokenStageView::Done, TokenActionView::Abort),
        },
        TokenStage::Storing(token) => match event {
            TokenEvent::Stored => (TokenStageView::Done, TokenActionView::Ready(token@)),
            _ => (TokenStageView::Done, TokenActionView::Abort),
        },
    }
}

/// What follows the reading of the token service's answer: a token is
/// stored, an error gives up startup.
pub fn on_answer(read: Result<String, TokenError>) -> (r: (TokenStage, TokenAction))
    ensures
        match read {
            Ok(token) => r.0@ == TokenStageView::Storing(token@) && r.1@ == (
                TokenActionView::Store { path: ".token"@, token: token@ }),
            Err(_) => r.0@ == TokenStageView::Done && r.1@ == TokenActionView::Abort,
        },
{
    match read {
        Ok(token) => {
            let kept = token.clone();
            (TokenStage::Storing(kept), TokenAction::Store { path: TOKEN_FILE.to_owned(), token })
        },
        Err(_) => (TokenStage::Done, TokenAction::Abort),
    }
}

/// Takes one step of the provisioning of the token.
pub fn provision(stage: TokenStage, event: TokenEvent) -> (r: (TokenStage, TokenAction))
    ensures
        r.0@ == provision_of(stage, event).0,
        r.1@ == provision_of(stage, event).1,
{
    match stage {
        TokenStage::Done => (TokenStage::Done, TokenAction::Nothing),
        TokenStage::Start => match event {
            TokenEvent::Begin => (
                TokenStage::ReadingCache,
                TokenAction::ReadCache(TOKEN_FILE.to_owned()),
            ),
            _ => (TokenStage::Done, TokenAction::Abort),
        },
        TokenStage::ReadingCache => match event {
            TokenEvent::Cached(token) => (TokenStage::Done, TokenAction::Ready(token)),
            TokenEvent::NoCache => (TokenStage::Fetching, TokenAction::Fetch(TOKEN_URL.to_owned())),
            _ => (TokenStage::Done, TokenAction::Abort),
        },
        TokenStage::Fetching => match event {
            TokenEvent::Answer(bytes) => on_answer(token_from_response(bytes.as_slice())),
            _ => (TokenStage::Done, TokenAction::Abort),
        },
        TokenStage::Storing(token) => match event {
            TokenEvent::Stored => (TokenStage::Done, TokenAction::Ready(token)),
            _ => (TokenStage::Done, TokenAction::Abort),
        },
    }
}

/// A token that the token file holds is handed out as it is, and the token
/// service is never asked on the way: the file is read, and its text is the
/// token. So it is on every start, since nothing is written either.
pub proof fn lemma_cached_token_is_used_without_fetching(token: String)
    ensures
        provision_of(TokenStage::Start, TokenEvent::Begin) == (
            TokenStageView::ReadingCache,
            TokenActionView::ReadCache(".token"@),
        ),
        provision_of(TokenStage::ReadingCache, TokenEvent::Cached(token)) == (
            TokenStageView::Done,
            TokenActionView::Ready(token@),
        ),
{
}

/// The token service is asked only when the token file could not be read,
/// and the file is written only with the token that the service's answer
/// holds under `data`.
pub proof fn lemma_fetch_and_store_have_one_cause(stage: TokenStage, event: TokenEvent)
    ensures
        provision_of(stage, event).1 is Fetch ==> stage is ReadingCache && event is NoCache,
        provision_of(stage, event).1 matches TokenActionView::Store { path, token } ==> stage
            is Fetching && path == ".token"@ && (event matches TokenEvent::Answer(bytes)
            && token_result(json_parsed(bytes@)) == Ok::<Seq<char>, TokenError>(token)),
        provision_of(stage, event).1 matches TokenActionView::Ready(token) ==> match (stage, event) {
            (TokenStage::ReadingCache, TokenEvent::Cached(cached)) => cached@ == token,
            (TokenStage::Storing(kept), TokenEvent::Stored) => kept@ == token,
            _ => false,
        },
{
}

} // verus!
