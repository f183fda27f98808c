//! The poem record: where its four strings stand in the poem service's
//! answer, and how the attribution line is worded.

use vstd::prelude::*;
use crate::json::{json_parsed, json_strings, parse_object, member, string_member, string_at, below, KeyPath};

verus! {

/// One poem sentence with its origin.
#[derive(Debug, Clone, PartialEq, Eq)]
pub struct PoemRecord {
    pub content: String,
    pub title: String,
    pub dynasty: String,
    pub author: String,
}

/// The mathematical value of a `PoemRecord`.
pub struct PoemView {
    pub content: Seq<char>,
    pub title: Seq<char>,
    pub dynasty: Seq<char>,
    pub author: Seq<char>,
}

impl View for PoemRecord {
    type V = PoemView;

    open spec fn view(&self) -> PoemView {
        PoemView {
            content: self.content@,
            title: self.title@,
            dynasty: self.dynasty@,
            author: self.author@,
        }
    }
}

/// Why an answer of the poem service yields no record.
#[derive(Debug, Clone, Copy, PartialEq, Eq, Structural)]
pub enum PoemError {
    /// The bytes are not a JSON object.
    InvalidJson,
    /// One of the four strings is absent, or is no string, or an object on
    /// the way to it is absent or is no object.
    MissingField,
}

/// Keys to the poem's text: `data.content`.
pub open spec fn content_path() -> KeyPath {
    seq!["data"@, "content"@]
}

/// Keys to the title: `data.origin.title`.
pub open spec fn title_path() -> KeyPath {
    seq!["data"@, "origin"@, "title"@]
}

/// Keys to the dynasty: `data.origin.dynasty`.
pub open spec fn dynasty_path() -> KeyPath {
    seq!["data"@, "origin"@, "dynasty"@]
}

/// Keys to the author: `data.origin.author`.
pub open spec fn author_path() -> KeyPath {
    seq!["data"@, "origin"@, "author"@]
}

/// The record that a document's strings make up: all four must be there.
pub open spec fn poem_of(strings: Map<KeyPath, Seq<char>>) -> Option<PoemView> {
    if strings.contains_key(content_path()) && strings.contains_key(title_path())
        && strings.contains_key(dynasty_path()) && strings.contains_key(author_path()) {
        Some(
            PoemView {
                content: strings[content_path()],
                title: strings[title_path()],
                dynasty: strings[dynasty_path()],
                author: strings[author_path()],
            },
        )
    } else {
        None
    }
}

/// The record read from an answer, given what the JSON reader made of it.
pub open spec fn poem_result(parsed: Option<Map<KeyPath, Seq<char>>>) -> Result<PoemView, PoemError> {
    match parsed {
        None => Err(PoemError::InvalidJson),
        Some(strings) => match poem_of(strings) {
            Some(poem) => Ok(poem),
            None => Err(PoemError::MissingField),
        },
    }
}

/// The attribution line: two em dashes, the title in guillemets, the
/// dynasty, a middle dot, the author.
pub open spec fn attribution_of(poem: PoemView) -> Seq<char> {
    "——《"@ + poem.title + "》"@ + poem.dynasty + "·"@ + poem.author
}

impl PoemRecord {
    /// The attribution line of this poem.
    pub fn attribution(&self) -> (line: String)
        ensures
            line@ == attribution_of(self@),
    {
        let mut line = "——《".to_owned();
        line.append(self.title.as_str());
        line.append("》");
        line.append(self.dynasty.as_str());
        line.append("·");
        line.append(self.author.as_str());
        line
    }
}

/// Reads the record out of a parsed answer.
///
/// Succeeds exactly when the document holds strings at `data.content`,
/// `data.origin.title`, `data.origin.dynasty` and `data.origin.author`.
pub fn extract_poem(doc: &serde_json::Value) -> (r: Result<PoemRecord, PoemError>)
    ensures
        match r {
            Ok(poem) => poem_of(json_strings(*doc)) == Some(poem@),
            Err(e) => e == PoemError::MissingField && poem_of(json_strings(*doc)) is None,
        },
{
    let ghost strings = json_strings(*doc);
    proof {
        assert(below("data"@, seq!["content"@]) =~= content_path());
        assert(below("data"@, below("origin"@, seq!["title"@])) =~= title_path());
        assert(below("data"@, below("origin"@, seq!["dynasty"@])) =~= dynasty_path());
        assert(below("data"@, below("origin"@, seq!["author"@])) =~= author_path());
    }
    let data = match member(doc, "data") {
        Some(data) => data,
        None => {
            assert(string_at(strings, below("data"@, seq!["content"@])) is None);
            return Err(PoemError::MissingField);
        },
    };
    assert(string_at(json_strings(*data), seq!["content"@]) == string_at(strings, content_path()));
    let content = match string_member(data, "content") {
        Some(content) => content,
        None => {
            return Err(PoemError::MissingField);
        },
    };
    let origin = match member(data, "origin") {
        Some(origin) => origin,
        None => {
            assert(string_at(json_strings(*data), below("origin"@, seq!["title"@])) is None);
            assert(string_at(strings, below("data"@, below("origin"@, seq!["title"@]))) is None);
            return Err(PoemError::MissingField);
        },
    };
    assert(string_at(json_strings(*origin), seq!["title"@]) == string_at(strings, title_path())) by {
        assert(string_at(json_strings(*origin), seq!["title"@]) == string_at(
            json_strings(*data),
            below("origin"@, seq!["title"@]),
        ));
    }
    assert(string_at(json_strings(*origin), seq!["dynasty"@]) == string_at(strings, dynasty_path()))
        by {
        assert(string_at(json_strings(*origin), seq!["dynasty"@]) == string_at(
            json_strings(*data),
            below("origin"@, seq!["dynasty"@]),
        ));
    }
    assert(string_at(json_strings(*origin), seq!["author"@]) == string_at(strings, author_path()))
        by {
        assert(string_at(json_strings(*origin), seq!["author"@]) == string_at(
            json_strings(*data),
            below("origin"@, seq!["author"@]),
        ));
    }
    let title = match string_member(origin, "title") {
        Some(title) => title,
        None => {
            return Err(PoemError::MissingField);
        },
    };
    let dynasty = match string_member(origin, "dynasty") {
        Some(dynasty) => dynasty,
        None => {
            return Err(PoemError::MissingField);
        },
    };
    let author = match string_member(origin, "author") {
        Some(author) => author,
        None => {
            return Err(PoemError::MissingField);
        },
    };
    Ok(PoemRecord { content, title, dynasty, author })
}

/// Reads the record out of the bytes of an answer.
///
/// Fails with `InvalidJson` exactly when the bytes are no JSON object, and
/// with `MissingField` exactly when they are one that lacks one of the four
/// strings.
pub fn parse_poem(body: &[u8]) -> (r: Result<PoemRecord, PoemError>)
    ensures
        match r {
            Ok(poem) => poem_result(json_parsed(body@)) == Ok::<PoemView, PoemError>(poem@),
            Err(e) => poem_result(json_parsed(body@)) == Err::<PoemView, PoemError>(e),
        },
{
    match parse_object(body) {
        Ok(doc) => extract_poem(&doc),
        Err(_) => Err(PoemError::InvalidJson),
    }
}

} // verus!
