use poem_page::handler::{
    fail, on_page, on_poem, request_poem, step, Action, AppContext, Event, FetchRequest, Response,
    Stage, PAGE_CONTENT_TYPE, POEM_URL, STATUS_FAILED, STATUS_OK, TOKEN_HEADER,
};
use poem_page::layout::FragmentJob;
use poem_page::page::{compose_page, TemplateError};
use poem_page::poem::{PoemError, PoemRecord};

fn context() -> AppContext {
    AppContext { token: "abc123".to_string() }
}

fn failure() -> (Stage, Action) {
    (
        Stage::Responded,
        Action::Respond(Response { status: 500, content_type: String::new(), body: String::new() }),
    )
}

fn every_event() -> Vec<Event> {
    vec![
        Event::Request,
        Event::FetchFailed,
        Event::PoemBody(
            br#"{"data":{"content":"a","origin":{"title":"t","dynasty":"d","author":"w"}}}"#.to_vec(),
        ),
        Event::LayoutFailed,
        Event::Fragments("<svg>1</svg>".to_string(), "<svg>2</svg>".to_string()),
    ]
}

const QUIET_NIGHT: &str =
    r#"{"data":{"content":"床前明月光","origin":{"title":"静夜思","dynasty":"唐","author":"李白"}}}"#;

#[test]
fn request_asks_the_poem_service_with_the_token() {
    let (stage, action) = step(&context(), Stage::Start, Event::Request);
    assert_eq!(stage, Stage::Fetching);
    assert_eq!(
        action,
        Action::Fetch(FetchRequest {
            url: "https://v2.jinrishici.com/sentence".to_string(),
            header_name: "X-User-Token".to_string(),
            header_value: "abc123".to_string(),
            timeout_seconds: 5,
        })
    );
    assert_eq!(POEM_URL, "https://v2.jinrishici.com/sentence");
    assert_eq!(TOKEN_HEADER, "X-User-Token");
    assert_eq!(request_poem("abc123"), (stage, action));
}

#[test]
fn end_to_end_quiet_night() {
    let ctx = context();
    let (stage, action) = step(&ctx, Stage::Start, Event::Request);
    assert!(matches!(action, Action::Fetch(_)));
    let (stage, action) = step(&ctx, stage, Event::PoemBody(QUIET_NIGHT.as_bytes().to_vec()));
    assert_eq!(stage, Stage::LayingOut);
    let (body, attribution) = match action {
        Action::Layout(body, attribution) => (body, attribution),
        other => panic!("unexpected action {:?}", other),
    };
    assert_eq!(body.text, "床前明月光");
    assert_eq!((body.size_numerator, body.size_denominator), (112, 2));
    assert_eq!(body.fill, "#cca4e3");
    assert_eq!(attribution.text, "——《静夜思》唐·李白");
    assert_eq!((attribution.size_numerator, attribution.size_denominator), (112, 3));
    assert_eq!(attribution.fill, "#e4c6d0");
    let body_svg = format!("<svg><path fill=\"{}\"/><!--{}--></svg>", body.fill, body.text);
    let attribution_svg =
        format!("<svg><path fill=\"{}\"/><!--{}--></svg>", attribution.fill, attribution.text);
    let (stage, action) =
        step(&ctx, stage, Event::Fragments(body_svg.clone(), attribution_svg.clone()));
    assert_eq!(stage, Stage::Responded);
    let response = match action {
        Action::Respond(response) => response,
        other => panic!("unexpected action {:?}", other),
    };
    assert_eq!(response.status, 200);
    assert_eq!(response.content_type, "text/html");
    assert_eq!(response.body.matches("<svg>").count(), 2);
    assert!(response.body.contains(&body_svg));
    assert!(response.body.contains(&attribution_svg));
    assert!(response.body.contains("——《静夜思》唐·李白"));
    assert_eq!(Ok(response.body), compose_page(&body_svg, &attribution_svg));
}

#[test]
fn incomplete_answers_end_with_the_failure() {
    let bodies = [
        r#"{"data":{"origin":{"title":"t","dynasty":"d","author":"w"}}}"#,
        r#"{"data":{"content":"a"}}"#,
        r#"{"data":{"content":"a","origin":{"dynasty":"d","author":"w"}}}"#,
        r#"{"data":{"content":"a","origin":{"title":"t","author":"w"}}}"#,
        r#"{"data":{"content":"a","origin":{"title":"t","dynasty":"d"}}}"#,
        r#"{"data":{"content":"a","origin":{"title":"t","dynasty":"d","author":5}}}"#,
        r#"{"data":{"content":"a","origin":{"title":"t","dynasty":"d","author":"w"}}"#,
        r#"not json at all"#,
        r#""#,
    ];
    for body in bodies {
        assert_eq!(
            step(&context(), Stage::Fetching, Event::PoemBody(body.as_bytes().to_vec())),
            failure()
        );
    }
}

#[test]
fn network_failure_ends_with_the_failure() {
    assert_eq!(step(&context(), Stage::Fetching, Event::FetchFailed), failure());
    assert_eq!(step(&context(), Stage::Start, Event::FetchFailed), failure());
    assert_eq!(step(&context(), Stage::LayingOut, Event::FetchFailed), failure());
}

#[test]
fn renderer_failure_ends_with_the_failure() {
    assert_eq!(step(&context(), Stage::LayingOut, Event::LayoutFailed), failure());
}

#[test]
fn unexpected_events_end_with_the_failure() {
    for event in every_event() {
        if event != Event::Request {
            assert_eq!(step(&context(), Stage::Start, event), failure());
        }
    }
    for event in every_event() {
        if !matches!(event, Event::PoemBody(_)) {
            assert_eq!(step(&context(), Stage::Fetching, event), failure());
        }
    }
    for event in every_event() {
        if !matches!(event, Event::Fragments(_, _)) {
            assert_eq!(step(&context(), Stage::LayingOut, event), failure());
        }
    }
}

#[test]
fn nothing_follows_the_response() {
    for event in every_event() {
        assert_eq!(step(&context(), Stage::Responded, event), (Stage::Responded, Action::Nothing));
    }
}

#[test]
fn failure_is_status_500_with_an_empty_body() {
    assert_eq!(fail(), failure());
    assert_eq!(STATUS_FAILED, 500);
    assert_eq!(STATUS_OK, 200);
    assert_eq!(PAGE_CONTENT_TYPE, "text/html");
}

#[test]
fn on_poem_plans_the_layout_or_fails() {
    let poem = PoemRecord {
        content: "c".to_string(),
        title: "t".to_string(),
        dynasty: "d".to_string(),
        author: "a".to_string(),
    };
    let (stage, action) = on_poem(Ok(poem));
    assert_eq!(stage, Stage::LayingOut);
    assert_eq!(
        action,
        Action::Layout(
            FragmentJob {
                text: "c".to_string(),
                size_numerator: 112,
                size_denominator: 2,
                height_numerator: 3,
                height_denominator: 2,
                fill: "#cca4e3".to_string(),
            },
            FragmentJob {
                text: "——《t》d·a".to_string(),
                size_numerator: 112,
                size_denominator: 3,
                height_numerator: 3,
                height_denominator: 2,
                fill: "#e4c6d0".to_string(),
            },
        )
    );
    assert_eq!(on_poem(Err(PoemError::InvalidJson)), failure());
    assert_eq!(on_poem(Err(PoemError::MissingField)), failure());
}

#[test]
fn on_page_serves_the_page_or_fails() {
    assert_eq!(
        on_page(Ok("<html></html>".to_string())),
        (
            Stage::Responded,
            Action::Respond(Response {
                status: 200,
                content_type: "text/html".to_string(),
                body: "<html></html>".to_string(),
            })
        )
    );
    assert_eq!(on_page(Err(TemplateError)), failure());
}

#[test]
fn every_request_ends_within_three_steps() {
    for first in every_event() {
        for second in every_event() {
            for third in every_event() {
                let ctx = context();
                let (stage, _) = step(&ctx, Stage::Start, first.clone());
                let (stage, _) = step(&ctx, stage, second.clone());
                let (stage, _) = step(&ctx, stage, third.clone());
                assert_eq!(stage, Stage::Responded);
            }
        }
    }
}
