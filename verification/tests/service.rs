use crm::content::{ContentItem, ContentSet};
use crm::message::{OutboundMessage, RecipientRecord};
use crm::pipeline::{PipelineError, PipelineRequest};
use crm::producer::SourceEvent;
use crm::query::RecordQuery;
use crm::service::{
    run, run_with, Collaborators, CrmService, Outcome, RecallRequest, RecallResponse, RemindRequest,
    RemindResponse, Unresolved, WelcomeRequest, WelcomeResponse,
};
use crm::window::{Campaign, Timestamp};

fn item(id: u32) -> ContentItem {
    ContentItem { id, name: format!("item {}", id), url: format!("https://content/{}", id) }
}

fn valid(email: &str) -> SourceEvent {
    SourceEvent::Record(RecipientRecord { email: email.to_string(), name: String::new() })
}

fn now() -> Timestamp {
    Timestamp { secs: 1_431_820_800, nanos: 0 }
}

fn message(label: &str, email: &str, contents: Vec<ContentItem>) -> OutboundMessage {
    OutboundMessage {
        label: label.to_string(),
        sender: "noreply@crm".to_string(),
        recipients: vec![email.to_string()],
        contents: ContentSet::from_items(contents),
    }
}

fn answers(source: Vec<SourceEvent>, contents: Vec<Result<ContentItem, Unresolved>>) -> Collaborators {
    Collaborators { source: Some(source), contents: Some(contents), sink_accepts: true }
}

#[test]
fn service_keeps_its_sender() {
    assert_eq!(CrmService::new("noreply@crm").sender_email(), "noreply@crm");
}

#[test]
fn welcome_sends_one_message_to_each_of_two_recipients() {
    let service = CrmService::new("noreply@crm");
    let req = WelcomeRequest { id: "w-1".to_string(), interval: 93, content_ids: vec![1] };
    let outcome = service.welcome(req, now(), answers(vec![valid("a@x.com"), valid("b@x.com")], vec![Ok(item(1))]));
    assert_eq!(
        outcome,
        Outcome {
            reply: Ok(WelcomeResponse { id: "w-1".to_string() }),
            sent: vec![
                message("Welcome", "a@x.com", vec![item(1)]),
                message("Welcome", "b@x.com", vec![item(1)]),
            ],
        }
    );
}

#[test]
fn remind_with_an_empty_source_still_replies() {
    let service = CrmService::new("noreply@crm");
    let req = RemindRequest { id: "r-7".to_string(), last_visit_interval: 93 };
    let outcome = service.remind(
        req,
        now(),
        Collaborators { source: Some(vec![]), contents: None, sink_accepts: true },
    );
    assert_eq!(outcome, Outcome { reply: Ok(RemindResponse { id: "r-7".to_string() }), sent: vec![] });
}

#[test]
fn remind_sends_under_the_recall_label_without_content() {
    let service = CrmService::new("noreply@crm");
    let req = RemindRequest { id: "r-8".to_string(), last_visit_interval: 3 };
    let outcome = service.remind(req, now(), answers(vec![valid("a@x.com")], vec![Ok(item(1)), Ok(item(2))]));
    assert_eq!(
        outcome,
        Outcome {
            reply: Ok(RemindResponse { id: "r-8".to_string() }),
            sent: vec![message("Recall", "a@x.com", vec![])],
        }
    );
}

#[test]
fn recall_attaches_what_was_resolved_to_every_message() {
    let service = CrmService::new("noreply@crm");
    let req = RecallRequest { id: "c-1".to_string(), last_visit_interval: 7, content_ids: vec![1, 2, 3] };
    let outcome = service.recall(
        req,
        now(),
        answers(
            vec![valid("a@x.com"), SourceEvent::Rejected, valid("b@x.com")],
            vec![Ok(item(3)), Err(Unresolved), Ok(item(1))],
        ),
    );
    assert_eq!(
        outcome,
        Outcome {
            reply: Ok(RecallResponse { id: "c-1".to_string() }),
            sent: vec![
                message("Recall", "a@x.com", vec![item(3), item(1)]),
                message("Recall", "b@x.com", vec![item(3), item(1)]),
            ],
        }
    );
}

#[test]
fn no_identifiers_and_no_answers_give_empty_content_lists() {
    let service = CrmService::new("noreply@crm");
    let req = WelcomeRequest { id: "w-2".to_string(), interval: 1, content_ids: vec![] };
    let outcome = service.welcome(req, now(), answers(vec![valid("a@x.com"), valid("b@x.com")], vec![]));
    assert_eq!(outcome.reply, Ok(WelcomeResponse { id: "w-2".to_string() }));
    assert_eq!(outcome.sent.len(), 2);
    for m in &outcome.sent {
        assert!(m.contents.is_empty());
    }
}

#[test]
fn more_records_than_the_queue_holds_all_arrive_in_order() {
    let service = CrmService::new("noreply@crm");
    let emails: Vec<String> = (0..3000).map(|i| format!("user{}@x.com", i)).collect();
    let source: Vec<SourceEvent> = emails.iter().map(|e| valid(e)).collect();
    let req = RecallRequest { id: "c-2".to_string(), last_visit_interval: 7, content_ids: vec![] };
    let outcome = service.recall(req, now(), answers(source, vec![]));
    assert_eq!(outcome.reply, Ok(RecallResponse { id: "c-2".to_string() }));
    let got: Vec<String> = outcome.sent.iter().map(|m| m.recipients[0].clone()).collect();
    assert_eq!(got, emails);
}

#[test]
fn unopened_source_fails_the_invocation_before_any_message() {
    let service = CrmService::new("noreply@crm");
    let req = WelcomeRequest { id: "w-3".to_string(), interval: 1, content_ids: vec![1] };
    let outcome = service.welcome(
        req,
        now(),
        Collaborators { source: None, contents: Some(vec![Ok(item(1))]), sink_accepts: true },
    );
    assert_eq!(outcome, Outcome { reply: Err(PipelineError::Source), sent: vec![] });
}

#[test]
fn failed_materializer_fails_the_invocation_before_any_message() {
    let service = CrmService::new("noreply@crm");
    let req = RecallRequest { id: "c-3".to_string(), last_visit_interval: 1, content_ids: vec![1] };
    let outcome = service.recall(
        req,
        now(),
        Collaborators { source: Some(vec![valid("a@x.com")]), contents: None, sink_accepts: true },
    );
    assert_eq!(outcome, Outcome { reply: Err(PipelineError::Source), sent: vec![] });
}

#[test]
fn refusing_sink_fails_the_invocation() {
    let service = CrmService::new("noreply@crm");
    let req = RemindRequest { id: "r-9".to_string(), last_visit_interval: 1 };
    let outcome = service.remind(
        req,
        now(),
        Collaborators { source: Some(vec![valid("a@x.com")]), contents: None, sink_accepts: false },
    );
    assert_eq!(
        outcome,
        Outcome { reply: Err(PipelineError::Delivery), sent: vec![message("Recall", "a@x.com", vec![])] }
    );
}

#[test]
fn window_out_of_range_fails_the_invocation() {
    let service = CrmService::new("noreply@crm");
    let early = Timestamp { secs: i64::MIN, nanos: 0 };
    let req = WelcomeRequest { id: "w-4".to_string(), interval: 1, content_ids: vec![] };
    let outcome = service.welcome(req, early, answers(vec![valid("a@x.com")], vec![]));
    assert_eq!(outcome, Outcome { reply: Err(PipelineError::Window), sent: vec![] });
    let req = RecallRequest { id: "c-4".to_string(), last_visit_interval: u32::MAX, content_ids: vec![] };
    let outcome = service.recall(req, now(), answers(vec![valid("a@x.com")], vec![]));
    assert_eq!(outcome, Outcome { reply: Err(PipelineError::Window), sent: vec![] });
}

#[test]
fn run_is_what_the_entry_points_do() {
    let request = PipelineRequest { request_id: "x".to_string(), interval_days: 2, content_ids: vec![5] };
    let outcome = run(
        Campaign::Welcome,
        request,
        "noreply@crm",
        now(),
        answers(vec![valid("a@x.com"), SourceEvent::Exhausted, valid("b@x.com")], vec![Ok(item(5))]),
    );
    assert_eq!(
        outcome,
        Outcome { reply: Ok("x".to_string()), sent: vec![message("Welcome", "a@x.com", vec![item(5)])] }
    );
}

#[test]
fn run_with_takes_the_question_as_given() {
    let request = PipelineRequest { request_id: "x".to_string(), interval_days: 2, content_ids: vec![] };
    let question = RecordQuery::Statement { text: "SELECT email, name FROM user_stats".to_string() };
    let outcome = run_with(
        Campaign::Remind,
        request.clone(),
        "noreply@crm",
        Some(question),
        answers(vec![valid("a@x.com")], vec![]),
    );
    assert_eq!(outcome, Outcome { reply: Ok("x".to_string()), sent: vec![message("Recall", "a@x.com", vec![])] });
    let outcome = run_with(Campaign::Remind, request, "noreply@crm", None, answers(vec![valid("a@x.com")], vec![]));
    assert_eq!(outcome, Outcome { reply: Err(PipelineError::Window), sent: vec![] });
}
