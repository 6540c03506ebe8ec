//! The three entry points of the pipeline, run from the request to the
//! reply against collaborators whose answers are given beforehand.

use crate::content::{answers_only, lemma_no_identifiers_no_content, resolved, ContentItem, ContentSet};
use crate::message::{message_for, MessageView, OutboundMessage, RecipientRecord};
use crate::pipeline::{question_at, Command, Invocation, PipelineError, PipelineEvent, PipelineRequest};
use crate::producer::{
    all_valid, lemma_every_message_carries_the_set, lemma_one_message_per_record, message_views, produced,
    SourceEvent,
};
use crate::query::{query_view, record_query, QueryView, RecordQuery};
use crate::queue::DEFAULT_CAPACITY;
use crate::relay::dispatch;
use crate::window::{Campaign, Timestamp};
use vstd::prelude::*;

verus! {

/// Stands for the failure to resolve one content identifier.
#[derive(Clone, Copy, Debug, PartialEq, Eq)]
pub struct Unresolved;

/// What the three outside collaborators answer during one invocation.
#[derive(Clone, Debug)]
pub struct Collaborators {
    /// What the record source yields once opened, or `None` where it
    /// cannot be opened.
    pub source: Option<Vec<SourceEvent>>,
    /// What the materializer answers, item by item, or `None` where the
    /// call to it fails.
    pub contents: Option<Vec<Result<ContentItem, Unresolved>>>,
    /// Whether the sink acknowledges the stream it is handed.
    pub sink_accepts: bool,
}

/// How one invocation ended.
#[derive(Debug, PartialEq, Eq)]
pub struct Outcome<R> {
    /// The reply, or the error in its place.
    pub reply: Result<R, PipelineError>,
    /// The messages that were handed to the sink, in order.
    pub sent: Vec<OutboundMessage>,
}

/// A request to welcome those who joined `interval` days ago.
#[derive(Clone, Debug, PartialEq, Eq)]
pub struct WelcomeRequest {
    pub id: String,
    pub interval: u32,
    pub content_ids: Vec<u32>,
}

/// A request to call back those who were active in the last
/// `last_visit_interval` days.
#[derive(Clone, Debug, PartialEq, Eq)]
pub struct RecallRequest {
    pub id: String,
    pub last_visit_interval: u32,
    pub content_ids: Vec<u32>,
}

/// A request to remind those who left something unfinished in the last
/// `last_visit_interval` days.
#[derive(Clone, Debug, PartialEq, Eq)]
pub struct RemindRequest {
    pub id: String,
    pub last_visit_interval: u32,
}

/// The reply to a [`WelcomeRequest`]: the request's identifier.
#[derive(Clone, Debug, PartialEq, Eq)]
pub struct WelcomeResponse {
    pub id: String,
}

/// The reply to a [`RecallRequest`]: the request's identifier.
#[derive(Clone, Debug, PartialEq, Eq)]
pub struct RecallResponse {
    pub id: String,
}

/// The reply to a [`RemindRequest`]: the request's identifier.
#[derive(Clone, Debug, PartialEq, Eq)]
pub struct RemindResponse {
    pub id: String,
}

impl View for WelcomeResponse {
    type V = Seq<char>;

    open spec fn view(&self) -> Seq<char> {
        self.id@
    }
}

impl View for RecallResponse {
    type V = Seq<char>;

    open spec fn view(&self) -> Seq<char> {
        self.id@
    }
}

impl View for RemindResponse {
    type V = Seq<char>;

    open spec fn view(&self) -> Seq<char> {
        self.id@
    }
}

/// The view of a reply or of the error in its place.
pub open spec fn reply_view<R: View>(reply: Result<R, PipelineError>) -> Result<R::V, PipelineError> {
    match reply {
        Ok(r) => Ok(r@),
        Err(e) => Err(e),
    }
}

/// The collaborators' answers as mathematical values.
pub struct AnswersView {
    pub source: Option<Seq<SourceEvent>>,
    pub contents: Option<Seq<Result<ContentItem, Unresolved>>>,
    pub sink_accepts: bool,
}

impl View for Collaborators {
    type V = AnswersView;

    open spec fn view(&self) -> AnswersView {
        AnswersView {
            source: match self.source {
                Some(events) => Some(events@),
                None => None,
            },
            contents: match self.contents {
                Some(outcomes) => Some(outcomes@),
                None => None,
            },
            sink_accepts: self.sink_accepts,
        }
    }
}

/// How an invocation ends, given its question and the collaborators'
/// answers: the reply or the error, and the messages handed to the
/// sink.
///
/// Without a question, without a source, or, for a campaign that
/// carries content, without an answer from the materializer, the
/// invocation fails before any message exists. Otherwise the sink is
/// handed one message for each record of the source, all with the
/// resolved content, and its acknowledgement decides between the reply,
/// which echoes the request's identifier, and a delivery error.
pub open spec fn run_of(
    campaign: Campaign,
    request_id: Seq<char>,
    sender: Seq<char>,
    query: Option<QueryView>,
    answers: AnswersView,
) -> (Result<Seq<char>, PipelineError>, Seq<MessageView>) {
    if query is None {
        (Err(PipelineError::Window), Seq::empty())
    } else if answers.source is None {
        (Err(PipelineError::Source), Seq::empty())
    } else if campaign.carries_contents() && answers.contents is None {
        (Err(PipelineError::Source), Seq::empty())
    } else {
        let contents = if campaign.carries_contents() {
            resolved(answers.contents->Some_0)
        } else {
            Seq::empty()
        };
        (
            if answers.sink_accepts {
                Ok(request_id)
            } else {
                Err(PipelineError::Delivery)
            },
            produced(answers.source->Some_0, contents, campaign.label_text(), sender),
        )
    }
}

/// Every message that an invocation hands to the sink carries exactly
/// what the materializer resolved, the same for every recipient, and
/// nothing where the campaign carries no content.
pub proof fn lemma_sent_carry_what_was_resolved(
    campaign: Campaign,
    request_id: Seq<char>,
    sender: Seq<char>,
    query: Option<QueryView>,
    answers: AnswersView,
)
    ensures
        forall|i: int|
            0 <= i < run_of(campaign, request_id, sender, query, answers).1.len() ==> (#[trigger] run_of(
                campaign,
                request_id,
                sender,
                query,
                answers,
            ).1[i]).contents == (if campaign.carries_contents() {
                resolved(answers.contents->Some_0)
            } else {
                Seq::empty()
            }),
{
    if query is Some && answers.source is Some && !(campaign.carries_contents() && answers.contents is None) {
        let contents = if campaign.carries_contents() {
            resolved(answers.contents->Some_0)
        } else {
            Seq::empty()
        };
        lemma_every_message_carries_the_set(answers.source->Some_0, contents, campaign.label_text(), sender);
    }
}

/// When no content identifier is requested, and the materializer
/// answers only what was requested, every message that the invocation
/// hands to the sink has an empty content list.
pub proof fn lemma_no_identifiers_empty_content_lists(
    campaign: Campaign,
    request_id: Seq<char>,
    sender: Seq<char>,
    query: Option<QueryView>,
    ids: Seq<u32>,
    answers: AnswersView,
)
    requires
        ids.len() == 0,
        answers.contents is Some ==> answers_only(ids, answers.contents->Some_0),
    ensures
        forall|i: int|
            0 <= i < run_of(campaign, request_id, sender, query, answers).1.len() ==> (#[trigger] run_of(
                campaign,
                request_id,
                sender,
                query,
                answers,
            ).1[i]).contents.len() == 0,
{
    lemma_sent_carry_what_was_resolved(campaign, request_id, sender, query, answers);
    if answers.contents is Some {
        lemma_no_identifiers_no_content(ids, answers.contents->Some_0);
    }
}

/// An invocation whose source yields valid records only, and which gets
/// as far as the sink, hands the sink exactly one message for each
/// record, in the source's order.
pub proof fn lemma_sink_gets_one_message_per_record(
    campaign: Campaign,
    request_id: Seq<char>,
    sender: Seq<char>,
    query: QueryView,
    records: Seq<RecipientRecord>,
    contents: Seq<Result<ContentItem, Unresolved>>,
    sink_accepts: bool,
)
    ensures
        ({
            let answers = AnswersView { source: Some(all_valid(records)), contents: Some(contents), sink_accepts };
            let set = if campaign.carries_contents() {
                resolved(contents)
            } else {
                Seq::empty()
            };
            let sent = run_of(campaign, request_id, sender, Some(query), answers).1;
            &&& sent.len() == records.len()
            &&& sent == records.map_values(
                |r: RecipientRecord| message_for(r@, set, campaign.label_text(), sender),
            )
        }),
{
    let set = if campaign.carries_contents() {
        resolved(contents)
    } else {
        Seq::empty()
    };
    lemma_one_message_per_record(records, set, campaign.label_text(), sender);
}

/// Runs one invocation with the question that was put for it, if one
/// could be put, against the given answers.
pub fn run_with(
    campaign: Campaign,
    request: PipelineRequest,
    sender: &str,
    query: Option<RecordQuery>,
    answers: Collaborators,
) -> (outcome: Outcome<String>)
    ensures
        (reply_view(outcome.reply), message_views(outcome.sent@)) == run_of(
            campaign,
            request.request_id@,
            sender@,
            query_view(query),
            answers@,
        ),
{
    let (mut invocation, first) = Invocation::begin_with(campaign, request, sender, query);
    if let Command::Fail(error) = first {
        return Outcome { reply: Err(error), sent: nothing_sent() };
    }
    let Collaborators { source, contents, sink_accepts } = answers;
    let source = match source {
        Some(events) => events,
        None => {
            return Outcome { reply: failure(invocation.advance(PipelineEvent::SourceFailed)), sent: nothing_sent() };
        },
    };
    let producer = match invocation.advance(PipelineEvent::SourceOpened) {
        Command::Deliver(producer) => producer,
        _ => {
            let answered = match contents {
                Some(outcomes) => PipelineEvent::Materialized(ContentSet::gather(outcomes)),
                None => PipelineEvent::MaterializeFailed,
            };
            match invocation.advance(answered) {
                Command::Deliver(producer) => producer,
                other => {
                    return Outcome { reply: failure(other), sent: nothing_sent() };
                },
            }
        },
    };
    let sent = match dispatch(producer, source, DEFAULT_CAPACITY) {
        Some(messages) => messages,
        None => nothing_sent(),
    };
    let verdict = if sink_accepts {
        PipelineEvent::Delivered
    } else {
        PipelineEvent::DeliveryFailed
    };
    let reply = match invocation.advance(verdict) {
        Command::Respond(id) => Ok(id),
        other => failure(other),
    };
    Outcome { reply, sent }
}

/// The error that a command gives up with. Any other command leaves
/// the invocation without a reply, which counts as a failed delivery.
fn failure(command: Command) -> (reply: Result<String, PipelineError>)
    ensures
        reply == Err::<String, PipelineError>(
            match command@ {
                crate::pipeline::CommandView::Fail(error) => error,
                _ => PipelineError::Delivery,
            },
        ),
{
    match command {
        Command::Fail(error) => Err(error),
        _ => Err(PipelineError::Delivery),
    }
}

/// No messages.
fn nothing_sent() -> (sent: Vec<OutboundMessage>)
    ensures
        message_views(sent@) == Seq::<MessageView>::empty(),
{
    let sent: Vec<OutboundMessage> = Vec::new();
    assert(message_views(sent@) =~= Seq::<MessageView>::empty());
    sent
}

/// Runs one invocation at the time `now` against the given answers.
pub fn run(campaign: Campaign, request: PipelineRequest, sender: &str, now: Timestamp, answers: Collaborators) -> (outcome:
    Outcome<String>)
    ensures
        (reply_view(outcome.reply), message_views(outcome.sent@)) == run_of(
            campaign,
            request.request_id@,
            sender@,
            question_at(campaign, now, request.interval_days as nat),
            answers@,
        ),
{
    let query = match campaign.window(now, request.interval_days) {
        Some(window) => record_query(campaign, window),
        None => None,
    };
    run_with(campaign, request, sender, query, answers)
}

/// The service behind the three entry points. All its messages go out
/// from one sender address.
#[derive(Clone, Debug)]
pub struct CrmService {
    sender_email: String,
}

impl CrmService {
    /// The address that the service's messages come from.
    pub closed spec fn sender(&self) -> Seq<char> {
        self.sender_email@
    }

    /// A service that sends from `sender_email`.
    pub fn new(sender_email: &str) -> (service: CrmService)
        ensures
            service.sender() == sender_email@,
    {
        CrmService { sender_email: sender_email.to_owned() }
    }

    /// The address that the service's messages come from.
    pub fn sender_email(&self) -> (address: &str)
        ensures
            address@ == self.sender(),
    {
        self.sender_email.as_str()
    }

    /// Welcomes those who joined `interval` days ago, with the requested
    /// content.
    pub fn welcome(&self, req: WelcomeRequest, now: Timestamp, answers: Collaborators) -> (outcome: Outcome<
        WelcomeResponse,
    >)
        ensures
            (reply_view(outcome.reply), message_views(outcome.sent@)) == run_of(
                Campaign::Welcome,
                req.id@,
                self.sender(),
                question_at(Campaign::Welcome, now, req.interval as nat),
                answers@,
            ),
    {
        let request = PipelineRequest {
            request_id: req.id,
            interval_days: req.interval,
            content_ids: req.content_ids,
        };
        let Outcome { reply, sent } = run(Campaign::Welcome, request, self.sender_email.as_str(), now, answers);
        let reply = match reply {
            Ok(id) => Ok(WelcomeResponse { id }),
            Err(error) => Err(error),
        };
        Outcome { reply, sent }
    }

    /// Calls back those who were active in the last
    /// `last_visit_interval` days, with the requested content.
    pub fn recall(&self, req: RecallRequest, now: Timestamp, answers: Collaborators) -> (outcome: Outcome<
        RecallResponse,
    >)
        ensures
            (reply_view(outcome.reply), message_views(outcome.sent@)) == run_of(
                Campaign::Recall,
                req.id@,
                self.sender(),
                question_at(Campaign::Recall, now, req.last_visit_interval as nat),
                answers@,
            ),
    {
        let request = PipelineRequest {
            request_id: req.id,
            interval_days: req.last_visit_interval,
            content_ids: req.content_ids,
        };
        let Outcome { reply, sent } = run(Campaign::Recall, request, self.sender_email.as_str(), now, answers);
        let reply = match reply {
            Ok(id) => Ok(RecallResponse { id }),
            Err(error) => Err(error),
        };
        Outcome { reply, sent }
    }

    /// Reminds those who left something unfinished in the last
    /// `last_visit_interval` days. The messages carry no content and go
    /// out under the recall label.
    pub fn remind(&self, req: RemindRequest, now: Timestamp, answers: Collaborators) -> (outcome: Outcome<
        RemindResponse,
    >)
        ensures
            (reply_view(outcome.reply), message_views(outcome.sent@)) == run_of(
                Campaign::Remind,
                req.id@,
                self.sender(),
                question_at(Campaign::Remind, now, req.last_visit_interval as nat),
                answers@,
            ),
    {
        let request = PipelineRequest {
            request_id: req.id,
            interval_days: req.last_visit_interval,
            content_ids: Vec::new(),
        };
        let Outcome { reply, sent } = run(Campaign::Remind, request, self.sender_email.as_str(), now, answers);
        let reply = match reply {
            Ok(id) => Ok(RemindResponse { id }),
            Err(error) => Err(error),
        };
        Outcome { reply, sent }
    }
}

} // verus!
