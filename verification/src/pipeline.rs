//! One invocation of the pipeline, from the request to the reply: what
//! is asked of the outside collaborators, in which order, and what each
//! of their answers leads to.

use crate::content::{ContentSet, ContentView};
use crate::producer::{Producer, ProducerView};
use crate::query::{query_of, query_view, record_query, utc_text, QueryView, RecordQuery};
use crate::window::{Campaign, Timestamp};
use vstd::prelude::*;

verus! {

/// Why an invocation gave no reply.
#[derive(Clone, Copy, Debug, PartialEq, Eq, Structural)]
pub enum PipelineError {
    /// The time window of the request cannot be expressed.
    Window,
    /// The record source or the content materializer failed as a whole.
    Source,
    /// The delivery sink failed or turned the stream down.
    Delivery,
}

/// What identifies one invocation and what it asks for.
#[derive(Clone, Debug, PartialEq, Eq)]
pub struct PipelineRequest {
    /// Echoed in the reply.
    pub request_id: String,
    /// How many days back the campaign looks.
    pub interval_days: u32,
    /// The content to attach; a reminder attaches none.
    pub content_ids: Vec<u32>,
}

/// How far an invocation has come.
#[derive(Clone, Copy, Debug, PartialEq, Eq, Structural)]
pub enum Stage {
    /// The record source has been asked to open.
    OpeningSource,
    /// The materializer has been asked for the content.
    Materializing,
    /// The producer runs and the sink reads.
    Delivering,
    /// The reply has been given.
    Completed,
    /// The invocation has failed.
    Failed(PipelineError),
}

/// What the outside collaborators report back.
#[derive(Debug)]
pub enum PipelineEvent {
    /// The record source is open.
    SourceOpened,
    /// The record source could not be opened.
    SourceFailed,
    /// The materializer has answered; these are the items it resolved.
    Materialized(ContentSet),
    /// The call to the materializer failed.
    MaterializeFailed,
    /// The sink has acknowledged the stream.
    Delivered,
    /// The sink failed or turned the stream down.
    DeliveryFailed,
}

/// A [`PipelineEvent`] as mathematical values.
pub enum EventView {
    SourceOpened,
    SourceFailed,
    Materialized(Seq<ContentView>),
    MaterializeFailed,
    Delivered,
    DeliveryFailed,
}

impl View for PipelineEvent {
    type V = EventView;

    open spec fn view(&self) -> EventView {
        match self {
            PipelineEvent::SourceOpened => EventView::SourceOpened,
            PipelineEvent::SourceFailed => EventView::SourceFailed,
            PipelineEvent::Materialized(set) => EventView::Materialized(set@),
            PipelineEvent::MaterializeFailed => EventView::MaterializeFailed,
            PipelineEvent::Delivered => EventView::Delivered,
            PipelineEvent::DeliveryFailed => EventView::DeliveryFailed,
        }
    }
}

/// What the invocation wants done next.
#[derive(Debug)]
pub enum Command {
    /// Open the record source with this question.
    OpenSource(RecordQuery),
    /// Ask the materializer for the content with these identifiers.
    Materialize(Vec<u32>),
    /// Start this producer on the open source, and hand the receiving
    /// end of its queue to the sink.
    Deliver(Producer),
    /// Reply with this request identifier.
    Respond(String),
    /// Give up with this error, and reply nothing.
    Fail(PipelineError),
    /// Nothing: the event was not the one awaited.
    Wait,
}

/// A [`Command`] as mathematical values.
pub enum CommandView {
    OpenSource(QueryView),
    Materialize(Seq<u32>),
    Deliver(ProducerView),
    Respond(Seq<char>),
    Fail(PipelineError),
    Wait,
}

impl View for Command {
    type V = CommandView;

    open spec fn view(&self) -> CommandView {
        match self {
            Command::OpenSource(query) => CommandView::OpenSource(query@),
            Command::Materialize(ids) => CommandView::Materialize(ids@),
            Command::Deliver(producer) => CommandView::Deliver(producer@),
            Command::Respond(id) => CommandView::Respond(id@),
            Command::Fail(error) => CommandView::Fail(*error),
            Command::Wait => CommandView::Wait,
        }
    }
}

/// What an [`Invocation`] is, as mathematical values.
pub struct InvocationView {
    pub campaign: Campaign,
    pub request_id: Seq<char>,
    pub content_ids: Seq<u32>,
    pub sender: Seq<char>,
    pub stage: Stage,
}

impl InvocationView {
    /// The producer that the invocation starts for the given content:
    /// it labels every message with the campaign's label and sends it
    /// from the invocation's sender.
    pub open spec fn producer_for(self, contents: Seq<ContentView>) -> ProducerView {
        ProducerView {
            contents,
            label: self.campaign.label_text(),
            sender: self.sender,
            ending: None,
        }
    }

    /// The invocation at another stage.
    pub open spec fn at(self, stage: Stage) -> InvocationView {
        InvocationView { stage, ..self }
    }

    /// The invocation as it starts, and its first command. With a
    /// question to ask, the source is opened; without one, the
    /// invocation fails at once.
    pub open spec fn start(
        campaign: Campaign,
        request_id: Seq<char>,
        content_ids: Seq<u32>,
        sender: Seq<char>,
        query: Option<QueryView>,
    ) -> (InvocationView, CommandView) {
        let fresh = InvocationView { campaign, request_id, content_ids, sender, stage: Stage::OpeningSource };
        match query {
            Some(q) => (fresh, CommandView::OpenSource(q)),
            None => (
                fresh.at(Stage::Failed(PipelineError::Window)),
                CommandView::Fail(PipelineError::Window),
            ),
        }
    }

    /// The invocation after `event`, and what it wants done next. Each
    /// stage awaits the answer of one collaborator: a failure ends the
    /// invocation with an error, a success leads to the next stage, and
    /// the sink's acknowledgement to the reply. An event that the stage
    /// does not await changes nothing.
    pub open spec fn step(self, event: EventView) -> (InvocationView, CommandView) {
        match (self.stage, event) {
            (Stage::OpeningSource, EventView::SourceOpened) => if self.campaign.carries_contents() {
                (self.at(Stage::Materializing), CommandView::Materialize(self.content_ids))
            } else {
                (self.at(Stage::Delivering), CommandView::Deliver(self.producer_for(Seq::empty())))
            },
            (Stage::OpeningSource, EventView::SourceFailed) => (
                self.at(Stage::Failed(PipelineError::Source)),
                CommandView::Fail(PipelineError::Source),
            ),
            (Stage::Materializing, EventView::Materialized(contents)) => (
                self.at(Stage::Delivering),
                CommandView::Deliver(self.producer_for(contents)),
            ),
            (Stage::Materializing, EventView::MaterializeFailed) => (
                self.at(Stage::Failed(PipelineError::Source)),
                CommandView::Fail(PipelineError::Source),
            ),
            (Stage::Delivering, EventView::Delivered) => (
                self.at(Stage::Completed),
                CommandView::Respond(self.request_id),
            ),
            (Stage::Delivering, EventView::DeliveryFailed) => (
                self.at(Stage::Failed(PipelineError::Delivery)),
                CommandView::Fail(PipelineError::Delivery),
            ),
            _ => (self, CommandView::Wait),
        }
    }
}

/// The question that `campaign` asks at `now` with an interval of `days`
/// days, where its window can be placed and written.
pub open spec fn question_at(campaign: Campaign, now: Timestamp, days: nat) -> Option<QueryView> {
    match campaign.window_at(now, days) {
        Some(window) => query_of(
            campaign,
            window,
            utc_text(window.lower.secs, window.lower.nanos),
            utc_text(window.upper.secs, window.upper.nanos),
        ),
        None => None,
    }
}

/// One invocation of the pipeline.
#[derive(Debug)]
pub struct Invocation {
    campaign: Campaign,
    request_id: String,
    content_ids: Vec<u32>,
    sender: String,
    stage: Stage,
}

impl View for Invocation {
    type V = InvocationView;

    closed spec fn view(&self) -> InvocationView {
        InvocationView {
            campaign: self.campaign,
            request_id: self.request_id@,
            content_ids: self.content_ids@,
            sender: self.sender@,
            stage: self.stage,
        }
    }
}

/// A copy of a list of identifiers.
fn copy_ids(ids: &Vec<u32>) -> (copy: Vec<u32>)
    ensures
        copy@ == ids@,
{
    let mut copy: Vec<u32> = Vec::new();
    let mut i: usize = 0;
    while i < ids.len()
        invariant
            i <= ids.len(),
            copy@ == ids@.take(i as int),
        decreases ids.len() - i,
    {
        copy.push(ids[i]);
        i += 1;
        assert(copy@ =~= ids@.take(i as int));
    }
    assert(ids@.take(ids.len() as int) =~= ids@);
    copy
}

impl Invocation {
    /// Starts an invocation with the question that was put for it, if
    /// one could be put.
    pub fn begin_with(campaign: Campaign, request: PipelineRequest, sender: &str, query: Option<RecordQuery>) -> (started:
        (Invocation, Command))
        ensures
            (started.0@, started.1@) == InvocationView::start(
                campaign,
                request.request_id@,
                request.content_ids@,
                sender@,
                query_view(query),
            ),
    {
        let mut invocation = Invocation {
            campaign,
            request_id: request.request_id,
            content_ids: request.content_ids,
            sender: sender.to_owned(),
            stage: Stage::OpeningSource,
        };
        match query {
            Some(q) => (invocation, Command::OpenSource(q)),
            None => {
                invocation.stage = Stage::Failed(PipelineError::Window);
                (invocation, Command::Fail(PipelineError::Window))
            },
        }
    }

    /// Starts an invocation at the time `now`: places the campaign's
    /// window, puts its question, and asks for the source to be opened.
    /// Where the window cannot be placed or written, the invocation
    /// fails at once.
    pub fn begin(campaign: Campaign, request: PipelineRequest, sender: &str, now: Timestamp) -> (started: (
        Invocation,
        Command,
    ))
        ensures
            (started.0@, started.1@) == InvocationView::start(
                campaign,
                request.request_id@,
                request.content_ids@,
                sender@,
                question_at(campaign, now, request.interval_days as nat),
            ),
    {
        let query = match campaign.window(now, request.interval_days) {
            Some(window) => record_query(campaign, window),
            None => None,
        };
        Invocation::begin_with(campaign, request, sender, query)
    }

    /// How far the invocation has come.
    pub fn stage(&self) -> (stage: Stage)
        ensures
            stage == self@.stage,
    {
        self.stage
    }

    /// Takes a collaborator's answer and says what to do next.
    pub fn advance(&mut self, event: PipelineEvent) -> (command: Command)
        ensures
            (final(self)@, command@) == old(self)@.step(event@),
    {
        match (self.stage, event) {
            (Stage::OpeningSource, PipelineEvent::SourceOpened) => {
                if self.campaign.needs_contents() {
                    self.stage = Stage::Materializing;
                    Command::Materialize(copy_ids(&self.content_ids))
                } else {
                    self.stage = Stage::Delivering;
                    Command::Deliver(
                        Producer::new(ContentSet::empty(), self.campaign.label(), self.sender.as_str()),
                    )
                }
            },
            (Stage::OpeningSource, PipelineEvent::SourceFailed) => {
                self.stage = Stage::Failed(PipelineError::Source);
                Command::Fail(PipelineError::Source)
            },
            (Stage::Materializing, PipelineEvent::Materialized(contents)) => {
                self.stage = Stage::Delivering;
                Command::Deliver(Producer::new(contents, self.campaign.label(), self.sender.as_str()))
            },
            (Stage::Materializing, PipelineEvent::MaterializeFailed) => {
                self.stage = Stage::Failed(PipelineError::Source);
                Command::Fail(PipelineError::Source)
            },
            (Stage::Delivering, PipelineEvent::Delivered) => {
                self.stage = Stage::Completed;
                Command::Respond(self.request_id.clone())
            },
            (Stage::Delivering, PipelineEvent::DeliveryFailed) => {
                self.stage = Stage::Failed(PipelineError::Delivery);
                Command::Fail(PipelineError::Delivery)
            },
            _ => Command::Wait,
        }
    }
}

} // verus!
