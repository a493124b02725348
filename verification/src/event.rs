//! The update feed: what is announced after each mutation, and how it is
//! handed to the broadcast channel that fans it out to subscribers.

use crate::error::Error;
use tokio::sync::broadcast::Receiver;
use tokio::sync::broadcast::Sender;
use vstd::prelude::*;

verus! {

/// The sending half of tokio's broadcast channel. The library never looks
/// inside it.
#[verifier::external_type_specification]
#[verifier::external_body]
#[verifier::reject_recursive_types(T)]
pub struct ExSender<T>(Sender<T>);

/// The receiving half of tokio's broadcast channel, one per subscriber.
#[verifier::external_type_specification]
#[verifier::external_body]
#[verifier::reject_recursive_types(T)]
pub struct ExReceiver<T>(Receiver<T>);

/// The handle through which mutations are announced.
pub type FeedWriter = Sender<UpdateEvent>;

/// A subscriber's handle: it yields the events published after it was made.
pub type FeedReader = Receiver<UpdateEvent>;

/// What happened to an entity.
#[derive(Clone, Copy, Debug, PartialEq, Eq, Structural)]
pub enum UpdateKind {
    Create,
    Update,
    Destroy,
}

/// Which table an entity lives in.
#[derive(Clone, Copy, Debug, PartialEq, Eq, Structural)]
pub enum EntityType {
    Project,
    Task,
}

/// One notification: an entity was created, changed or destroyed.
#[derive(Clone, Copy, Debug, PartialEq, Eq, Structural)]
pub struct UpdateEvent {
    pub kind: UpdateKind,
    pub entity_id: u128,
    pub entity_type: EntityType,
}

/// The largest number of events that a feed may be asked to keep for a
/// subscriber that has fallen behind.
pub const MAX_FEED_CAPACITY: usize = 65536;

/// Calls `tokio::sync::broadcast::Sender::new`, which allocates a channel
/// that keeps at least `capacity` values for a receiver that has fallen
/// behind, and has no receiver yet. Nothing is claimed of the sender. The
/// call panics where `capacity` is zero or above `usize::MAX / 2`, which the
/// precondition leaves out, and where the allocation fails.
#[verifier::external_body]
fn feed_new(capacity: usize) -> (sender: Sender<UpdateEvent>)
    requires
        0 < capacity <= usize::MAX / 2,
{
    Sender::new(capacity)
}

/// Calls `tokio::sync::broadcast::Sender::send`, which never blocks. With no
/// receiver alive it hands the value back; otherwise it stores the value for
/// every receiver and reports how many there are, which is at least one.
/// Whether any receiver goes on to read the value is not claimed.
#[verifier::external_body]
fn feed_send(sender: &Sender<UpdateEvent>, event: UpdateEvent) -> (r: Result<usize, UpdateEvent>)
    ensures
        r matches Ok(n) ==> n >= 1,
        r matches Err(e) ==> e == event,
{
    match sender.send(event) {
        Ok(n) => Ok(n),
        Err(e) => Err(e.0),
    }
}

/// Calls `tokio::sync::broadcast::Sender::subscribe`, which makes a receiver
/// for the values sent from now on. Nothing is claimed of the receiver. The
/// call panics only where the channel already has `usize::MAX / 4` receivers.
#[verifier::external_body]
fn feed_subscribe(sender: &Sender<UpdateEvent>) -> (r: Receiver<UpdateEvent>)
{
    sender.subscribe()
}

/// How a publish attempt ended.
#[derive(Clone, Copy, Debug, PartialEq, Eq, Structural)]
pub enum Delivery {
    /// The event was queued for this many subscribers.
    Queued(usize),
    /// Nobody was subscribed: the event was dropped.
    Dropped,
}

/// Reads the channel's answer to a send.
pub open spec fn delivery_of(outcome: Result<usize, UpdateEvent>) -> Delivery {
    match outcome {
        Ok(n) => Delivery::Queued(n),
        Err(_) => Delivery::Dropped,
    }
}

/// Reads the channel's answer to a send: a count of subscribers, or the
/// event handed back because there were none.
pub fn delivery(outcome: Result<usize, UpdateEvent>) -> (d: Delivery)
    ensures
        d == delivery_of(outcome),
{
    match outcome {
        Ok(n) => Delivery::Queued(n),
        Err(_) => Delivery::Dropped,
    }
}

impl UpdateEvent {
    /// Publishes one event without blocking, and says what became of it.
    /// An event is never queued for zero subscribers.
    pub fn publish(sender: &FeedWriter, event: UpdateEvent) -> (d: Delivery)
        ensures
            d matches Delivery::Queued(n) ==> n >= 1,
    {
        delivery(feed_send(sender, event))
    }

    /// Publishes the event `{kind, entity_type, entity_id}`. Publishing is
    /// best effort: with nobody subscribed the event is dropped, and that is
    /// still a success.
    pub fn broadcast(
        sender: &FeedWriter,
        kind: UpdateKind,
        entity_type: EntityType,
        entity_id: u128,
    ) -> (r: Result<(), Error>)
        ensures
            r is Ok,
    {
        let _ = UpdateEvent::publish(sender, UpdateEvent { kind, entity_id, entity_type });
        Ok(())
    }
}

/// A new feed without subscribers, or `None` where the capacity is zero or
/// above [`MAX_FEED_CAPACITY`]. The feed keeps at least `capacity` events
/// for each subscriber; one that falls further behind loses the oldest
/// events it has not read, and the publisher is never held up.
pub fn new_feed(capacity: usize) -> (feed: Option<FeedWriter>)
    ensures
        feed is Some <==> 0 < capacity <= MAX_FEED_CAPACITY,
{
    if 0 < capacity && capacity <= MAX_FEED_CAPACITY {
        Some(feed_new(capacity))
    } else {
        None
    }
}

/// A new subscription to the feed: it sees the events published after this
/// call, and none from before.
pub fn subscribe(feed: &FeedWriter) -> (reader: FeedReader)
{
    feed_subscribe(feed)
}

/// A committed change to the stored rows, as far as subscribers care.
#[derive(Clone, Copy, Debug, PartialEq, Eq, Structural)]
pub enum Mutation {
    ProjectCreated { project: u128 },
    ProjectEdited { project: u128 },
    ProjectDeleted { project: u128 },
    TaskCreatedInProject { task: u128, project: u128 },
    TaskAttached { task: u128, project: u128 },
    TaskDetached { task: u128, project: u128 },
    TaskEdited { task: u128 },
    TaskFieldsCleared { task: u128 },
    TaskDeleted { task: u128 },
}

/// The event that says `kind` happened to the project `id`.
pub open spec fn project_event(kind: UpdateKind, id: u128) -> UpdateEvent {
    UpdateEvent { kind, entity_id: id, entity_type: EntityType::Project }
}

/// The event that says `kind` happened to the task `id`.
pub open spec fn task_event(kind: UpdateKind, id: u128) -> UpdateEvent {
    UpdateEvent { kind, entity_id: id, entity_type: EntityType::Task }
}

/// The events owed for a mutation, in the order they are published: one per
/// entity the mutation touched. A project counts as touched when its list of
/// tasks changed.
pub open spec fn notices(m: Mutation) -> Seq<UpdateEvent> {
    match m {
        Mutation::ProjectCreated { project } => seq![project_event(UpdateKind::Create, project)],
        Mutation::ProjectEdited { project } => seq![project_event(UpdateKind::Update, project)],
        Mutation::ProjectDeleted { project } => seq![project_event(UpdateKind::Destroy, project)],
        Mutation::TaskCreatedInProject { task, project } => seq![
            task_event(UpdateKind::Create, task),
            project_event(UpdateKind::Update, project),
        ],
        Mutation::TaskAttached { task, project } => seq![
            project_event(UpdateKind::Update, project),
            task_event(UpdateKind::Update, task),
        ],
        Mutation::TaskDetached { task, project } => seq![
            project_event(UpdateKind::Update, project),
            task_event(UpdateKind::Update, task),
        ],
        Mutation::TaskEdited { task } => seq![task_event(UpdateKind::Update, task)],
        Mutation::TaskFieldsCleared { task } => seq![task_event(UpdateKind::Update, task)],
        Mutation::TaskDeleted { task } => seq![task_event(UpdateKind::Destroy, task)],
    }
}

fn project_notice(kind: UpdateKind, id: u128) -> (e: UpdateEvent)
    ensures
        e == project_event(kind, id),
{
    UpdateEvent { kind, entity_id: id, entity_type: EntityType::Project }
}

fn task_notice(kind: UpdateKind, id: u128) -> (e: UpdateEvent)
    ensures
        e == task_event(kind, id),
{
    UpdateEvent { kind, entity_id: id, entity_type: EntityType::Task }
}

/// The events owed for a mutation, in publishing order.
pub fn events_for(m: Mutation) -> (events: Vec<UpdateEvent>)
    ensures
        events@ == notices(m),
{
    let mut events: Vec<UpdateEvent> = Vec::new();
    match m {
        Mutation::ProjectCreated { project } => {
            events.push(project_notice(UpdateKind::Create, project));
        },
        Mutation::ProjectEdited { project } => {
            events.push(project_notice(UpdateKind::Update, project));
        },
        Mutation::ProjectDeleted { project } => {
            events.push(project_notice(UpdateKind::Destroy, project));
        },
        Mutation::TaskCreatedInProject { task, project } => {
            events.push(task_notice(UpdateKind::Create, task));
            events.push(project_notice(UpdateKind::Update, project));
        },
        Mutation::TaskAttached { task, project } => {
            events.push(project_notice(UpdateKind::Update, project));
            events.push(task_notice(UpdateKind::Update, task));
        },
        Mutation::TaskDetached { task, project } => {
            events.push(project_notice(UpdateKind::Update, project));
            events.push(task_notice(UpdateKind::Update, task));
        },
        Mutation::TaskEdited { task } => {
            events.push(task_notice(UpdateKind::Update, task));
        },
        Mutation::TaskFieldsCleared { task } => {
            events.push(task_notice(UpdateKind::Update, task));
        },
        Mutation::TaskDeleted { task } => {
            events.push(task_notice(UpdateKind::Destroy, task));
        },
    }
    assert(events@ =~= notices(m));
    events
}

/// Publishes every event owed for a mutation, in order, and returns them.
/// A failed publish is not a failure of the mutation, which has already
/// been committed: the remaining events are still published.
pub fn announce(feed: &FeedWriter, m: Mutation) -> (events: Vec<UpdateEvent>)
    ensures
        events@ == notices(m),
{
    let events = events_for(m);
    let n = events.len();
    let mut i: usize = 0;
    while i < n
        invariant
            n == events.len(),
            i <= n,
        decreases n - i,
    {
        let e = events[i];
        let _ = UpdateEvent::broadcast(feed, e.kind, e.entity_type, e.entity_id);
        i += 1;
    }
    events
}

} // verus!
