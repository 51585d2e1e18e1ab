//! One invocation of the command, as a machine that is driven from outside.
//!
//! Everything the command waits for happens elsewhere: the guild is looked
//! up, the voice channel joined, the session found and held, the media
//! source resolved and queued, messages sent. This module decides. The
//! driver hands each outcome in as an [`Event`], and [`step`] answers with
//! the state to go on from and the one [`Action`] to perform next.
//!
//! An invocation runs straight through: it never goes back to an earlier
//! state and never tries anything twice. It ends with a message to the
//! user, after which every further event is ignored.

use crate::arguments::first_argument;
use crate::arguments::first_argument_of;
use crate::embed::status_embed;
use crate::embed::status_for;
use crate::embed::StatusEmbed;
use crate::embed::StatusEmbedView;
use crate::model::PlayRequest;
use crate::model::PlayRequestView;
use crate::model::TrackMetadata;
use crate::model::TrackMetadataView;
use crate::model::UserRef;
use crate::model::UserRefView;
use crate::replies::queueing_line;
use crate::replies::queueing_log;
use crate::replies::source_error_line;
use crate::replies::source_error_log;
use crate::replies::Refusal;
use crate::url::has_http_prefix;
use crate::url::starts_with_http;
use crate::voice::voice_channel;
use crate::voice::VoiceStates;
use vstd::prelude::*;

verus! {

/// How far an invocation has come.
#[derive(Clone, Debug, PartialEq, Eq)]
pub enum PlayState {
    /// Nothing has happened yet.
    Idle,
    /// The URL is accepted; the guild and its voice states are asked for.
    AwaitingGuild { url: String },
    /// The user's voice channel is known; joining it is under way.
    Joining { request: PlayRequest },
    /// The join attempt is over; the guild's session is asked for.
    Locating { request: PlayRequest },
    /// The session is held; the media source is being resolved.
    Resolving { request: PlayRequest },
    /// The source is resolved; it is being queued, the session still held.
    Enqueueing { request: PlayRequest, metadata: TrackMetadata },
    /// The user has been answered.
    Done,
}

pub enum PlayStateView {
    Idle,
    AwaitingGuild { url: Seq<char> },
    Joining { request: PlayRequestView },
    Locating { request: PlayRequestView },
    Resolving { request: PlayRequestView },
    Enqueueing { request: PlayRequestView, metadata: TrackMetadataView },
    Done,
}

impl View for PlayState {
    type V = PlayStateView;

    open spec fn view(&self) -> PlayStateView {
        match self {
            PlayState::Idle => PlayStateView::Idle,
            PlayState::AwaitingGuild { url } => PlayStateView::AwaitingGuild { url: url@ },
            PlayState::Joining { request } => PlayStateView::Joining { request: request@ },
            PlayState::Locating { request } => PlayStateView::Locating { request: request@ },
            PlayState::Resolving { request } => PlayStateView::Resolving { request: request@ },
            PlayState::Enqueueing { request, metadata } => PlayStateView::Enqueueing {
                request: request@,
                metadata: metadata@,
            },
            PlayState::Done => PlayStateView::Done,
        }
    }
}

/// What the driver reports back.
#[derive(Clone, Debug, PartialEq, Eq)]
pub enum Event {
    /// The command was invoked with this text after its name.
    Invoked { raw_args: String },
    /// The guild of the invocation, the invoking user and the guild's voice
    /// states.
    GuildResolved { guild_id: u64, user: UserRef, voice_states: VoiceStates },
    /// The attempt to join is over. How it went is not reported: whether a
    /// session exists afterwards is all that counts.
    JoinReturned,
    /// Whether the guild has a session. If it has, the driver now holds it,
    /// to the exclusion of every other invocation.
    SessionLookup { found: bool },
    /// The media source was resolved.
    Resolved { metadata: TrackMetadata },
    /// The media source could not be resolved; `detail` says why.
    ResolveFailed { detail: String },
    /// The source is queued, the queue now holds `queue_length` tracks, and
    /// the session is released.
    Enqueued { queue_length: usize },
}

pub enum EventView {
    Invoked { raw_args: Seq<char> },
    GuildResolved { guild_id: u64, user: UserRefView, voice_states: Map<u64, Option<u64>> },
    JoinReturned,
    SessionLookup { found: bool },
    Resolved { metadata: TrackMetadataView },
    ResolveFailed { detail: Seq<char> },
    Enqueued { queue_length: usize },
}

impl View for Event {
    type V = EventView;

    open spec fn view(&self) -> EventView {
        match self {
            Event::Invoked { raw_args } => EventView::Invoked { raw_args: raw_args@ },
            Event::GuildResolved { guild_id, user, voice_states } => EventView::GuildResolved {
                guild_id: *guild_id,
                user: user@,
                voice_states: voice_states@,
            },
            Event::JoinReturned => EventView::JoinReturned,
            Event::SessionLookup { found } => EventView::SessionLookup { found: *found },
            Event::Resolved { metadata } => EventView::Resolved { metadata: metadata@ },
            Event::ResolveFailed { detail } => EventView::ResolveFailed { detail: detail@ },
            Event::Enqueued { queue_length } => EventView::Enqueued {
                queue_length: *queue_length,
            },
        }
    }
}

/// What the driver is to do next.
#[derive(Clone, Debug, PartialEq, Eq)]
pub enum Action {
    /// Nothing: the event did not belong to the state.
    Ignore,
    /// Answer the user with `text`. The invocation is over.
    Reply { text: String },
    /// Look up the guild of the invocation and its voice states.
    ResolveGuild,
    /// Ask the session manager to join `channel_id` in `guild_id`, or to
    /// reuse the guild's session.
    Join { guild_id: u64, channel_id: u64 },
    /// Ask the session manager for the session of `guild_id` and, if there
    /// is one, take hold of it.
    FindSession { guild_id: u64 },
    /// Resolve the media source at `url`, holding the session.
    ResolveMedia { url: String },
    /// Log `note`, append the resolved source to the session's queue, read
    /// the queue's length and release the session.
    Enqueue { note: String },
    /// Release the session, write `log` to the error log and answer the
    /// user with `reply`. The invocation is over.
    Abandon { log: String, reply: String },
    /// Send the status message. The invocation is over.
    SendStatus { embed: StatusEmbed },
}

pub enum ActionView {
    Ignore,
    Reply { text: Seq<char> },
    ResolveGuild,
    Join { guild_id: u64, channel_id: u64 },
    FindSession { guild_id: u64 },
    ResolveMedia { url: Seq<char> },
    Enqueue { note: Seq<char> },
    Abandon { log: Seq<char>, reply: Seq<char> },
    SendStatus { embed: StatusEmbedView },
}

impl View for Action {
    type V = ActionView;

    open spec fn view(&self) -> ActionView {
        match self {
            Action::Ignore => ActionView::Ignore,
            Action::Reply { text } => ActionView::Reply { text: text@ },
            Action::ResolveGuild => ActionView::ResolveGuild,
            Action::Join { guild_id, channel_id } => ActionView::Join {
                guild_id: *guild_id,
                channel_id: *channel_id,
            },
            Action::FindSession { guild_id } => ActionView::FindSession { guild_id: *guild_id },
            Action::ResolveMedia { url } => ActionView::ResolveMedia { url: url@ },
            Action::Enqueue { note } => ActionView::Enqueue { note: note@ },
            Action::Abandon { log, reply } => ActionView::Abandon { log: log@, reply: reply@ },
            Action::SendStatus { embed } => ActionView::SendStatus { embed: embed@ },
        }
    }
}

/// Whether an action answers the user, and so ends the invocation.
pub open spec fn is_answer(action: ActionView) -> bool {
    action is Reply || action is Abandon || action is SendStatus
}

impl Action {
    /// Whether this action answers the user, so that the driver can stop
    /// after it.
    pub fn ends_invocation(&self) -> (ends: bool)
        ensures
            ends == is_answer(self@),
    {
        match self {
            Action::Reply { .. } => true,
            Action::Abandon { .. } => true,
            Action::SendStatus { .. } => true,
            _ => false,
        }
    }
}

impl PlayState {
    /// The state in which an invocation starts.
    pub fn new() -> (state: PlayState)
        ensures
            state@ == PlayStateView::Idle,
    {
        PlayState::Idle
    }

    /// Whether the user has been answered.
    pub fn is_done(&self) -> (done: bool)
        ensures
            done == (self@ is Done),
    {
        match self {
            PlayState::Done => true,
            _ => false,
        }
    }
}

/// The end of an invocation that refuses to play.
pub open spec fn refused(why: Refusal) -> (PlayStateView, ActionView) {
    (PlayStateView::Done, ActionView::Reply { text: why.spec_text() })
}

/// The decision on the first argument of the command: without one there is
/// no URL, and one that does not begin with `http` is no URL. An accepted
/// URL sends the driver for the guild.
pub open spec fn after_first_argument(first: Option<Seq<char>>) -> (PlayStateView, ActionView) {
    match first {
        None => refused(Refusal::UrlMissing),
        Some(url) => if has_http_prefix(url) {
            (PlayStateView::AwaitingGuild { url }, ActionView::ResolveGuild)
        } else {
            refused(Refusal::UrlInvalid)
        },
    }
}

/// The decision once the guild is known: a user outside every voice channel
/// is told so, and nothing is joined; otherwise the user's channel is the one
/// to join.
pub open spec fn after_guild(
    url: Seq<char>,
    guild_id: u64,
    user: UserRefView,
    voice_states: Map<u64, Option<u64>>,
) -> (PlayStateView, ActionView) {
    match voice_channel(voice_states, user.id) {
        None => refused(Refusal::NotInVoiceChannel),
        Some(channel_id) => (
            PlayStateView::Joining {
                request: PlayRequestView { url, invoking_user: user, guild_id },
            },
            ActionView::Join { guild_id, channel_id },
        ),
    }
}

/// After the join attempt, however it went, the session is asked for.
pub open spec fn after_join(request: PlayRequestView) -> (PlayStateView, ActionView) {
    (PlayStateView::Locating { request }, ActionView::FindSession { guild_id: request.guild_id })
}

/// The decision on the session: without one there is nowhere to play; with
/// one, the media source is resolved.
pub open spec fn after_lookup(request: PlayRequestView, found: bool) -> (
    PlayStateView,
    ActionView,
) {
    if found {
        (PlayStateView::Resolving { request }, ActionView::ResolveMedia { url: request.url })
    } else {
        refused(Refusal::NoSession)
    }
}

/// A resolved source is queued.
pub open spec fn after_resolved(request: PlayRequestView, metadata: TrackMetadataView) -> (
    PlayStateView,
    ActionView,
) {
    (
        PlayStateView::Enqueueing { request, metadata },
        ActionView::Enqueue { note: queueing_line(request.url) },
    )
}

/// A source that cannot be resolved ends the invocation: the failure goes to
/// the log in full, and the user reads no more than that it failed.
pub open spec fn after_resolve_failure(detail: Seq<char>) -> (PlayStateView, ActionView) {
    (
        PlayStateView::Done,
        ActionView::Abandon {
            log: source_error_line(detail),
            reply: Refusal::SourceFailed.spec_text(),
        },
    )
}

/// Once the track is queued, the status message goes out, with the length
/// that the queue had right after the track went in.
pub open spec fn after_enqueue(
    request: PlayRequestView,
    metadata: TrackMetadataView,
    queue_length: usize,
) -> (PlayStateView, ActionView) {
    (
        PlayStateView::Done,
        ActionView::SendStatus { embed: status_for(request, metadata, queue_length) },
    )
}

/// The machine: from a state and an event to the next state and the action
/// to perform. An event that does not belong to the state changes nothing.
pub open spec fn next(state: PlayStateView, event: EventView) -> (PlayStateView, ActionView) {
    match (state, event) {
        (PlayStateView::Idle, EventView::Invoked { raw_args }) => after_first_argument(
            first_argument_of(raw_args),
        ),
        (
            PlayStateView::AwaitingGuild { url },
            EventView::GuildResolved { guild_id, user, voice_states },
        ) => after_guild(url, guild_id, user, voice_states),
        (PlayStateView::Joining { request }, EventView::JoinReturned) => after_join(request),
        (PlayStateView::Locating { request }, EventView::SessionLookup { found }) => after_lookup(
            request,
            found,
        ),
        (PlayStateView::Resolving { request }, EventView::Resolved { metadata }) => after_resolved(
            request,
            metadata,
        ),
        (PlayStateView::Resolving { request }, EventView::ResolveFailed { detail }) =>
            after_resolve_failure(detail),
        (
            PlayStateView::Enqueueing { request, metadata },
            EventView::Enqueued { queue_length },
        ) => after_enqueue(request, metadata, queue_length),
        _ => (state, ActionView::Ignore),
    }
}

/// Ends the invocation with the reply for `why`.
pub fn refuse(why: Refusal) -> (r: (PlayState, Action))
    ensures
        (r.0@, r.1@) == refused(why),
{
    (PlayState::Done, Action::Reply { text: why.text() })
}

/// Decides on the first argument of the command.
pub fn on_first_argument(first: Option<String>) -> (r: (PlayState, Action))
    ensures
        (r.0@, r.1@) == after_first_argument(first.deep_view()),
{
    match first {
        None => refuse(Refusal::UrlMissing),
        Some(url) => {
            if starts_with_http(url.as_str()) {
                (PlayState::AwaitingGuild { url }, Action::ResolveGuild)
            } else {
                refuse(Refusal::UrlInvalid)
            }
        },
    }
}

/// Decides where to play, once the guild and its voice states are known.
pub fn on_guild(url: String, guild_id: u64, user: UserRef, voice_states: &VoiceStates) -> (r: (
    PlayState,
    Action,
))
    ensures
        (r.0@, r.1@) == after_guild(url@, guild_id, user@, voice_states@),
{
    match voice_states.channel_of(user.id) {
        None => refuse(Refusal::NotInVoiceChannel),
        Some(channel_id) => (
            PlayState::Joining { request: PlayRequest { url, invoking_user: user, guild_id } },
            Action::Join { guild_id, channel_id },
        ),
    }
}

/// Goes on to look for the session after the join attempt.
pub fn on_join_returned(request: PlayRequest) -> (r: (PlayState, Action))
    ensures
        (r.0@, r.1@) == after_join(request@),
{
    let guild_id = request.guild_id;
    (PlayState::Locating { request }, Action::FindSession { guild_id })
}

/// Decides on the outcome of the session lookup.
pub fn on_session_lookup(request: PlayRequest, found: bool) -> (r: (PlayState, Action))
    ensures
        (r.0@, r.1@) == after_lookup(request@, found),
{
    if found {
        let url = request.url.clone();
        (PlayState::Resolving { request }, Action::ResolveMedia { url })
    } else {
        refuse(Refusal::NoSession)
    }
}

/// Has a resolved source queued.
pub fn on_resolved(request: PlayRequest, metadata: TrackMetadata) -> (r: (PlayState, Action))
    ensures
        (r.0@, r.1@) == after_resolved(request@, metadata@),
{
    let note = queueing_log(request.url.as_str());
    (PlayState::Enqueueing { request, metadata }, Action::Enqueue { note })
}

/// Ends the invocation over a source that could not be resolved.
pub fn on_resolve_failed(detail: &str) -> (r: (PlayState, Action))
    ensures
        (r.0@, r.1@) == after_resolve_failure(detail@),
{
    (
        PlayState::Done,
        Action::Abandon { log: source_error_log(detail), reply: Refusal::SourceFailed.text() },
    )
}

/// Ends the invocation with the status message for the queued track.
pub fn on_enqueued(request: &PlayRequest, metadata: &TrackMetadata, queue_length: usize) -> (r: (
    PlayState,
    Action,
))
    ensures
        (r.0@, r.1@) == after_enqueue(request@, metadata@, queue_length),
{
    (PlayState::Done, Action::SendStatus { embed: status_embed(request, metadata, queue_length) })
}

/// Takes one step of the invocation.
///
/// For the invocation itself the outcome rests on how serenity splits the
/// text into arguments; [`on_first_argument`] is the decision that follows,
/// stated for every first argument there can be.
pub fn step(state: PlayState, event: Event) -> (r: (PlayState, Action))
    ensures
        (r.0@, r.1@) == next(state@, event@),
{
    match (state, event) {
        (PlayState::Idle, Event::Invoked { raw_args }) => on_first_argument(
            first_argument(raw_args.as_str()),
        ),
        (
            PlayState::AwaitingGuild { url },
            Event::GuildResolved { guild_id, user, voice_states },
        ) => on_guild(url, guild_id, user, &voice_states),
        (PlayState::Joining { request }, Event::JoinReturned) => on_join_returned(request),
        (PlayState::Locating { request }, Event::SessionLookup { found }) => on_session_lookup(
            request,
            found,
        ),
        (PlayState::Resolving { request }, Event::Resolved { metadata }) => on_resolved(
            request,
            metadata,
        ),
        (PlayState::Resolving { request }, Event::ResolveFailed { detail }) => on_resolve_failed(
            detail.as_str(),
        ),
        (PlayState::Enqueueing { request, metadata }, Event::Enqueued { queue_length }) =>
            on_enqueued(&request, &metadata, queue_length),
        (state, _) => (state, Action::Ignore),
    }
}

} // verus!
