//! What holds of every invocation, whatever the driver reports.

use crate::arguments::first_argument_of;
use crate::embed::status_for;
use crate::model::PlayRequestView;
use crate::model::TrackMetadataView;
use crate::model::UserRefView;
use crate::play::is_answer;
use crate::play::next;
use crate::play::ActionView;
use crate::play::EventView;
use crate::play::PlayStateView;
use crate::replies::queueing_line;
use crate::replies::source_error_line;
use crate::url::has_http_prefix;
use crate::voice::voice_channel;
use vstd::prelude::*;

verus! {

/// The actions that the machine answers with, one for each event, when it
/// starts in `state` and is fed `events` in order.
pub open spec fn run(state: PlayStateView, events: Seq<EventView>) -> Seq<ActionView>
    decreases events.len(),
{
    if events.len() == 0 {
        Seq::empty()
    } else {
        seq![next(state, events[0]).1] + run(next(state, events[0]).0, events.skip(1))
    }
}

/// How far along its one path a state lies.
pub open spec fn stage(state: PlayStateView) -> nat {
    match state {
        PlayStateView::Idle => 0,
        PlayStateView::AwaitingGuild { .. } => 1,
        PlayStateView::Joining { .. } => 2,
        PlayStateView::Locating { .. } => 3,
        PlayStateView::Resolving { .. } => 4,
        PlayStateView::Enqueueing { .. } => 5,
        PlayStateView::Done => 6,
    }
}

/// Whether an action touches the voice session manager or a session's
/// queue.
pub open spec fn touches_session(action: ActionView) -> bool {
    action is Join || action is FindSession || action is Enqueue
}

/// An invocation runs straight through. A step either ignores its event and
/// leaves the state as it was, or moves the state strictly forward; so no
/// state is entered twice and nothing is tried again.
pub proof fn law_runs_straight_through(state: PlayStateView, event: EventView)
    ensures
        next(state, event).1 is Ignore ==> next(state, event).0 == state,
        !(next(state, event).1 is Ignore) ==> stage(next(state, event).0) > stage(state),
{
}

/// An answer to the user ends the invocation, and only an answer does.
pub proof fn law_answer_ends_invocation(state: PlayStateView, event: EventView)
    ensures
        is_answer(next(state, event).1) ==> next(state, event).0 is Done,
        !(state is Done) && next(state, event).0 is Done ==> is_answer(next(state, event).1),
{
}

/// A step unfolds a run: the first action answers the first event, and the
/// rest is the run from the state that the first step leads to.
pub proof fn lemma_run_unfolds(state: PlayStateView, first: EventView, later: Seq<EventView>)
    ensures
        run(state, seq![first] + later) == seq![next(state, first).1] + run(
            next(state, first).0,
            later,
        ),
{
    let events = seq![first] + later;
    assert(events[0] == first);
    assert(events.skip(1) =~= later);
}

/// A run answers each event with one action.
pub proof fn lemma_run_length(state: PlayStateView, events: Seq<EventView>)
    ensures
        run(state, events).len() == events.len(),
    decreases events.len(),
{
    if events.len() > 0 {
        lemma_run_length(next(state, events[0]).0, events.skip(1));
    }
}

/// Once the user is answered, every event is ignored.
pub proof fn law_done_ignores_all(events: Seq<EventView>)
    ensures
        run(PlayStateView::Done, events).len() == events.len(),
        forall|i: int|
            0 <= i < events.len() ==> #[trigger] run(PlayStateView::Done, events)[i]
                is Ignore,
    decreases events.len(),
{
    lemma_run_length(PlayStateView::Done, events);
    if events.len() > 0 {
        law_done_ignores_all(events.skip(1));
        lemma_run_length(PlayStateView::Done, events.skip(1));
        assert(next(PlayStateView::Done, events[0]) == (PlayStateView::Done, ActionView::Ignore));
    }
}

/// An invocation without an argument is answered with `URL not provided.`,
/// and whatever is reported afterwards, nothing is joined, looked up or
/// queued.
pub proof fn law_missing_url(raw_args: Seq<char>, later: Seq<EventView>)
    requires
        first_argument_of(raw_args) is None,
    ensures
        ({
            let actions = run(
                PlayStateView::Idle,
                seq![EventView::Invoked { raw_args }] + later,
            );
            &&& actions.len() == later.len() + 1
            &&& actions[0] == (ActionView::Reply { text: "URL not provided."@ })
            &&& forall|i: int| 1 <= i < actions.len() ==> #[trigger] actions[i] is Ignore
            &&& forall|i: int| 0 <= i < actions.len() ==> !touches_session(#[trigger] actions[i])
        }),
{
    lemma_run_unfolds(PlayStateView::Idle, EventView::Invoked { raw_args }, later);
    law_done_ignores_all(later);
}

/// An invocation whose first argument does not begin with `http` is answered
/// with `The URL provided is not valid.`, and whatever is reported
/// afterwards, nothing is joined, looked up or queued.
pub proof fn law_invalid_url(raw_args: Seq<char>, later: Seq<EventView>)
    requires
        first_argument_of(raw_args) is Some,
        !has_http_prefix(first_argument_of(raw_args)->0),
    ensures
        ({
            let actions = run(
                PlayStateView::Idle,
                seq![EventView::Invoked { raw_args }] + later,
            );
            &&& actions.len() == later.len() + 1
            &&& actions[0] == (ActionView::Reply { text: "The URL provided is not valid."@ })
            &&& forall|i: int| 1 <= i < actions.len() ==> #[trigger] actions[i] is Ignore
            &&& forall|i: int| 0 <= i < actions.len() ==> !touches_session(#[trigger] actions[i])
        }),
{
    lemma_run_unfolds(PlayStateView::Idle, EventView::Invoked { raw_args }, later);
    law_done_ignores_all(later);
}

/// The run of an invocation up to the decision on the guild: the events
/// that lead there, in order.
pub open spec fn until_guild(
    raw_args: Seq<char>,
    guild_id: u64,
    user: UserRefView,
    voice_states: Map<u64, Option<u64>>,
) -> Seq<EventView> {
    seq![
        EventView::Invoked { raw_args },
        EventView::GuildResolved { guild_id, user, voice_states },
    ]
}

/// A user who sits in no voice channel of the guild is answered with
/// `You are not in a voice channel`, and whatever is reported afterwards,
/// nothing is joined, looked up or queued.
pub proof fn law_not_in_voice_channel(
    raw_args: Seq<char>,
    guild_id: u64,
    user: UserRefView,
    voice_states: Map<u64, Option<u64>>,
    later: Seq<EventView>,
)
    requires
        first_argument_of(raw_args) is Some,
        has_http_prefix(first_argument_of(raw_args)->0),
        voice_channel(voice_states, user.id) is None,
    ensures
        ({
            let actions = run(
                PlayStateView::Idle,
                until_guild(raw_args, guild_id, user, voice_states) + later,
            );
            &&& actions.len() == later.len() + 2
            &&& actions[0] == ActionView::ResolveGuild
            &&& actions[1] == (ActionView::Reply { text: "You are not in a voice channel"@ })
            &&& forall|i: int| 2 <= i < actions.len() ==> #[trigger] actions[i] is Ignore
            &&& forall|i: int| 0 <= i < actions.len() ==> !touches_session(#[trigger] actions[i])
        }),
{
    let invoked = EventView::Invoked { raw_args };
    let resolved = EventView::GuildResolved { guild_id, user, voice_states };
    let url = first_argument_of(raw_args)->0;
    assert(until_guild(raw_args, guild_id, user, voice_states) + later =~= seq![invoked] + (
        seq![resolved] + later
    ));
    lemma_run_unfolds(PlayStateView::Idle, invoked, seq![resolved] + later);
    lemma_run_unfolds(PlayStateView::AwaitingGuild { url }, resolved, later);
    law_done_ignores_all(later);
}

/// Joining is only ever asked for on the guild's report, and then for the
/// channel in which the voice states show the invoking user, in the guild
/// that was reported.
pub proof fn law_join_follows_user(state: PlayStateView, event: EventView)
    requires
        next(state, event).1 is Join,
    ensures
        state is AwaitingGuild,
        event matches EventView::GuildResolved { guild_id, user, voice_states } && next(
            state,
            event,
        ).1 == (ActionView::Join {
            guild_id,
            channel_id: voice_channel(voice_states, user.id)->0,
        }) && voice_channel(voice_states, user.id) is Some,
{
}

/// A source is only ever queued on the report that it was resolved; on any
/// other report, and so on a failed resolution, nothing is queued.
pub proof fn law_enqueue_follows_resolution(state: PlayStateView, event: EventView)
    requires
        next(state, event).1 is Enqueue,
    ensures
        state is Resolving,
        event is Resolved,
{
}

/// No run queues more than once: of two actions of one run from the start,
/// at most one is an `Enqueue`.
pub proof fn law_one_enqueue_at_most(
    state: PlayStateView,
    events: Seq<EventView>,
    i: int,
    j: int,
)
    requires
        0 <= i < j < events.len(),
        run(state, events)[i] is Enqueue,
    ensures
        !(run(state, events)[j] is Enqueue),
    decreases events.len(),
{
    let after = next(state, events[0]).0;
    lemma_run_length(after, events.skip(1));
    if i == 0 {
        lemma_no_enqueue_past_resolving(after, events.skip(1), j - 1);
    } else {
        law_one_enqueue_at_most(after, events.skip(1), i - 1, j - 1);
    }
}

/// From a state past the resolution nothing is queued any more.
pub proof fn lemma_no_enqueue_past_resolving(state: PlayStateView, events: Seq<EventView>, i: int)
    requires
        0 <= i < events.len(),
        stage(state) >= 5,
    ensures
        !(run(state, events)[i] is Enqueue),
    decreases events.len(),
{
    let after = next(state, events[0]).0;
    lemma_run_length(after, events.skip(1));
    law_runs_straight_through(state, events[0]);
    if i > 0 {
        lemma_no_enqueue_past_resolving(after, events.skip(1), i - 1);
    }
}

/// The events of an invocation that gets as far as the resolution of its
/// media source: it is invoked, the guild is reported, the join attempt
/// returns and the session is found.
pub open spec fn until_resolution(
    raw_args: Seq<char>,
    guild_id: u64,
    user: UserRefView,
    voice_states: Map<u64, Option<u64>>,
) -> Seq<EventView> {
    seq![
        EventView::Invoked { raw_args },
        EventView::GuildResolved { guild_id, user, voice_states },
        EventView::JoinReturned,
        EventView::SessionLookup { found: true },
    ]
}

/// The request that an invocation makes of its first argument, the reported
/// guild and the invoking user.
pub open spec fn request_of(raw_args: Seq<char>, guild_id: u64, user: UserRefView)
    -> PlayRequestView {
    PlayRequestView { url: first_argument_of(raw_args)->0, invoking_user: user, guild_id }
}

/// An invocation with a URL, by a user in a voice channel, asks in turn for
/// the guild, for the user's channel to be joined, for the session and for
/// the resolution of the URL, and reaches the state in which it waits for
/// that resolution.
pub proof fn lemma_run_until_resolution(
    raw_args: Seq<char>,
    guild_id: u64,
    user: UserRefView,
    voice_states: Map<u64, Option<u64>>,
    later: Seq<EventView>,
)
    requires
        first_argument_of(raw_args) is Some,
        has_http_prefix(first_argument_of(raw_args)->0),
        voice_channel(voice_states, user.id) is Some,
    ensures
        run(PlayStateView::Idle, until_resolution(raw_args, guild_id, user, voice_states) + later)
            == seq![
            ActionView::ResolveGuild,
            ActionView::Join {
                guild_id,
                channel_id: voice_channel(voice_states, user.id)->0,
            },
            ActionView::FindSession { guild_id },
            ActionView::ResolveMedia { url: first_argument_of(raw_args)->0 },
        ] + run(
            PlayStateView::Resolving { request: request_of(raw_args, guild_id, user) },
            later,
        ),
{
    let e0 = EventView::Invoked { raw_args };
    let e1 = EventView::GuildResolved { guild_id, user, voice_states };
    let e2 = EventView::JoinReturned;
    let e3 = EventView::SessionLookup { found: true };
    let url = first_argument_of(raw_args)->0;
    let request = request_of(raw_args, guild_id, user);
    let all = until_resolution(raw_args, guild_id, user, voice_states) + later;
    let rest1 = seq![e1] + (seq![e2] + (seq![e3] + later));
    let rest2 = seq![e2] + (seq![e3] + later);
    let rest3 = seq![e3] + later;
    assert(all =~= seq![e0] + rest1);
    lemma_run_unfolds(PlayStateView::Idle, e0, rest1);
    lemma_run_unfolds(PlayStateView::AwaitingGuild { url }, e1, rest2);
    lemma_run_unfolds(PlayStateView::Joining { request }, e2, rest3);
    lemma_run_unfolds(PlayStateView::Locating { request }, e3, later);
    let tail = run(PlayStateView::Resolving { request }, later);
    let a0 = ActionView::ResolveGuild;
    let a1 = ActionView::Join { guild_id, channel_id: voice_channel(voice_states, user.id)->0 };
    let a2 = ActionView::FindSession { guild_id };
    let a3 = ActionView::ResolveMedia { url };
    assert(seq![a0] + (seq![a1] + (seq![a2] + (seq![a3] + tail))) =~= seq![a0, a1, a2, a3] + tail);
}

/// An invocation that goes well performs, in this order and each once: the
/// lookup of the guild, the join of the user's channel, the lookup of the
/// session, the resolution of the URL, one enqueue, and the status message.
/// The message is headed `Playing: ` and the resolved title, links to the
/// URL as it was given, and reports the length that the queue had right
/// after the track went in.
pub proof fn law_successful_run(
    raw_args: Seq<char>,
    guild_id: u64,
    user: UserRefView,
    voice_states: Map<u64, Option<u64>>,
    metadata: TrackMetadataView,
    queue_length: usize,
)
    requires
        first_argument_of(raw_args) is Some,
        has_http_prefix(first_argument_of(raw_args)->0),
        voice_channel(voice_states, user.id) is Some,
    ensures
        ({
            let url = first_argument_of(raw_args)->0;
            let request = request_of(raw_args, guild_id, user);
            let actions = run(
                PlayStateView::Idle,
                until_resolution(raw_args, guild_id, user, voice_states) + seq![
                    EventView::Resolved { metadata },
                    EventView::Enqueued { queue_length },
                ],
            );
            &&& actions == seq![
                ActionView::ResolveGuild,
                ActionView::Join {
                    guild_id,
                    channel_id: voice_channel(voice_states, user.id)->0,
                },
                ActionView::FindSession { guild_id },
                ActionView::ResolveMedia { url },
                ActionView::Enqueue { note: queueing_line(url) },
                ActionView::SendStatus { embed: status_for(request, metadata, queue_length) },
            ]
            &&& status_for(request, metadata, queue_length).queue_length == queue_length
            &&& status_for(request, metadata, queue_length).url == url
            &&& metadata.title is Some ==> status_for(request, metadata, queue_length).title
                == "Playing: "@ + metadata.title->0
        }),
{
    let url = first_argument_of(raw_args)->0;
    let request = request_of(raw_args, guild_id, user);
    let e4 = EventView::Resolved { metadata };
    let e5 = EventView::Enqueued { queue_length };
    let later = seq![e4, e5];
    lemma_run_until_resolution(raw_args, guild_id, user, voice_states, later);
    assert(later =~= seq![e4] + (seq![e5] + Seq::<EventView>::empty()));
    lemma_run_unfolds(PlayStateView::Resolving { request }, e4, seq![e5] + Seq::empty());
    lemma_run_unfolds(PlayStateView::Enqueueing { request, metadata }, e5, Seq::empty());
    let a4 = ActionView::Enqueue { note: queueing_line(url) };
    let a5 = ActionView::SendStatus { embed: status_for(request, metadata, queue_length) };
    assert(run(PlayStateView::Done, Seq::empty()) =~= Seq::<ActionView>::empty());
    assert(run(PlayStateView::Resolving { request }, later) =~= seq![a4, a5]);
}

/// If the media source cannot be resolved, the failure is written to the
/// error log, the user is answered with `Error starting source.`, and
/// whatever is reported afterwards, nothing is queued.
pub proof fn law_failed_resolution(
    raw_args: Seq<char>,
    guild_id: u64,
    user: UserRefView,
    voice_states: Map<u64, Option<u64>>,
    detail: Seq<char>,
    later: Seq<EventView>,
)
    requires
        first_argument_of(raw_args) is Some,
        has_http_prefix(first_argument_of(raw_args)->0),
        voice_channel(voice_states, user.id) is Some,
    ensures
        ({
            let actions = run(
                PlayStateView::Idle,
                until_resolution(raw_args, guild_id, user, voice_states) + (seq![
                    EventView::ResolveFailed { detail },
                ] + later),
            );
            &&& actions.len() == later.len() + 5
            &&& actions[4] == (ActionView::Abandon {
                log: source_error_line(detail),
                reply: "Error starting source."@,
            })
            &&& forall|i: int| 5 <= i < actions.len() ==> #[trigger] actions[i] is Ignore
            &&& forall|i: int| 0 <= i < actions.len() ==> !(#[trigger] actions[i] is Enqueue)
        }),
{
    let request = request_of(raw_args, guild_id, user);
    let failed = EventView::ResolveFailed { detail };
    lemma_run_until_resolution(raw_args, guild_id, user, voice_states, seq![failed] + later);
    lemma_run_unfolds(PlayStateView::Resolving { request }, failed, later);
    law_done_ignores_all(later);
}

/// The status message goes out whatever the track and the requester lack.
/// Without a title the heading is the bare `Playing: `; without a thumbnail
/// or an avatar the message has none.
pub proof fn law_status_despite_gaps(
    request: PlayRequestView,
    metadata: TrackMetadataView,
    queue_length: usize,
)
    ensures
        next(
            PlayStateView::Enqueueing { request, metadata },
            EventView::Enqueued { queue_length },
        ) == (
            PlayStateView::Done,
            ActionView::SendStatus { embed: status_for(request, metadata, queue_length) },
        ),
        metadata.title is None ==> status_for(request, metadata, queue_length).title
            == "Playing: "@,
        metadata.thumbnail is None ==> status_for(request, metadata, queue_length).thumbnail
            is None,
        request.invoking_user.avatar_url is None ==> status_for(
            request,
            metadata,
            queue_length,
        ).footer_icon is None,
        status_for(request, metadata, queue_length).footer_text == request.invoking_user.name,
        status_for(request, metadata, queue_length).queue_length == queue_length,
{
}

/// The state that the machine is in after `events`, fed in order from
/// `state`.
pub open spec fn state_after(state: PlayStateView, events: Seq<EventView>) -> PlayStateView
    decreases events.len(),
{
    if events.len() == 0 {
        state
    } else {
        state_after(next(state, events[0]).0, events.skip(1))
    }
}

/// Whether `event` is the report that the machine waits for in `state`.
pub open spec fn awaited(state: PlayStateView, event: EventView) -> bool {
    match state {
        PlayStateView::Idle => event is Invoked,
        PlayStateView::AwaitingGuild { .. } => event is GuildResolved,
        PlayStateView::Joining { .. } => event is JoinReturned,
        PlayStateView::Locating { .. } => event is SessionLookup,
        PlayStateView::Resolving { .. } => event is Resolved || event is ResolveFailed,
        PlayStateView::Enqueueing { .. } => event is Enqueued,
        PlayStateView::Done => false,
    }
}

/// Whether `events` are what a driver reports that does as it is asked:
/// as long as the user is not answered, each event is the one awaited.
pub open spec fn in_turn(state: PlayStateView, events: Seq<EventView>) -> bool
    decreases events.len(),
{
    events.len() == 0 || state is Done || (awaited(state, events[0]) && in_turn(
        next(state, events[0]).0,
        events.skip(1),
    ))
}

/// The awaited report is never ignored: it moves the invocation on.
pub proof fn law_awaited_report_moves_on(state: PlayStateView, event: EventView)
    requires
        awaited(state, event),
    ensures
        !(next(state, event).1 is Ignore),
        stage(next(state, event).0) > stage(state),
{
}

/// With a driver that does as it is asked, every report brings the
/// invocation at least one stage further, until the user is answered.
pub proof fn lemma_in_turn_advances(state: PlayStateView, events: Seq<EventView>)
    requires
        in_turn(state, events),
    ensures
        stage(state_after(state, events)) >= stage(state),
        stage(state_after(state, events)) >= 6 || stage(state_after(state, events)) >= stage(
            state,
        ) + events.len(),
    decreases events.len(),
{
    if events.len() > 0 {
        let after = next(state, events[0]).0;
        law_runs_straight_through(state, events[0]);
        if state is Done {
            lemma_done_stays_done(events);
        } else {
            lemma_in_turn_advances(after, events.skip(1));
        }
    }
}

/// Once the user is answered, the state does not change any more.
pub proof fn lemma_done_stays_done(events: Seq<EventView>)
    ensures
        state_after(PlayStateView::Done, events) is Done,
    decreases events.len(),
{
    if events.len() > 0 {
        lemma_done_stays_done(events.skip(1));
    }
}

/// A run that ends with the user answered holds the answer.
pub proof fn lemma_answer_on_the_way(state: PlayStateView, events: Seq<EventView>) -> (at: int)
    requires
        !(state is Done),
        state_after(state, events) is Done,
    ensures
        0 <= at < events.len(),
        is_answer(run(state, events)[at]),
    decreases events.len(),
{
    let after = next(state, events[0]).0;
    lemma_run_length(after, events.skip(1));
    if after is Done {
        law_answer_ends_invocation(state, events[0]);
        0
    } else {
        lemma_answer_on_the_way(after, events.skip(1)) + 1
    }
}

/// Every invocation is answered, whichever way it goes: with a driver that
/// does as it is asked, one of the first six actions is a message to the
/// user, and the invocation is over after it.
pub proof fn law_every_invocation_is_answered(events: Seq<EventView>) -> (at: int)
    requires
        events.len() >= 6,
        in_turn(PlayStateView::Idle, events),
    ensures
        0 <= at < 6,
        is_answer(run(PlayStateView::Idle, events)[at]),
        state_after(PlayStateView::Idle, events) is Done,
{
    let first_six = events.take(6);
    lemma_in_turn_prefix(PlayStateView::Idle, events, 6);
    lemma_in_turn_advances(PlayStateView::Idle, first_six);
    let at = lemma_answer_on_the_way(PlayStateView::Idle, first_six);
    lemma_run_prefix(PlayStateView::Idle, events, 6);
    lemma_run_length(PlayStateView::Idle, events);
    assert(run(PlayStateView::Idle, events)[at] == run(PlayStateView::Idle, events).take(6)[at]);
    lemma_state_after_prefix(PlayStateView::Idle, events, 6);
    lemma_done_stays_done(events.skip(6));
    at
}

/// The first `n` reports of a driver that does as it is asked are such
/// reports themselves.
pub proof fn lemma_in_turn_prefix(state: PlayStateView, events: Seq<EventView>, n: int)
    requires
        0 <= n <= events.len(),
        in_turn(state, events),
    ensures
        in_turn(state, events.take(n)),
    decreases n,
{
    if n > 0 && !(state is Done) {
        let head = events.take(n);
        assert(head[0] == events[0]);
        assert(head.skip(1) =~= events.skip(1).take(n - 1));
        lemma_in_turn_prefix(next(state, events[0]).0, events.skip(1), n - 1);
    }
}

/// A run begins with the run on the first `n` events.
pub proof fn lemma_run_prefix(state: PlayStateView, events: Seq<EventView>, n: int)
    requires
        0 <= n <= events.len(),
    ensures
        run(state, events.take(n)) =~= run(state, events).take(n),
    decreases n,
{
    lemma_run_length(state, events);
    lemma_run_length(state, events.take(n));
    if n > 0 {
        let head = events.take(n);
        let after = next(state, events[0]).0;
        assert(head[0] == events[0]);
        assert(head.skip(1) =~= events.skip(1).take(n - 1));
        lemma_run_prefix(after, events.skip(1), n - 1);
        lemma_run_length(after, events.skip(1));
        lemma_run_length(after, events.skip(1).take(n - 1));
    }
}

/// The state after all events is the state after the rest of them, taken
/// from the state after the first `n`.
pub proof fn lemma_state_after_prefix(state: PlayStateView, events: Seq<EventView>, n: int)
    requires
        0 <= n <= events.len(),
    ensures
        state_after(state, events) == state_after(
            state_after(state, events.take(n)),
            events.skip(n),
        ),
    decreases n,
{
    if n > 0 {
        let head = events.take(n);
        let after = next(state, events[0]).0;
        assert(head[0] == events[0]);
        assert(head.skip(1) =~= events.skip(1).take(n - 1));
        assert(events.skip(1).skip(n - 1) =~= events.skip(n));
        lemma_state_after_prefix(after, events.skip(1), n - 1);
    } else {
        assert(events.skip(0) =~= events);
    }
}

/// Whether the driver holds the guild's session while the machine is in
/// `state`: from the moment the session is found until the action that
/// leaves this state has been performed.
pub open spec fn holds_session(state: PlayStateView) -> bool {
    state is Resolving
}

/// Whether performing `action` ends with the session released.
pub open spec fn releases_session(action: ActionView) -> bool {
    action is Enqueue || action is Abandon
}

/// The session is held for the resolution and the enqueue, and for nothing
/// else. It is taken only when the lookup finds it; the action that leaves
/// the window is one that releases it, and no other action does; and a
/// plain reply or the status message is never asked for from inside the
/// window, so the user is answered with the session released.
pub proof fn law_session_window(state: PlayStateView, event: EventView)
    ensures
        !holds_session(state) && holds_session(next(state, event).0) ==> state is Locating
            && event == (EventView::SessionLookup { found: true }),
        holds_session(state) && !(next(state, event).1 is Ignore) ==> releases_session(
            next(state, event).1,
        ) && !holds_session(next(state, event).0),
        releases_session(next(state, event).1) ==> holds_session(state),
        next(state, event).1 is Reply || next(state, event).1 is SendStatus ==> !holds_session(
            state,
        ),
{
}

/// What the driver reports while one invocation has the session to itself,
/// when the session's queue holds `queue_before` tracks at the start, the
/// source resolves, and queueing it adds one track to the queue.
pub open spec fn turn_with_session(metadata: TrackMetadataView, queue_before: nat) -> Seq<
    EventView,
> {
    seq![
        EventView::SessionLookup { found: true },
        EventView::Resolved { metadata },
        EventView::Enqueued { queue_length: (queue_before + 1) as usize },
    ]
}

/// Two invocations that have the same session one after the other, with
/// nothing else changing its queue in between, report successive lengths:
/// the later one reports one track more than the earlier one, so they never
/// report the same length.
///
/// That no two invocations have the session at once is the driver's to
/// ensure; this says what the user reads when it does.
pub proof fn law_turns_report_successive_lengths(
    earlier: PlayRequestView,
    earlier_metadata: TrackMetadataView,
    later: PlayRequestView,
    later_metadata: TrackMetadataView,
    queue_before: nat,
)
    requires
        queue_before + 2 <= usize::MAX,
    ensures
        ({
            let first = run(
                PlayStateView::Locating { request: earlier },
                turn_with_session(earlier_metadata, queue_before),
            );
            let second = run(
                PlayStateView::Locating { request: later },
                turn_with_session(later_metadata, queue_before + 1),
            );
            &&& first.len() == 3
            &&& second.len() == 3
            &&& first[2] == (ActionView::SendStatus {
                embed: status_for(earlier, earlier_metadata, (queue_before + 1) as usize),
            })
            &&& second[2] == (ActionView::SendStatus {
                embed: status_for(later, later_metadata, (queue_before + 2) as usize),
            })
            &&& first[2]->embed.queue_length + 1 == second[2]->embed.queue_length
        }),
{
    lemma_turn_with_session(earlier, earlier_metadata, queue_before);
    lemma_turn_with_session(later, later_metadata, queue_before + 1);
}

/// One invocation's time with the session: the URL is resolved, the source
/// queued once, and the status message reports the length after that.
pub proof fn lemma_turn_with_session(
    request: PlayRequestView,
    metadata: TrackMetadataView,
    queue_before: nat,
)
    ensures
        run(PlayStateView::Locating { request }, turn_with_session(metadata, queue_before))
            == seq![
            ActionView::ResolveMedia { url: request.url },
            ActionView::Enqueue { note: queueing_line(request.url) },
            ActionView::SendStatus {
                embed: status_for(request, metadata, (queue_before + 1) as usize),
            },
        ],
{
    let length = (queue_before + 1) as usize;
    let e0 = EventView::SessionLookup { found: true };
    let e1 = EventView::Resolved { metadata };
    let e2 = EventView::Enqueued { queue_length: length };
    let none = Seq::<EventView>::empty();
    assert(turn_with_session(metadata, queue_before) =~= seq![e0] + (seq![e1] + (seq![e2] + none)));
    lemma_run_unfolds(PlayStateView::Locating { request }, e0, seq![e1] + (seq![e2] + none));
    lemma_run_unfolds(PlayStateView::Resolving { request }, e1, seq![e2] + none);
    lemma_run_unfolds(PlayStateView::Enqueueing { request, metadata }, e2, none);
    assert(run(PlayStateView::Done, none) =~= Seq::<ActionView>::empty());
    assert(run(PlayStateView::Locating { request }, turn_with_session(metadata, queue_before))
        =~= seq![
        ActionView::ResolveMedia { url: request.url },
        ActionView::Enqueue { note: queueing_line(request.url) },
        ActionView::SendStatus { embed: status_for(request, metadata, length) },
    ]);
}

} // verus!
