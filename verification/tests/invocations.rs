use play_command::embed::StatusEmbed;
use play_command::model::{PlayRequest, TrackMetadata, UserRef};
use play_command::play::{
    on_enqueued, on_first_argument, on_guild, on_join_returned, on_resolve_failed, on_resolved,
    on_session_lookup, refuse, step, Action, Event, PlayState,
};
use play_command::replies::Refusal;
use play_command::voice::VoiceStates;

const URL: &str = "http://example.com/a.mp3";
const GUILD: u64 = 100;
const CHANNEL_V: u64 = 555;

fn ada() -> UserRef {
    UserRef {
        id: 7,
        name: String::from("ada"),
        avatar_url: Some(String::from("https://cdn.example.com/ada.png")),
    }
}

fn ada_in(channel: u64) -> VoiceStates {
    let mut states = VoiceStates::new();
    states.set(3, Some(1));
    states.set(7, Some(channel));
    states
}

fn request() -> PlayRequest {
    PlayRequest { url: String::from(URL), invoking_user: ada(), guild_id: GUILD }
}

fn song() -> TrackMetadata {
    TrackMetadata {
        title: Some(String::from("A Song")),
        thumbnail: Some(String::from("http://example.com/a.png")),
    }
}

fn reply(text: &str) -> Action {
    Action::Reply { text: String::from(text) }
}

/// Feeds `events` to a fresh invocation and collects the actions.
fn run(events: Vec<Event>) -> (PlayState, Vec<Action>) {
    let mut state = PlayState::new();
    let mut actions = Vec::new();
    for event in events {
        let (next, action) = step(state, event);
        state = next;
        actions.push(action);
    }
    (state, actions)
}

fn every_event() -> Vec<Event> {
    vec![
        Event::Invoked { raw_args: String::from(URL) },
        Event::GuildResolved { guild_id: GUILD, user: ada(), voice_states: ada_in(CHANNEL_V) },
        Event::JoinReturned,
        Event::SessionLookup { found: true },
        Event::SessionLookup { found: false },
        Event::Resolved { metadata: song() },
        Event::ResolveFailed { detail: String::from("boom") },
        Event::Enqueued { queue_length: 1 },
    ]
}

fn touches_session(action: &Action) -> bool {
    matches!(action, Action::Join { .. } | Action::FindSession { .. } | Action::Enqueue { .. })
}

#[test]
fn a_fresh_invocation_is_idle() {
    assert_eq!(PlayState::new(), PlayState::Idle);
    assert!(!PlayState::new().is_done());
    assert!(PlayState::Done.is_done());
}

#[test]
fn no_argument_is_answered_and_nothing_else_happens() {
    let mut events = vec![Event::Invoked { raw_args: String::new() }];
    events.extend(every_event());
    let (state, actions) = run(events);
    assert_eq!(state, PlayState::Done);
    assert_eq!(actions[0], reply("URL not provided."));
    assert!(actions[1..].iter().all(|a| *a == Action::Ignore));
    assert!(!actions.iter().any(touches_session));
}

#[test]
fn only_spaces_count_as_no_argument() {
    let (state, action) = step(PlayState::new(), Event::Invoked { raw_args: String::from("  ") });
    assert_eq!(state, PlayState::Done);
    assert_eq!(action, reply("URL not provided."));
}

#[test]
fn an_argument_without_http_is_answered_and_nothing_else_happens() {
    let mut events = vec![Event::Invoked { raw_args: String::from("example.com/a.mp3") }];
    events.extend(every_event());
    let (state, actions) = run(events);
    assert_eq!(state, PlayState::Done);
    assert_eq!(actions[0], reply("The URL provided is not valid."));
    assert!(actions[1..].iter().all(|a| *a == Action::Ignore));
    assert!(!actions.iter().any(touches_session));
}

#[test]
fn only_the_first_argument_is_checked() {
    let (state, action) =
        step(PlayState::new(), Event::Invoked { raw_args: String::from("nope http://x") });
    assert_eq!(state, PlayState::Done);
    assert_eq!(action, reply("The URL provided is not valid."));

    let (state, action) =
        step(PlayState::new(), Event::Invoked { raw_args: String::from("http://x nope") });
    assert_eq!(state, PlayState::AwaitingGuild { url: String::from("http://x") });
    assert_eq!(action, Action::ResolveGuild);
}

#[test]
fn a_malformed_url_with_the_prefix_passes() {
    let (state, action) =
        step(PlayState::new(), Event::Invoked { raw_args: String::from("httpfoo") });
    assert_eq!(state, PlayState::AwaitingGuild { url: String::from("httpfoo") });
    assert_eq!(action, Action::ResolveGuild);
}

#[test]
fn a_user_outside_voice_is_answered_and_nothing_is_joined() {
    let mut others = VoiceStates::new();
    others.set(3, Some(1));
    let mut events = vec![
        Event::Invoked { raw_args: String::from(URL) },
        Event::GuildResolved { guild_id: GUILD, user: ada(), voice_states: others },
    ];
    events.extend(every_event());
    let (state, actions) = run(events);
    assert_eq!(state, PlayState::Done);
    assert_eq!(actions[0], Action::ResolveGuild);
    assert_eq!(actions[1], reply("You are not in a voice channel"));
    assert!(actions[2..].iter().all(|a| *a == Action::Ignore));
    assert!(!actions.iter().any(touches_session));
}

#[test]
fn a_voice_state_without_channel_counts_as_outside_voice() {
    let mut states = VoiceStates::new();
    states.set(7, None);
    let (state, action) = on_guild(String::from(URL), GUILD, ada(), &states);
    assert_eq!(state, PlayState::Done);
    assert_eq!(action, reply("You are not in a voice channel"));
}

#[test]
fn a_successful_invocation_queues_once_and_reports() {
    let (state, actions) = run(vec![
        Event::Invoked { raw_args: String::from(URL) },
        Event::GuildResolved { guild_id: GUILD, user: ada(), voice_states: ada_in(CHANNEL_V) },
        Event::JoinReturned,
        Event::SessionLookup { found: true },
        Event::Resolved { metadata: song() },
        Event::Enqueued { queue_length: 4 },
    ]);
    assert_eq!(state, PlayState::Done);
    assert_eq!(
        actions,
        vec![
            Action::ResolveGuild,
            Action::Join { guild_id: GUILD, channel_id: CHANNEL_V },
            Action::FindSession { guild_id: GUILD },
            Action::ResolveMedia { url: String::from(URL) },
            Action::Enqueue {
                note: String::from("adding track 'http://example.com/a.mp3' to queue"),
            },
            Action::SendStatus {
                embed: StatusEmbed {
                    colour: 0xfcd34d,
                    thumbnail: Some(String::from("http://example.com/a.png")),
                    title: String::from("Playing: A Song"),
                    url: String::from(URL),
                    field_name: String::from("Tracks in queue:"),
                    queue_length: 4,
                    field_inline: false,
                    footer_text: String::from("ada"),
                    footer_icon: Some(String::from("https://cdn.example.com/ada.png")),
                },
            },
        ]
    );
    let enqueues = actions.iter().filter(|a| matches!(a, Action::Enqueue { .. })).count();
    assert_eq!(enqueues, 1);
}

#[test]
fn the_states_of_a_successful_invocation_follow_in_order() {
    let (state, _) = step(PlayState::new(), Event::Invoked { raw_args: String::from(URL) });
    assert_eq!(state, PlayState::AwaitingGuild { url: String::from(URL) });
    let (state, _) = step(
        state,
        Event::GuildResolved { guild_id: GUILD, user: ada(), voice_states: ada_in(CHANNEL_V) },
    );
    assert_eq!(state, PlayState::Joining { request: request() });
    let (state, _) = step(state, Event::JoinReturned);
    assert_eq!(state, PlayState::Locating { request: request() });
    let (state, _) = step(state, Event::SessionLookup { found: true });
    assert_eq!(state, PlayState::Resolving { request: request() });
    let (state, _) = step(state, Event::Resolved { metadata: song() });
    assert_eq!(state, PlayState::Enqueueing { request: request(), metadata: song() });
    let (state, _) = step(state, Event::Enqueued { queue_length: 1 });
    assert_eq!(state, PlayState::Done);
}

#[test]
fn a_missing_session_is_answered_and_nothing_is_queued() {
    let mut events = vec![
        Event::Invoked { raw_args: String::from(URL) },
        Event::GuildResolved { guild_id: GUILD, user: ada(), voice_states: ada_in(CHANNEL_V) },
        Event::JoinReturned,
        Event::SessionLookup { found: false },
    ];
    events.extend(every_event());
    let (state, actions) = run(events);
    assert_eq!(state, PlayState::Done);
    assert_eq!(actions[3], reply("Not in a voice channel to play in."));
    assert!(actions[4..].iter().all(|a| *a == Action::Ignore));
    assert!(!actions.iter().any(|a| matches!(a, Action::Enqueue { .. })));
}

#[test]
fn a_failed_resolution_is_logged_and_answered_and_nothing_is_queued() {
    let mut events = vec![
        Event::Invoked { raw_args: String::from(URL) },
        Event::GuildResolved { guild_id: GUILD, user: ada(), voice_states: ada_in(CHANNEL_V) },
        Event::JoinReturned,
        Event::SessionLookup { found: true },
        Event::ResolveFailed { detail: String::from("Json { parsed_text: \"\" }") },
    ];
    events.extend(every_event());
    let (state, actions) = run(events);
    assert_eq!(state, PlayState::Done);
    assert_eq!(
        actions[4],
        Action::Abandon {
            log: String::from("error starting source: Json { parsed_text: \"\" }"),
            reply: String::from("Error starting source."),
        }
    );
    assert!(actions[5..].iter().all(|a| *a == Action::Ignore));
    assert!(!actions.iter().any(|a| matches!(a, Action::Enqueue { .. })));
}

#[test]
fn missing_metadata_does_not_stop_the_status_message() {
    let bare = UserRef { id: 7, name: String::from("ada"), avatar_url: None };
    let (state, actions) = run(vec![
        Event::Invoked { raw_args: String::from(URL) },
        Event::GuildResolved { guild_id: GUILD, user: bare, voice_states: ada_in(CHANNEL_V) },
        Event::JoinReturned,
        Event::SessionLookup { found: true },
        Event::Resolved { metadata: TrackMetadata { title: None, thumbnail: None } },
        Event::Enqueued { queue_length: 1 },
    ]);
    assert_eq!(state, PlayState::Done);
    assert_eq!(
        actions[5],
        Action::SendStatus {
            embed: StatusEmbed {
                colour: 0xfcd34d,
                thumbnail: None,
                title: String::from("Playing: "),
                url: String::from(URL),
                field_name: String::from("Tracks in queue:"),
                queue_length: 1,
                field_inline: false,
                footer_text: String::from("ada"),
                footer_icon: None,
            },
        }
    );
}

#[test]
fn two_invocations_in_turn_report_lengths_one_and_two() {
    let mut queue: Vec<String> = Vec::new();
    let mut reported = Vec::new();
    for url in ["http://example.com/a.mp3", "http://example.com/b.mp3"] {
        let start = PlayState::Locating {
            request: PlayRequest { url: String::from(url), invoking_user: ada(), guild_id: GUILD },
        };
        let (state, action) = step(start, Event::SessionLookup { found: true });
        assert_eq!(action, Action::ResolveMedia { url: String::from(url) });
        let (state, action) = step(state, Event::Resolved { metadata: song() });
        assert!(matches!(action, Action::Enqueue { .. }));
        queue.push(String::from(url));
        let (_, action) = step(state, Event::Enqueued { queue_length: queue.len() });
        match action {
            Action::SendStatus { embed } => reported.push(embed.queue_length),
            other => panic!("unexpected action {:?}", other),
        }
    }
    assert_eq!(reported, vec![1, 2]);
}

#[test]
fn an_event_out_of_turn_changes_nothing() {
    let states = vec![
        PlayState::Idle,
        PlayState::AwaitingGuild { url: String::from(URL) },
        PlayState::Joining { request: request() },
        PlayState::Locating { request: request() },
        PlayState::Resolving { request: request() },
        PlayState::Enqueueing { request: request(), metadata: song() },
        PlayState::Done,
    ];
    let expected = [1, 1, 1, 2, 2, 1, 0];
    for (state, taken) in states.into_iter().zip(expected) {
        let mut count = 0;
        for event in every_event() {
            let (after, action) = step(state.clone(), event);
            if action == Action::Ignore {
                assert_eq!(after, state);
            } else {
                assert_ne!(after, state);
                count += 1;
            }
        }
        assert_eq!(count, taken);
    }
}

#[test]
fn answers_end_the_invocation() {
    assert!(reply("x").ends_invocation());
    assert!(Action::Abandon { log: String::new(), reply: String::new() }.ends_invocation());
    let (_, status) = on_enqueued(&request(), &song(), 1);
    assert!(status.ends_invocation());
    assert!(!Action::Ignore.ends_invocation());
    assert!(!Action::ResolveGuild.ends_invocation());
    assert!(!Action::Join { guild_id: 1, channel_id: 2 }.ends_invocation());
    assert!(!Action::FindSession { guild_id: 1 }.ends_invocation());
    assert!(!Action::ResolveMedia { url: String::new() }.ends_invocation());
    assert!(!Action::Enqueue { note: String::new() }.ends_invocation());
}

#[test]
fn each_refusal_ends_with_its_reply() {
    let all = [
        (Refusal::UrlMissing, "URL not provided."),
        (Refusal::UrlInvalid, "The URL provided is not valid."),
        (Refusal::NotInVoiceChannel, "You are not in a voice channel"),
        (Refusal::NoSession, "Not in a voice channel to play in."),
        (Refusal::SourceFailed, "Error starting source."),
    ];
    for (why, text) in all {
        assert_eq!(refuse(why), (PlayState::Done, reply(text)));
    }
}

#[test]
fn decisions_on_given_outcomes() {
    assert_eq!(on_first_argument(None), (PlayState::Done, reply("URL not provided.")));
    assert_eq!(
        on_first_argument(Some(String::from("ftp://x"))),
        (PlayState::Done, reply("The URL provided is not valid."))
    );
    assert_eq!(
        on_first_argument(Some(String::from(URL))),
        (PlayState::AwaitingGuild { url: String::from(URL) }, Action::ResolveGuild)
    );
    assert_eq!(
        on_guild(String::from(URL), GUILD, ada(), &ada_in(CHANNEL_V)),
        (
            PlayState::Joining { request: request() },
            Action::Join { guild_id: GUILD, channel_id: CHANNEL_V }
        )
    );
    assert_eq!(
        on_join_returned(request()),
        (PlayState::Locating { request: request() }, Action::FindSession { guild_id: GUILD })
    );
    assert_eq!(
        on_session_lookup(request(), true),
        (PlayState::Resolving { request: request() }, Action::ResolveMedia { url: String::from(URL) })
    );
    assert_eq!(
        on_session_lookup(request(), false),
        (PlayState::Done, reply("Not in a voice channel to play in."))
    );
    assert_eq!(
        on_resolved(request(), song()),
        (
            PlayState::Enqueueing { request: request(), metadata: song() },
            Action::Enqueue {
                note: String::from("adding track 'http://example.com/a.mp3' to queue")
            }
        )
    );
    assert_eq!(
        on_resolve_failed("boom"),
        (
            PlayState::Done,
            Action::Abandon {
                log: String::from("error starting source: boom"),
                reply: String::from("Error starting source."),
            }
        )
    );
}

#[test]
fn every_way_through_ends_with_exactly_one_answer() {
    let mut nobody = VoiceStates::new();
    nobody.set(3, Some(1));
    let invoked = |text: &str| Event::Invoked { raw_args: String::from(text) };
    let guild = |states: VoiceStates| Event::GuildResolved {
        guild_id: GUILD,
        user: ada(),
        voice_states: states,
    };
    let ways: Vec<Vec<Event>> = vec![
        vec![invoked("")],
        vec![invoked("a.mp3")],
        vec![invoked(URL), guild(nobody)],
        vec![
            invoked(URL),
            guild(ada_in(CHANNEL_V)),
            Event::JoinReturned,
            Event::SessionLookup { found: false },
        ],
        vec![
            invoked(URL),
            guild(ada_in(CHANNEL_V)),
            Event::JoinReturned,
            Event::SessionLookup { found: true },
            Event::ResolveFailed { detail: String::from("boom") },
        ],
        vec![
            invoked(URL),
            guild(ada_in(CHANNEL_V)),
            Event::JoinReturned,
            Event::SessionLookup { found: true },
            Event::Resolved { metadata: song() },
            Event::Enqueued { queue_length: 1 },
        ],
    ];
    for events in ways {
        let steps = events.len();
        assert!(steps <= 6);
        let (state, actions) = run(events);
        assert!(state.is_done());
        assert_eq!(actions.iter().filter(|a| a.ends_invocation()).count(), 1);
        assert!(actions[steps - 1].ends_invocation());
        assert!(!actions.iter().any(|a| *a == Action::Ignore));
    }
}
