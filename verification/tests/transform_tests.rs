use event_relay::channel::{BroadcastChannel, RecvOutcome};
use event_relay::poll::{plan_tick, run_tick, FetchOutcome};
use event_relay::transform::{check_for_bot, clean_gh_payload};
use event_relay::types::{
    Actor, Commit, CommitPayload, Event, IssueCommentPayload, IssuesPayload, Payload, PullReqPayload,
    PullRequest, Repo,
};

fn sample_actor(display_login: &str) -> Actor {
    Actor {
        id: 7,
        url: "https://api.github.com/users/alice".to_string(),
        avatar_url: "https://avatars.github.com/u/7?".to_string(),
        display_login: display_login.to_string(),
    }
}

fn sample_repo() -> Repo {
    Repo {
        id: 11,
        name: "owner/repo".to_string(),
        url: "https://api.github.com/repos/owner/repo".to_string(),
    }
}

fn push_event(display_login: &str) -> Event {
    Event {
        id: "100".to_string(),
        event_type: "PushEvent".to_string(),
        actor: sample_actor(display_login),
        repo: sample_repo(),
        payload: Payload::Commits(CommitPayload {
            size: 2,
            commits: vec![Commit {
                sha: "abc123".to_string(),
                message: "fix".to_string(),
                url: "https://api.github.com/repos/owner/repo/commits/abc123".to_string(),
            }],
        }),
    }
}

fn pull_request_event(action: &str) -> Event {
    Event {
        id: "101".to_string(),
        event_type: "PullRequestEvent".to_string(),
        actor: sample_actor("alice"),
        repo: sample_repo(),
        payload: Payload::PullReq(PullReqPayload {
            action: action.to_string(),
            pull_request: PullRequest {
                url: "https://api.github.com/repos/owner/repo/pulls/7".to_string(),
            },
        }),
    }
}

#[test]
fn bot_logins_are_detected_case_insensitively() {
    assert!(check_for_bot(&"GitHub-Actions".to_string()));
    assert!(check_for_bot(&"dependaBOT".to_string()));
    assert!(check_for_bot(&"codecov-commenter".to_string()));
    assert!(!check_for_bot(&"alice".to_string()));
    assert!(!check_for_bot(&"octocat".to_string()));
}

#[test]
fn bot_event_yields_no_message_and_no_publish_that_tick() {
    let tick = plan_tick(FetchOutcome::Events(vec![push_event("github-actions[bot]")]));
    assert!(tick.is_none());
    let mut ch = BroadcastChannel::new();
    let mut cursor = ch.subscribe();
    let message = tick.map(|_| "unreachable".to_string());
    let delivered = run_tick(&mut ch, message);
    assert!(delivered.is_none());
    match ch.recv(&mut cursor) {
        RecvOutcome::Pending => {}
        _ => panic!("a skipped tick publishes nothing"),
    }
}

#[test]
fn pull_request_opened_is_relayed_once_with_browser_facing_url() {
    let tick = plan_tick(FetchOutcome::Events(vec![pull_request_event("opened")]));
    let cleaned = tick.expect("one pull-request event must produce a message");
    assert_eq!(cleaned.len(), 1);
    assert_eq!(cleaned[0].event_type, "PullRequestEvent");
    assert_eq!(cleaned[0].action, "opened");
    assert_eq!(cleaned[0].event_url, "https://github.com/owner/repo/pull/7");
    assert_eq!(cleaned[0].commits_size, 0);

    let rendered = format!("{}:{}", cleaned[0].action, cleaned[0].event_url);
    let mut ch = BroadcastChannel::new();
    let mut first = ch.subscribe();
    let mut second = ch.subscribe();
    let delivered = run_tick(&mut ch, Some(rendered.clone()));
    assert_eq!(delivered, Some(2));
    for cursor in [&mut first, &mut second] {
        match ch.recv(cursor) {
            RecvOutcome::Message(m) => assert_eq!(m, rendered),
            _ => panic!("every current subscriber receives the message verbatim"),
        }
    }
}

#[test]
fn push_event_rewrites_commit_repo_and_actor_urls() {
    let cleaned = clean_gh_payload(vec![push_event("alice")]);
    assert_eq!(cleaned.len(), 1);
    assert_eq!(cleaned[0].event_type, "PushEvent");
    assert_eq!(cleaned[0].action, "");
    assert_eq!(cleaned[0].commits_size, 2);
    assert_eq!(
        cleaned[0].event_url,
        "https://github.com/owner/repo/commit/abc123"
    );
    assert_eq!(cleaned[0].repo.url, "https://github.com/owner/repo");
    assert_eq!(cleaned[0].actor.url, "https://github.com/alice");
    assert_eq!(cleaned[0].actor.avatar_url, "https://avatars.github.com/u/7?s=64");
}

#[test]
fn push_event_with_no_commits_gets_an_empty_event_url() {
    let mut ev = push_event("alice");
    ev.payload = Payload::Commits(CommitPayload { size: 0, commits: Vec::new() });
    let cleaned = clean_gh_payload(vec![ev]);
    assert_eq!(cleaned.len(), 1);
    assert_eq!(cleaned[0].event_url, "");
    assert_eq!(cleaned[0].commits_size, 0);
}

#[test]
fn issue_comment_event_uses_the_comment_address_unchanged() {
    let ev = Event {
        id: "102".to_string(),
        event_type: "IssueCommentEvent".to_string(),
        actor: sample_actor("alice"),
        repo: sample_repo(),
        payload: Payload::IssueComment(IssueCommentPayload {
            html_url: "https://github.com/owner/repo/issues/3#issuecomment-9".to_string(),
        }),
    };
    let cleaned = clean_gh_payload(vec![ev]);
    assert_eq!(cleaned.len(), 1);
    assert_eq!(cleaned[0].action, "commented");
    assert_eq!(
        cleaned[0].event_url,
        "https://github.com/owner/repo/issues/3#issuecomment-9"
    );
}

#[test]
fn issues_event_keeps_its_action_and_address() {
    let ev = Event {
        id: "103".to_string(),
        event_type: "IssuesEvent".to_string(),
        actor: sample_actor("alice"),
        repo: sample_repo(),
        payload: Payload::Issues(IssuesPayload {
            action: "closed".to_string(),
            html_url: "https://github.com/owner/repo/issues/3".to_string(),
        }),
    };
    let cleaned = clean_gh_payload(vec![ev]);
    assert_eq!(cleaned.len(), 1);
    assert_eq!(cleaned[0].action, "closed");
    assert_eq!(cleaned[0].event_url, "https://github.com/owner/repo/issues/3");
}

#[test]
fn unrecognized_kinds_and_malformed_payloads_are_dropped() {
    let mut watch = push_event("alice");
    watch.event_type = "WatchEvent".to_string();
    let mut malformed = push_event("alice");
    malformed.payload = Payload::Unrecognized;
    let cleaned = clean_gh_payload(vec![watch, malformed]);
    assert_eq!(cleaned.len(), 0);
}

#[test]
fn a_batch_keeps_only_relayed_events_in_order() {
    let batch = vec![
        pull_request_event("opened"),
        push_event("github-actions[bot]"),
        push_event("alice"),
    ];
    let cleaned = clean_gh_payload(batch);
    assert_eq!(cleaned.len(), 2);
    assert_eq!(cleaned[0].event_type, "PullRequestEvent");
    assert_eq!(cleaned[1].event_type, "PushEvent");
}

#[test]
fn failed_fetch_on_one_tick_does_not_prevent_publish_on_the_next() {
    let mut ch = BroadcastChannel::new();
    let mut cursor = ch.subscribe();

    assert!(plan_tick(FetchOutcome::NetworkError).is_none());
    assert!(plan_tick(FetchOutcome::HttpStatus(503)).is_none());
    assert!(plan_tick(FetchOutcome::MalformedBody).is_none());
    assert!(run_tick(&mut ch, None).is_none());
    match ch.recv(&mut cursor) {
        RecvOutcome::Pending => {}
        _ => panic!("a failed tick publishes nothing"),
    }

    let tick = plan_tick(FetchOutcome::Events(vec![pull_request_event("opened")]));
    assert!(tick.is_some());
    let delivered = run_tick(&mut ch, Some("next-tick".to_string()));
    assert_eq!(delivered, Some(1));
    match ch.recv(&mut cursor) {
        RecvOutcome::Message(m) => assert_eq!(m, "next-tick"),
        _ => panic!("the tick after a failure publishes normally"),
    }
}

#[test]
fn empty_batch_and_all_dropped_batch_produce_no_message() {
    assert!(plan_tick(FetchOutcome::Events(Vec::new())).is_none());
    let tick = plan_tick(FetchOutcome::Events(vec![push_event("codecov-bot")]));
    assert!(tick.is_none());
}
