//! The payload transform: drop events raised by bots, rewrite API-facing
//! addresses into their browser-facing equivalents, and reshape each
//! recognized event into the form delivered to subscribers.
use vstd::prelude::*;
use vstd::string::StringExecFns;

use crate::strutil::{contains_sub, has_substring, lower_of, replace_chars, replace_str, to_lower};
use crate::types::{
    Actor, ActorV, Event, EventForClient, EventForClientV, EventV, Payload, PayloadV, Repo, RepoV,
    client_event_views, event_views,
};

verus! {

/// A display login belongs to a non-human actor when, lowercased, it
/// mentions a well-known automation name.
pub open spec fn is_bot(name: Seq<char>) -> bool {
    ||| has_substring(lower_of(name), "github-actions"@)
    ||| has_substring(lower_of(name), "bot"@)
    ||| has_substring(lower_of(name), "codecov"@)
}

/// A repository's API address rewritten to its browser-facing equivalent.
pub open spec fn repo_ui_url(u: Seq<char>) -> Seq<char> {
    replace_chars(replace_chars(u, "/api.github"@, "/github"@), "/repos/"@, "/"@)
}

/// An actor's API address rewritten to its browser-facing equivalent.
pub open spec fn actor_ui_url(u: Seq<char>) -> Seq<char> {
    replace_chars(replace_chars(u, "/api.github"@, "/github"@), "/users/"@, "/"@)
}

/// A commit's API address rewritten to its browser-facing equivalent.
pub open spec fn commit_ui_url(u: Seq<char>) -> Seq<char> {
    replace_chars(repo_ui_url(u), "/commits/"@, "/commit/"@)
}

/// A pull request's API address rewritten to its browser-facing equivalent.
pub open spec fn pull_req_ui_url(u: Seq<char>) -> Seq<char> {
    replace_chars(repo_ui_url(u), "/pulls/"@, "/pull/"@)
}

/// The repository as delivered: same identity, browser-facing address.
pub open spec fn cleaned_repo(r: RepoV) -> RepoV {
    RepoV { id: r.id, name: r.name, url: repo_ui_url(r.url) }
}

/// The actor as delivered: browser-facing address, avatar pinned to 64 px.
pub open spec fn cleaned_actor(a: ActorV) -> ActorV {
    ActorV {
        id: a.id,
        url: actor_ui_url(a.url),
        avatar_url: a.avatar_url + "s=64"@,
        display_login: a.display_login,
    }
}

/// What one raw event becomes: nothing when its actor is a bot, when its
/// kind is not relayed, or when its payload does not have the shape its kind
/// calls for; otherwise the cleaned event.
pub open spec fn clean_one(e: EventV) -> Option<EventForClientV> {
    if is_bot(e.actor.display_login) {
        None
    } else if e.event_type == "PushEvent"@ {
        match e.payload {
            PayloadV::Commits(cp) => Some(
                EventForClientV {
                    event_type: e.event_type,
                    actor: cleaned_actor(e.actor),
                    repo: cleaned_repo(e.repo),
                    event_url: if cp.commits.len() > 0 {
                        commit_ui_url(cp.commits[0].url)
                    } else {
                        Seq::empty()
                    },
                    action: Seq::empty(),
                    commits_size: cp.size,
                },
            ),
            _ => None,
        }
    } else if e.event_type == "PullRequestEvent"@ {
        match e.payload {
            PayloadV::PullReq(p) => Some(
                EventForClientV {
                    event_type: e.event_type,
                    actor: cleaned_actor(e.actor),
                    repo: cleaned_repo(e.repo),
                    event_url: pull_req_ui_url(p.pull_request.url),
                    action: p.action,
                    commits_size: 0,
                },
            ),
            _ => None,
        }
    } else if e.event_type == "IssueCommentEvent"@ {
        match e.payload {
            PayloadV::IssueComment(c) => Some(
                EventForClientV {
                    event_type: e.event_type,
                    actor: cleaned_actor(e.actor),
                    repo: cleaned_repo(e.repo),
                    event_url: c.html_url,
                    action: "commented"@,
                    commits_size: 0,
                },
            ),
            _ => None,
        }
    } else if e.event_type == "IssuesEvent"@ {
        match e.payload {
            PayloadV::Issues(ip) => Some(
                EventForClientV {
                    event_type: e.event_type,
                    actor: cleaned_actor(e.actor),
                    repo: cleaned_repo(e.repo),
                    event_url: ip.html_url,
                    action: ip.action,
                    commits_size: 0,
                },
            ),
            _ => None,
        }
    } else {
        None
    }
}

/// What a whole batch of raw events becomes, in order, keeping only the
/// events `clean_one` keeps.
pub open spec fn clean_gh_spec(s: Seq<EventV>) -> Seq<EventForClientV>
    decreases s.len(),
{
    if s.len() == 0 {
        Seq::empty()
    } else {
        clean_gh_spec(s.drop_last()) + match clean_one(s.last()) {
            Some(c) => seq![c],
            None => Seq::<EventForClientV>::empty(),
        }
    }
}

/// True when the display login belongs to a non-human actor.
pub fn check_for_bot(actor_display_name: &String) -> (r: bool)
    ensures
        r == is_bot(actor_display_name@),
{
    let lowered = to_lower(actor_display_name.as_str());
    contains_sub(lowered.as_str(), "github-actions") || contains_sub(lowered.as_str(), "bot")
        || contains_sub(lowered.as_str(), "codecov")
}

/// Clean a batch of raw upstream events: skip events raised by bots and
/// events of unrecognized kind or malformed payload, rewrite every address
/// to its browser-facing form, and keep publish order.
pub fn clean_gh_payload(events: Vec<Event>) -> (r: Vec<EventForClient>)
    ensures
        client_event_views(r@) == clean_gh_spec(event_views(events@)),
{
    let mut cleaned_events: Vec<EventForClient> = Vec::new();
    let mut i: usize = 0;
    while i < events.len()
        invariant
            i <= events@.len(),
            client_event_views(cleaned_events@) == clean_gh_spec(
                event_views(events@).take(i as int),
            ),
        decreases events@.len() - i,
    {
        let ghost evs = event_views(events@);
        let ghost before = cleaned_events@;
        proof {
            reveal_strlit("/api.github");
            reveal_strlit("/repos/");
            reveal_strlit("/users/");
            reveal_strlit("/commits/");
            reveal_strlit("/pulls/");
        }
        let ev = &events[i];

        if !check_for_bot(&ev.actor.display_login) {
            let repo = Repo {
                id: ev.repo.id,
                name: ev.repo.name.clone(),
                url: replace_str(
                    replace_str(ev.repo.url.as_str(), "/api.github", "/github").as_str(),
                    "/repos/",
                    "/",
                ),
            };
            let mut avatar_url = ev.actor.avatar_url.clone();
            avatar_url.append("s=64");
            let actor = Actor {
                id: ev.actor.id,
                url: replace_str(
                    replace_str(ev.actor.url.as_str(), "/api.github", "/github").as_str(),
                    "/users/",
                    "/",
                ),
                avatar_url,
                display_login: ev.actor.display_login.clone(),
            };

            let push_kind = String::from_str("PushEvent");
            let pull_req_kind = String::from_str("PullRequestEvent");
            let issue_comment_kind = String::from_str("IssueCommentEvent");
            let issues_kind = String::from_str("IssuesEvent");

            if ev.event_type == push_kind {
                match &ev.payload {
                    Payload::Commits(cp) => {
                        let mut commit_url = String::new();
                        if cp.commits.len() > 0 {
                            commit_url = replace_str(
                                replace_str(
                                    replace_str(
                                        cp.commits[0].url.as_str(),
                                        "/api.github",
                                        "/github",
                                    ).as_str(),
                                    "/repos/",
                                    "/",
                                ).as_str(),
                                "/commits/",
                                "/commit/",
                            );
                        }
                        cleaned_events.push(
                            EventForClient {
                                event_type: ev.event_type.clone(),
                                actor,
                                repo,
                                event_url: commit_url,
                                action: String::new(),
                                commits_size: cp.size,
                            },
                        );
                    },
                    _ => {},
                }
            } else if ev.event_type == pull_req_kind {
                match &ev.payload {
                    Payload::PullReq(p) => {
                        let pull_req_url = replace_str(
                            replace_str(
                                replace_str(
                                    p.pull_request.url.as_str(),
                                    "/api.github",
                                    "/github",
                                ).as_str(),
                                "/repos/",
                                "/",
                            ).as_str(),
                            "/pulls/",
                            "/pull/",
                        );
                        cleaned_events.push(
                            EventForClient {
                                event_type: ev.event_type.clone(),
                                actor,
                                repo,
                                event_url: pull_req_url,
                                action: p.action.clone(),
                                commits_size: 0,
                            },
                        );
                    },
                    _ => {},
                }
            } else if ev.event_type == issue_comment_kind {
                match &ev.payload {
                    Payload::IssueComment(c) => {
                        cleaned_events.push(
                            EventForClient {
                                event_type: ev.event_type.clone(),
                                actor,
                                repo,
                                event_url: c.html_url.clone(),
                                action: String::from_str("commented"),
                                commits_size: 0,
                            },
                        );
                    },
                    _ => {},
                }
            } else if ev.event_type == issues_kind {
                match &ev.payload {
                    Payload::Issues(ip) => {
                        cleaned_events.push(
                            EventForClient {
                                event_type: ev.event_type.clone(),
                                actor,
                                repo,
                                event_url: ip.html_url.clone(),
                                action: ip.action.clone(),
                                commits_size: 0,
                            },
                        );
                    },
                    _ => {},
                }
            }
        }
        proof {
            assert(evs.take(i + 1 as int).drop_last() =~= evs.take(i as int));
            assert(evs.take(i + 1 as int).last() == evs[i as int]);
            assert(evs[i as int] == events@[i as int]@);
            match clean_one(evs[i as int]) {
                Some(c) => {
                    assert(cleaned_events@.last()@ == c);
                    assert(cleaned_events@.drop_last() == before);
                    assert(client_event_views(cleaned_events@) =~= client_event_views(before).push(
                        c,
                    ));
                },
                None => {
                    assert(cleaned_events@ == before);
                },
            }
            assert(client_event_views(cleaned_events@) =~= clean_gh_spec(
                evs.take(i + 1 as int),
            ));
        }
        i = i + 1;
    }
    proof {
        assert(event_views(events@).take(events@.len() as int) =~= event_views(events@));
    }
    cleaned_events
}

} // verus!
