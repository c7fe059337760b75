//! Data model of the relay: the raw upstream event, its structured payload,
//! and the cleaned event handed to subscribers. Each executable type has a
//! ghost view over character sequences, which the contracts speak of.
use vstd::prelude::*;

verus! {

/// Who performed an upstream event.
pub struct Actor {
    pub id: i32,
    pub url: String,
    pub avatar_url: String,
    pub display_login: String,
}

/// The repository an upstream event happened in.
pub struct Repo {
    pub id: i32,
    pub name: String,
    pub url: String,
}

/// One commit of a push payload.
pub struct Commit {
    pub sha: String,
    pub message: String,
    pub url: String,
}

/// Payload of a push event.
pub struct CommitPayload {
    pub size: u8,
    pub commits: Vec<Commit>,
}

/// The pull request a pull-request payload points at.
pub struct PullRequest {
    pub url: String,
}

/// Payload of a pull-request event.
pub struct PullReqPayload {
    pub action: String,
    pub pull_request: PullRequest,
}

/// Payload of an issue-comment event: the comment's browser-facing address.
pub struct IssueCommentPayload {
    pub html_url: String,
}

/// Payload of an issues event: the action taken and the issue's
/// browser-facing address.
pub struct IssuesPayload {
    pub action: String,
    pub html_url: String,
}

/// The structured payload of an upstream event. An event whose payload does
/// not decode into the shape its kind calls for carries `Unrecognized` and is
/// skipped by the transform.
pub enum Payload {
    Commits(CommitPayload),
    PullReq(PullReqPayload),
    IssueComment(IssueCommentPayload),
    Issues(IssuesPayload),
    Unrecognized,
}

/// One raw upstream event.
pub struct Event {
    pub id: String,
    pub event_type: String,
    pub actor: Actor,
    pub repo: Repo,
    pub payload: Payload,
}

/// One cleaned event, ready to be serialized and delivered to subscribers.
pub struct EventForClient {
    pub event_type: String,
    pub actor: Actor,
    pub repo: Repo,
    pub event_url: String,
    pub action: String,
    pub commits_size: u8,
}

/// Ghost view of an actor.
pub struct ActorV {
    pub id: i32,
    pub url: Seq<char>,
    pub avatar_url: Seq<char>,
    pub display_login: Seq<char>,
}

/// Ghost view of a repository.
pub struct RepoV {
    pub id: i32,
    pub name: Seq<char>,
    pub url: Seq<char>,
}

/// Ghost view of a commit.
pub struct CommitV {
    pub sha: Seq<char>,
    pub message: Seq<char>,
    pub url: Seq<char>,
}

/// Ghost view of a push payload.
pub struct CommitPayloadV {
    pub size: u8,
    pub commits: Seq<CommitV>,
}

/// Ghost view of a pull request.
pub struct PullRequestV {
    pub url: Seq<char>,
}

/// Ghost view of a pull-request payload.
pub struct PullReqPayloadV {
    pub action: Seq<char>,
    pub pull_request: PullRequestV,
}

/// Ghost view of an issue-comment payload.
pub struct IssueCommentPayloadV {
    pub html_url: Seq<char>,
}

/// Ghost view of an issues payload.
pub struct IssuesPayloadV {
    pub action: Seq<char>,
    pub html_url: Seq<char>,
}

/// Ghost view of a structured payload.
pub enum PayloadV {
    Commits(CommitPayloadV),
    PullReq(PullReqPayloadV),
    IssueComment(IssueCommentPayloadV),
    Issues(IssuesPayloadV),
    Unrecognized,
}

/// Ghost view of a raw upstream event.
pub struct EventV {
    pub id: Seq<char>,
    pub event_type: Seq<char>,
    pub actor: ActorV,
    pub repo: RepoV,
    pub payload: PayloadV,
}

/// Ghost view of a cleaned event.
pub struct EventForClientV {
    pub event_type: Seq<char>,
    pub actor: ActorV,
    pub repo: RepoV,
    pub event_url: Seq<char>,
    pub action: Seq<char>,
    pub commits_size: u8,
}

impl View for Actor {
    type V = ActorV;

    open spec fn view(&self) -> ActorV {
        ActorV {
            id: self.id,
            url: self.url@,
            avatar_url: self.avatar_url@,
            display_login: self.display_login@,
        }
    }
}

impl View for Repo {
    type V = RepoV;

    open spec fn view(&self) -> RepoV {
        RepoV { id: self.id, name: self.name@, url: self.url@ }
    }
}

impl View for Commit {
    type V = CommitV;

    open spec fn view(&self) -> CommitV {
        CommitV { sha: self.sha@, message: self.message@, url: self.url@ }
    }
}

impl View for CommitPayload {
    type V = CommitPayloadV;

    open spec fn view(&self) -> CommitPayloadV {
        CommitPayloadV {
            size: self.size,
            commits: self.commits@.map_values(|c: Commit| c@),
        }
    }
}

impl View for PullRequest {
    type V = PullRequestV;

    open spec fn view(&self) -> PullRequestV {
        PullRequestV { url: self.url@ }
    }
}

impl View for PullReqPayload {
    type V = PullReqPayloadV;

    open spec fn view(&self) -> PullReqPayloadV {
        PullReqPayloadV { action: self.action@, pull_request: self.pull_request@ }
    }
}

impl View for IssueCommentPayload {
    type V = IssueCommentPayloadV;

    open spec fn view(&self) -> IssueCommentPayloadV {
        IssueCommentPayloadV { html_url: self.html_url@ }
    }
}

impl View for IssuesPayload {
    type V = IssuesPayloadV;

    open spec fn view(&self) -> IssuesPayloadV {
        IssuesPayloadV { action: self.action@, html_url: self.html_url@ }
    }
}

impl View for Payload {
    type V = PayloadV;

    open spec fn view(&self) -> PayloadV {
        match self {
            Payload::Commits(c) => PayloadV::Commits(c@),
            Payload::PullReq(p) => PayloadV::PullReq(p@),
            Payload::IssueComment(c) => PayloadV::IssueComment(c@),
            Payload::Issues(i) => PayloadV::Issues(i@),
            Payload::Unrecognized => PayloadV::Unrecognized,
        }
    }
}

impl View for Event {
    type V = EventV;

    open spec fn view(&self) -> EventV {
        EventV {
            id: self.id@,
            event_type: self.event_type@,
            actor: self.actor@,
            repo: self.repo@,
            payload: self.payload@,
        }
    }
}

impl View for EventForClient {
    type V = EventForClientV;

    open spec fn view(&self) -> EventForClientV {
        EventForClientV {
            event_type: self.event_type@,
            actor: self.actor@,
            repo: self.repo@,
            event_url: self.event_url@,
            action: self.action@,
            commits_size: self.commits_size,
        }
    }
}

/// The views of a sequence of raw events.
pub open spec fn event_views(s: Seq<Event>) -> Seq<EventV> {
    s.map_values(|e: Event| e@)
}

/// The views of a sequence of cleaned events.
pub open spec fn client_event_views(s: Seq<EventForClient>) -> Seq<EventForClientV> {
    s.map_values(|e: EventForClient| e@)
}

} // verus!
