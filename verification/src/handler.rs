//! The event router: what is done with each message that comes in, and which
//! servers are left when the session is ready.

use crate::download::{
    exit_outcome, invocation_for, lemma_one_report, lemma_undisturbed_run, notice_text,
    replies_of, ActionView, DownloadRequest, DownloadTask, EventView, OutcomeView, RequestView,
    TaskPhase, TaskView,
};
use crate::policy::{AuthorizationPolicy, IncomingMessage, MessageView, PolicyView};
use crate::text::{copy_text, text_view};
use crate::url::{
    classify, http_at, https_at, lemma_absent_without_scheme, match_url, UrlMatch, UrlVerdict,
};
use vstd::prelude::*;

verus! {

broadcast use vstd::string::group_string_axioms;

/// What the listener was set up with: whom it answers, where downloads go, and the
/// cookie file that the downloader is given, if any.
#[derive(Clone, Debug, PartialEq, Eq)]
pub struct Handler {
    pub policy: AuthorizationPolicy,
    pub output_dir: String,
    pub cookies_path: Option<String>,
}

/// A [`Handler`] over plain values.
pub struct HandlerView {
    pub policy: PolicyView,
    pub output_dir: Seq<char>,
    pub cookies_path: Option<Seq<char>>,
}

impl View for Handler {
    type V = HandlerView;

    open spec fn view(&self) -> HandlerView {
        HandlerView {
            policy: self.policy@,
            output_dir: self.output_dir@,
            cookies_path: text_view(self.cookies_path),
        }
    }
}

/// What is done with one message.
#[derive(Clone, Debug, PartialEq, Eq)]
pub enum Reaction {
    /// Nothing at all: the message is not authorized.
    Ignore,
    /// The message holds no valid URL: `notice` goes to `channel`.
    Reject { channel: u64, notice: String },
    /// The message holds a valid URL: `acknowledgment` goes to `channel` at once, and
    /// `task` is handed to the scheduler.
    Dispatch { channel: u64, acknowledgment: String, task: DownloadTask },
}

/// A [`Reaction`] over plain values.
pub enum ReactionView {
    Ignore,
    Reject { channel: u64, notice: Seq<char> },
    Dispatch { channel: u64, acknowledgment: Seq<char>, task: TaskView },
}

impl View for Reaction {
    type V = ReactionView;

    open spec fn view(&self) -> ReactionView {
        match self {
            Reaction::Ignore => ReactionView::Ignore,
            Reaction::Reject { channel, notice } => ReactionView::Reject {
                channel: *channel,
                notice: notice@,
            },
            Reaction::Dispatch { channel, acknowledgment, task } => ReactionView::Dispatch {
                channel: *channel,
                acknowledgment: acknowledgment@,
                task: task@,
            },
        }
    }
}

/// The reply to a message that holds no valid URL.
pub open spec fn invalid_url_notice() -> Seq<char> {
    "Invalid URL."@
}

/// The reply that acknowledges a URL.
pub open spec fn acknowledgment() -> Seq<char> {
    "OK! I will process that."@
}

impl HandlerView {
    /// The request to download `url` as this handler is set up.
    pub open spec fn request_for(self, url: Seq<char>) -> RequestView {
        RequestView { url, output_dir: self.output_dir, cookies_path: self.cookies_path }
    }

    /// What is done with `msg`: the filter first, then the URL matcher.
    pub open spec fn react(self, msg: MessageView) -> ReactionView {
        if !self.policy.authorizes(msg) {
            ReactionView::Ignore
        } else {
            match classify(msg.content) {
                UrlVerdict::Valid(url) => ReactionView::Dispatch {
                    channel: msg.channel_id,
                    acknowledgment: acknowledgment(),
                    task: TaskView {
                        channel: msg.channel_id,
                        request: self.request_for(url),
                        phase: TaskPhase::Pending,
                    },
                },
                _ => ReactionView::Reject { channel: msg.channel_id, notice: invalid_url_notice() },
            }
        }
    }

    /// Every reply that `msg` brings about, in order, when `events` are what happens to
    /// the download that it may have started.
    pub open spec fn transcript(self, msg: MessageView, events: Seq<EventView>) -> Seq<
        (u64, Seq<char>),
    > {
        match self.react(msg) {
            ReactionView::Ignore => Seq::empty(),
            ReactionView::Reject { channel, notice } => seq![(channel, notice)],
            ReactionView::Dispatch { channel, acknowledgment, task } => seq![
                (channel, acknowledgment),
            ] + replies_of(task.run(events).1),
        }
    }
}

impl Handler {
    /// Whether the server `guild_id` may trigger downloads.
    pub fn is_allowed_guild(&self, guild_id: u64) -> (allowed: bool)
        ensures
            allowed == self@.policy.allows_guild(guild_id),
    {
        self.policy.is_allowed_guild(guild_id)
    }

    /// Decides what is done with a message.
    pub fn message(&self, msg: &IncomingMessage) -> (reaction: Reaction)
        ensures
            reaction@ == self@.react(msg@),
    {
        if !self.policy.authorizes(msg) {
            return Reaction::Ignore;
        }
        match match_url(msg.content.as_str()) {
            UrlMatch::Valid(url) => {
                let request = DownloadRequest {
                    url,
                    output_dir: self.output_dir.clone(),
                    cookies_path: copy_text(&self.cookies_path),
                };
                Reaction::Dispatch {
                    channel: msg.channel_id,
                    acknowledgment: "OK! I will process that.".to_owned(),
                    task: DownloadTask::new(msg.channel_id, request),
                }
            },
            _ => Reaction::Reject { channel: msg.channel_id, notice: "Invalid URL.".to_owned() },
        }
    }

    /// Decides which servers are left when the session is ready: `joined` are the
    /// servers the listener is in.
    pub fn ready(&self, joined: &Vec<u64>) -> (leave: Vec<u64>)
        ensures
            leave@ == self@.policy.departures(joined@),
    {
        self.policy.guilds_to_leave(joined)
    }
}

/// A message that is not authorized is ignored: it gets no reply and starts no
/// download, whatever it holds and whatever happens later.
pub proof fn lemma_denied_is_silent(handler: HandlerView, msg: MessageView, events: Seq<EventView>)
    requires
        !handler.policy.authorizes(msg),
    ensures
        handler.react(msg) == ReactionView::Ignore,
        handler.transcript(msg, events).len() == 0,
{
}

/// An authorized message in which neither `http://` nor `https://` occurs gets
/// exactly one reply, the notice of an invalid URL, and starts no download.
pub proof fn lemma_no_url_is_rejected(handler: HandlerView, msg: MessageView, events: Seq<EventView>)
    requires
        handler.policy.authorizes(msg),
        forall|i: int| !http_at(msg.content, i) && !https_at(msg.content, i),
    ensures
        handler.react(msg) == (ReactionView::Reject {
            channel: msg.channel_id,
            notice: invalid_url_notice(),
        }),
        handler.transcript(msg, events) == seq![(msg.channel_id, invalid_url_notice())],
{
    lemma_absent_without_scheme(msg.content);
}

/// One message brings about at most two replies, all to the channel it came from.
/// If it holds a valid URL, the first is the acknowledgment, and the second, if the
/// download has come to an end, reports an outcome of the download of that URL. If it
/// is authorized and holds none, the one reply is the notice of an invalid URL.
pub proof fn lemma_reply_budget(handler: HandlerView, msg: MessageView, events: Seq<EventView>)
    ensures
        ({
            let sent = handler.transcript(msg, events);
            &&& sent.len() <= 2
            &&& forall|i: int| 0 <= i < sent.len() ==> (#[trigger] sent[i]).0 == msg.channel_id
            &&& match classify(msg.content) {
                UrlVerdict::Valid(url) => handler.policy.authorizes(msg) ==> {
                    &&& sent.len() >= 1
                    &&& sent[0].1 == acknowledgment()
                    &&& sent.len() == 2 ==> exists|outcome: OutcomeView|
                        sent[1].1 == notice_text(url, outcome)
                },
                _ => handler.policy.authorizes(msg) ==> sent == seq![
                    (msg.channel_id, invalid_url_notice()),
                ],
            }
        }),
{
    if let ReactionView::Dispatch { channel, acknowledgment, task } = handler.react(msg) {
        lemma_one_report(task, events);
        let later = replies_of(task.run(events).1);
        let sent = handler.transcript(msg, events);
        if later.len() == 1 {
            assert(sent[1] == later[0]);
        }
    }
}

/// An authorized message with a valid URL, whose download nothing disturbs, brings
/// about exactly two replies: the acknowledgment, then the report of how the
/// downloader exited.
pub proof fn lemma_undisturbed_conversation(
    handler: HandlerView,
    msg: MessageView,
    url: Seq<char>,
    success: bool,
    status: Seq<char>,
    stderr: Seq<char>,
)
    requires
        handler.policy.authorizes(msg),
        classify(msg.content) == UrlVerdict::Valid(url),
    ensures
        handler.transcript(
            msg,
            seq![
                EventView::Scheduled,
                EventView::DirectoryCreated,
                EventView::Exited { success, status, stderr },
            ],
        ) == seq![
            (msg.channel_id, acknowledgment()),
            (msg.channel_id, notice_text(url, exit_outcome(success, status, stderr))),
        ],
{
    let task = TaskView {
        channel: msg.channel_id,
        request: handler.request_for(url),
        phase: TaskPhase::Pending,
    };
    lemma_undisturbed_run(task, success, status, stderr);
    let actions = seq![
        ActionView::CreateDirectory(task.request.output_dir),
        ActionView::Launch(invocation_for(task.request)),
        ActionView::Reply {
            channel: task.channel,
            text: notice_text(url, exit_outcome(success, status, stderr)),
        },
    ];
    let two = actions.drop_last();
    let one = two.drop_last();
    assert(one.drop_last() == Seq::<ActionView>::empty());
    assert(replies_of(one.drop_last()) == Seq::<(u64, Seq<char>)>::empty());
    assert(replies_of(one) == Seq::<(u64, Seq<char>)>::empty());
    assert(replies_of(two) == Seq::<(u64, Seq<char>)>::empty());
    assert(replies_of(actions) == seq![
        (msg.channel_id, notice_text(url, exit_outcome(success, status, stderr))),
    ]);
}

} // verus!
