//! One download: the command line of the downloader, what its exit means, what is
//! reported back, and the order in which the steps of a download follow each other.
//!
//! Nothing here touches the file system or starts a process. A [`DownloadTask`] says
//! what is to be done next; whoever drives it does that and hands back what happened.

use crate::text::{text_view, trim, trimmed};
use vstd::prelude::*;

verus! {

broadcast use vstd::string::group_string_axioms;

/// What to fetch and where to put it.
#[derive(Clone, Debug, PartialEq, Eq)]
pub struct DownloadRequest {
    pub url: String,
    pub output_dir: String,
    /// A cookie file for the downloader; this library never opens it.
    pub cookies_path: Option<String>,
}

/// A [`DownloadRequest`] over plain values.
pub struct RequestView {
    pub url: Seq<char>,
    pub output_dir: Seq<char>,
    pub cookies_path: Option<Seq<char>>,
}

impl View for DownloadRequest {
    type V = RequestView;

    open spec fn view(&self) -> RequestView {
        RequestView {
            url: self.url@,
            output_dir: self.output_dir@,
            cookies_path: text_view(self.cookies_path),
        }
    }
}

/// How a download ended.
#[derive(Clone, Debug, PartialEq, Eq)]
pub enum DownloadOutcome {
    Success,
    /// The download failed; the text says why.
    Failure(String),
}

/// A [`DownloadOutcome`] over plain values.
pub enum OutcomeView {
    Success,
    Failure(Seq<char>),
}

impl View for DownloadOutcome {
    type V = OutcomeView;

    open spec fn view(&self) -> OutcomeView {
        match self {
            DownloadOutcome::Success => OutcomeView::Success,
            DownloadOutcome::Failure(diagnostic) => OutcomeView::Failure(diagnostic@),
        }
    }
}

/// A program and its arguments.
#[derive(Clone, Debug, PartialEq, Eq)]
pub struct Invocation {
    pub program: String,
    pub arguments: Vec<String>,
}

/// An [`Invocation`] over plain values.
pub struct InvocationView {
    pub program: Seq<char>,
    pub arguments: Seq<Seq<char>>,
}

impl View for Invocation {
    type V = InvocationView;

    open spec fn view(&self) -> InvocationView {
        InvocationView { program: self.program@, arguments: self.arguments.deep_view() }
    }
}

/// The command line for `request`: the URL, `-P` with the output directory and, if
/// there is a cookie file, `--cookies` with its path.
pub open spec fn invocation_for(request: RequestView) -> InvocationView {
    InvocationView {
        program: "yt-dlp"@,
        arguments: seq![request.url, "-P"@, request.output_dir] + match request.cookies_path {
            Some(path) => seq!["--cookies"@, path],
            None => seq![],
        },
    }
}

/// What an exit of the downloader means: success, or a failure whose text holds the
/// exit status and the trimmed error output.
pub open spec fn exit_outcome(success: bool, status: Seq<char>, stderr: Seq<char>) -> OutcomeView {
    if success {
        OutcomeView::Success
    } else {
        OutcomeView::Failure(
            "yt-dlp failed with status: "@ + status + "\nError output: "@ + trimmed(stderr),
        )
    }
}

/// The text that reports `outcome` of the download of `url`.
pub open spec fn notice_text(url: Seq<char>, outcome: OutcomeView) -> Seq<char> {
    match outcome {
        OutcomeView::Success => "Downloaded: <"@ + url + ">"@,
        OutcomeView::Failure(diagnostic) => "Failed to download "@ + url + ": "@ + diagnostic,
    }
}

impl Invocation {
    /// The command line that downloads `request`.
    pub fn for_request(request: &DownloadRequest) -> (invocation: Invocation)
        ensures
            invocation@ == invocation_for(request@),
    {
        let mut arguments: Vec<String> = Vec::new();
        arguments.push(request.url.clone());
        arguments.push("-P".to_owned());
        arguments.push(request.output_dir.clone());
        if let Some(path) = &request.cookies_path {
            arguments.push("--cookies".to_owned());
            arguments.push(path.clone());
        }
        assert(arguments.deep_view() =~= invocation_for(request@).arguments);
        Invocation { program: "yt-dlp".to_owned(), arguments }
    }
}

impl DownloadOutcome {
    /// Reads the downloader's exit: `success` is whether it exited with status zero,
    /// `status` is the exit status as text, `stderr` is what it wrote to standard error.
    pub fn from_exit(success: bool, status: &str, stderr: &str) -> (outcome: DownloadOutcome)
        ensures
            outcome@ == exit_outcome(success, status@, stderr@),
    {
        if success {
            DownloadOutcome::Success
        } else {
            let mut diagnostic = "yt-dlp failed with status: ".to_owned();
            diagnostic.append(status);
            diagnostic.append("\nError output: ");
            let errors = trim(stderr);
            diagnostic.append(errors.as_str());
            DownloadOutcome::Failure(diagnostic)
        }
    }

    /// The text that reports this outcome of the download of `url`.
    pub fn notice(&self, url: &str) -> (text: String)
        ensures
            text@ == notice_text(url@, self@),
    {
        match self {
            DownloadOutcome::Success => {
                let mut text = "Downloaded: <".to_owned();
                text.append(url);
                text.append(">");
                text
            },
            DownloadOutcome::Failure(diagnostic) => {
                let mut text = "Failed to download ".to_owned();
                text.append(url);
                text.append(": ");
                text.append(diagnostic.as_str());
                text
            },
        }
    }
}

/// How far a download has got.
#[derive(Clone, Copy, Debug, PartialEq, Eq, Structural)]
pub enum TaskPhase {
    /// Handed over, not yet begun.
    Pending,
    /// Waiting for the output directory.
    CreatingDirectory,
    /// Waiting for the downloader.
    Running,
    /// The outcome has been reported.
    Finished,
}

/// What happened outside, as far as a download is concerned.
#[derive(Clone, Debug, PartialEq, Eq)]
pub enum TaskEvent {
    /// The task was picked up by the scheduler.
    Scheduled,
    /// The output directory exists now.
    DirectoryCreated,
    /// The output directory could not be made; the text is the I/O error.
    DirectoryFailed(String),
    /// The downloader could not be started or waited for; the text is the error.
    ProcessFailed(String),
    /// The downloader has exited.
    Exited { success: bool, status: String, stderr: String },
}

/// A [`TaskEvent`] over plain values.
pub enum EventView {
    Scheduled,
    DirectoryCreated,
    DirectoryFailed(Seq<char>),
    ProcessFailed(Seq<char>),
    Exited { success: bool, status: Seq<char>, stderr: Seq<char> },
}

impl View for TaskEvent {
    type V = EventView;

    open spec fn view(&self) -> EventView {
        match self {
            TaskEvent::Scheduled => EventView::Scheduled,
            TaskEvent::DirectoryCreated => EventView::DirectoryCreated,
            TaskEvent::DirectoryFailed(error) => EventView::DirectoryFailed(error@),
            TaskEvent::ProcessFailed(error) => EventView::ProcessFailed(error@),
            TaskEvent::Exited { success, status, stderr } => EventView::Exited {
                success: *success,
                status: status@,
                stderr: stderr@,
            },
        }
    }
}

/// What is to be done next for a download.
#[derive(Clone, Debug, PartialEq, Eq)]
pub enum TaskAction {
    /// Make this directory, and all that lead to it, if it is not there.
    CreateDirectory(String),
    /// Run this, discard its standard output and keep its standard error.
    Launch(Invocation),
    /// Send this text to this channel.
    Reply { channel: u64, text: String },
    /// Nothing: the event does not belong to the phase the task is in.
    Idle,
}

/// A [`TaskAction`] over plain values.
pub enum ActionView {
    CreateDirectory(Seq<char>),
    Launch(InvocationView),
    Reply { channel: u64, text: Seq<char> },
    Idle,
}

impl View for TaskAction {
    type V = ActionView;

    open spec fn view(&self) -> ActionView {
        match self {
            TaskAction::CreateDirectory(path) => ActionView::CreateDirectory(path@),
            TaskAction::Launch(invocation) => ActionView::Launch(invocation@),
            TaskAction::Reply { channel, text } => ActionView::Reply {
                channel: *channel,
                text: text@,
            },
            TaskAction::Idle => ActionView::Idle,
        }
    }
}

/// A download on its way: the channel to report to, the request, and the phase.
#[derive(Clone, Debug, PartialEq, Eq)]
pub struct DownloadTask {
    pub channel: u64,
    pub request: DownloadRequest,
    pub phase: TaskPhase,
}

/// A [`DownloadTask`] over plain values.
pub struct TaskView {
    pub channel: u64,
    pub request: RequestView,
    pub phase: TaskPhase,
}

impl View for DownloadTask {
    type V = TaskView;

    open spec fn view(&self) -> TaskView {
        TaskView { channel: self.channel, request: self.request@, phase: self.phase }
    }
}

impl TaskView {
    /// The same task in another phase.
    pub open spec fn in_phase(self, phase: TaskPhase) -> TaskView {
        TaskView { phase, ..self }
    }

    /// The task ends with `outcome`: it is finished, and the outcome goes to its
    /// channel.
    pub open spec fn finish(self, outcome: OutcomeView) -> (TaskView, ActionView) {
        (
            self.in_phase(TaskPhase::Finished),
            ActionView::Reply { channel: self.channel, text: notice_text(self.request.url, outcome) },
        )
    }

    /// The task after `event`, and what is to be done next. The directory comes first,
    /// then the downloader, then the one report; an event that does not fit the phase
    /// changes nothing.
    pub open spec fn step(self, event: EventView) -> (TaskView, ActionView) {
        match (self.phase, event) {
            (TaskPhase::Pending, EventView::Scheduled) => (
                self.in_phase(TaskPhase::CreatingDirectory),
                ActionView::CreateDirectory(self.request.output_dir),
            ),
            (TaskPhase::CreatingDirectory, EventView::DirectoryCreated) => (
                self.in_phase(TaskPhase::Running),
                ActionView::Launch(invocation_for(self.request)),
            ),
            (TaskPhase::CreatingDirectory, EventView::DirectoryFailed(error)) => self.finish(
                OutcomeView::Failure(error),
            ),
            (TaskPhase::Running, EventView::ProcessFailed(error)) => self.finish(
                OutcomeView::Failure(error),
            ),
            (TaskPhase::Running, EventView::Exited { success, status, stderr }) => self.finish(
                exit_outcome(success, status, stderr),
            ),
            _ => (self, ActionView::Idle),
        }
    }

    /// The task after all of `events`, in order, and what was to be done after each.
    pub open spec fn run(self, events: Seq<EventView>) -> (TaskView, Seq<ActionView>)
        decreases events.len(),
    {
        if events.len() == 0 {
            (self, Seq::empty())
        } else {
            let (before, actions) = self.run(events.drop_last());
            let (after, action) = before.step(events.last());
            (after, actions.push(action))
        }
    }
}

impl DownloadTask {
    /// A download that has not begun.
    pub fn new(channel: u64, request: DownloadRequest) -> (task: DownloadTask)
        ensures
            task@ == (TaskView { channel, request: request@, phase: TaskPhase::Pending }),
    {
        DownloadTask { channel, request, phase: TaskPhase::Pending }
    }

    /// Ends the task with `outcome`.
    fn finish(&mut self, outcome: &DownloadOutcome) -> (action: TaskAction)
        ensures
            (final(self)@, action@) == old(self)@.finish(outcome@),
    {
        self.phase = TaskPhase::Finished;
        TaskAction::Reply { channel: self.channel, text: outcome.notice(self.request.url.as_str()) }
    }

    /// Takes in what happened and says what is to be done next.
    pub fn step(&mut self, event: TaskEvent) -> (action: TaskAction)
        ensures
            (final(self)@, action@) == old(self)@.step(event@),
    {
        match (self.phase, event) {
            (TaskPhase::Pending, TaskEvent::Scheduled) => {
                self.phase = TaskPhase::CreatingDirectory;
                TaskAction::CreateDirectory(self.request.output_dir.clone())
            },
            (TaskPhase::CreatingDirectory, TaskEvent::DirectoryCreated) => {
                self.phase = TaskPhase::Running;
                TaskAction::Launch(Invocation::for_request(&self.request))
            },
            (TaskPhase::CreatingDirectory, TaskEvent::DirectoryFailed(error)) => {
                self.finish(&DownloadOutcome::Failure(error))
            },
            (TaskPhase::Running, TaskEvent::ProcessFailed(error)) => {
                self.finish(&DownloadOutcome::Failure(error))
            },
            (TaskPhase::Running, TaskEvent::Exited { success, status, stderr }) => {
                let outcome = DownloadOutcome::from_exit(success, status.as_str(), stderr.as_str());
                self.finish(&outcome)
            },
            _ => TaskAction::Idle,
        }
    }
}

/// The replies among `actions`, in order: each with its channel and its text.
pub open spec fn replies_of(actions: Seq<ActionView>) -> Seq<(u64, Seq<char>)>
    decreases actions.len(),
{
    if actions.len() == 0 {
        Seq::empty()
    } else {
        let earlier = replies_of(actions.drop_last());
        match actions.last() {
            ActionView::Reply { channel, text } => earlier.push((channel, text)),
            _ => earlier,
        }
    }
}

/// How many of `actions` start the downloader.
pub open spec fn launch_count(actions: Seq<ActionView>) -> nat
    decreases actions.len(),
{
    if actions.len() == 0 {
        0
    } else {
        launch_count(actions.drop_last()) + if actions.last() is Launch {
            1nat
        } else {
            0nat
        }
    }
}

/// A task reports once. Whatever events arrive, and in whatever order: a task that
/// was not finished has sent one reply if it is finished afterwards and none if it is
/// not, and a finished task stays as it is, sends nothing and starts nothing. The
/// downloader is started at most once. The reply goes to the channel of the task and
/// reports an outcome of the download of its URL.
pub proof fn lemma_one_report(task: TaskView, events: Seq<EventView>)
    ensures
        ({
            let (end, actions) = task.run(events);
            let sent = replies_of(actions);
            &&& actions.len() == events.len()
            &&& end.channel == task.channel
            &&& end.request == task.request
            &&& task.phase == TaskPhase::Finished ==> end == task && sent.len() == 0
                && launch_count(actions) == 0
            &&& task.phase != TaskPhase::Finished ==> sent.len() == if end.phase
                == TaskPhase::Finished {
                1nat
            } else {
                0nat
            }
            &&& launch_count(actions) <= 1
            &&& sent.len() == 1 ==> sent[0].0 == task.channel && exists|outcome: OutcomeView|
                sent[0].1 == notice_text(task.request.url, outcome)
        }),
    decreases events.len(),
{
    if events.len() > 0 {
        lemma_one_report(task, events.drop_last());
        lemma_launch_needs_directory(task, events.drop_last());
        let (before, earlier) = task.run(events.drop_last());
        let (end, action) = before.step(events.last());
        let actions = earlier.push(action);
        assert(actions.drop_last() == earlier);
        if let ActionView::Reply { channel, text } = action {
            let outcome = match events.last() {
                EventView::DirectoryFailed(error) => OutcomeView::Failure(error),
                EventView::ProcessFailed(error) => OutcomeView::Failure(error),
                EventView::Exited { success, status, stderr } => exit_outcome(
                    success,
                    status,
                    stderr,
                ),
                _ => OutcomeView::Success,
            };
            assert(text == notice_text(task.request.url, outcome));
            assert(replies_of(actions)[0] == (channel, text));
        }
    }
}

/// The downloader is started only when the wait for the output directory ends well:
/// until then nothing has started it, and from then on nothing starts it again.
proof fn lemma_launch_needs_directory(task: TaskView, events: Seq<EventView>)
    ensures
        ({
            let (end, actions) = task.run(events);
            &&& task.phase == TaskPhase::Pending && (end.phase == TaskPhase::Pending || end.phase
                == TaskPhase::CreatingDirectory) ==> launch_count(actions) == 0
            &&& task.phase == TaskPhase::CreatingDirectory ==> end.phase != TaskPhase::Pending
            &&& task.phase == TaskPhase::CreatingDirectory && end.phase
                == TaskPhase::CreatingDirectory ==> launch_count(actions) == 0
            &&& task.phase == TaskPhase::Running ==> (end.phase == TaskPhase::Running || end.phase
                == TaskPhase::Finished) && launch_count(actions) == 0
            &&& task.phase == TaskPhase::Finished ==> end.phase == TaskPhase::Finished
                && launch_count(actions) == 0
            &&& launch_count(actions) <= 1
        }),
    decreases events.len(),
{
    if events.len() > 0 {
        lemma_launch_needs_directory(task, events.drop_last());
        let (before, earlier) = task.run(events.drop_last());
        let (end, action) = before.step(events.last());
        assert(earlier.push(action).drop_last() == earlier);
    }
}

/// The whole of a download that nothing disturbs: the directory, the downloader,
/// then the one report of how the downloader exited.
pub proof fn lemma_undisturbed_run(
    task: TaskView,
    success: bool,
    status: Seq<char>,
    stderr: Seq<char>,
)
    requires
        task.phase == TaskPhase::Pending,
    ensures
        task.run(
            seq![
                EventView::Scheduled,
                EventView::DirectoryCreated,
                EventView::Exited { success, status, stderr },
            ],
        ) == (
            task.in_phase(TaskPhase::Finished),
            seq![
                ActionView::CreateDirectory(task.request.output_dir),
                ActionView::Launch(invocation_for(task.request)),
                ActionView::Reply {
                    channel: task.channel,
                    text: notice_text(task.request.url, exit_outcome(success, status, stderr)),
                },
            ],
        ),
{
    let events = seq![
        EventView::Scheduled,
        EventView::DirectoryCreated,
        EventView::Exited { success, status, stderr },
    ];
    let two = events.drop_last();
    let one = two.drop_last();
    assert(one.drop_last() == Seq::<EventView>::empty());
    assert(task.run(one.drop_last()) == (task, Seq::<ActionView>::empty()));
    assert(task.run(one).0 == task.in_phase(TaskPhase::CreatingDirectory));
    assert(task.run(two).0 == task.in_phase(TaskPhase::Running));
    assert(task.run(events).1 =~= seq![
        ActionView::CreateDirectory(task.request.output_dir),
        ActionView::Launch(invocation_for(task.request)),
        ActionView::Reply {
            channel: task.channel,
            text: notice_text(task.request.url, exit_outcome(success, status, stderr)),
        },
    ]);
}

} // verus!
