use ytdlp_output_rs::download::{
    DownloadOutcome, DownloadRequest, DownloadTask, Invocation, TaskAction, TaskEvent, TaskPhase,
};

fn request(cookies: Option<&str>) -> DownloadRequest {
    DownloadRequest {
        url: "http://example.com/video".to_string(),
        output_dir: "downloads/today".to_string(),
        cookies_path: cookies.map(|path| path.to_string()),
    }
}

fn exited(success: bool, status: &str, stderr: &str) -> TaskEvent {
    TaskEvent::Exited { success, status: status.to_string(), stderr: stderr.to_string() }
}

fn reply(channel: u64, text: &str) -> TaskAction {
    TaskAction::Reply { channel, text: text.to_string() }
}

#[test]
fn command_line_without_cookies() {
    let invocation = Invocation::for_request(&request(None));
    assert_eq!(invocation.program, "yt-dlp");
    assert_eq!(invocation.arguments, vec!["http://example.com/video", "-P", "downloads/today"]);
}

#[test]
fn command_line_with_cookies() {
    let invocation = Invocation::for_request(&request(Some("config/cookies.txt")));
    assert_eq!(invocation.program, "yt-dlp");
    assert_eq!(
        invocation.arguments,
        vec!["http://example.com/video", "-P", "downloads/today", "--cookies", "config/cookies.txt"]
    );
}

#[test]
fn zero_exit_is_success_whatever_was_written() {
    assert_eq!(DownloadOutcome::from_exit(true, "exit status: 0", ""), DownloadOutcome::Success);
    assert_eq!(
        DownloadOutcome::from_exit(true, "exit status: 0", "WARNING: something\n"),
        DownloadOutcome::Success
    );
}

#[test]
fn other_exit_is_failure_with_status_and_trimmed_errors() {
    assert_eq!(
        DownloadOutcome::from_exit(false, "exit status: 1", "\nERROR: unsupported URL\n\n"),
        DownloadOutcome::Failure(
            "yt-dlp failed with status: exit status: 1\nError output: ERROR: unsupported URL".to_string()
        )
    );
    assert_eq!(
        DownloadOutcome::from_exit(false, "signal: 9 (SIGKILL)", "  "),
        DownloadOutcome::Failure("yt-dlp failed with status: signal: 9 (SIGKILL)\nError output: ".to_string())
    );
    assert_eq!(
        DownloadOutcome::from_exit(false, "", "a\nb"),
        DownloadOutcome::Failure("yt-dlp failed with status: \nError output: a\nb".to_string())
    );
}

#[test]
fn notices_name_the_url() {
    assert_eq!(
        DownloadOutcome::Success.notice("http://example.com/video"),
        "Downloaded: <http://example.com/video>"
    );
    assert_eq!(
        DownloadOutcome::Failure("no space left".to_string()).notice("http://example.com/video"),
        "Failed to download http://example.com/video: no space left"
    );
    assert_eq!(DownloadOutcome::Failure(String::new()).notice(""), "Failed to download : ");
}

#[test]
fn new_task_is_pending() {
    let task = DownloadTask::new(9, request(None));
    assert_eq!(task.phase, TaskPhase::Pending);
    assert_eq!(task.channel, 9);
    assert_eq!(task.request, request(None));
}

#[test]
fn undisturbed_download_reports_success_once() {
    let mut task = DownloadTask::new(9, request(Some("c.txt")));
    assert_eq!(task.step(TaskEvent::Scheduled), TaskAction::CreateDirectory("downloads/today".to_string()));
    assert_eq!(task.phase, TaskPhase::CreatingDirectory);
    assert_eq!(
        task.step(TaskEvent::DirectoryCreated),
        TaskAction::Launch(Invocation::for_request(&request(Some("c.txt"))))
    );
    assert_eq!(task.phase, TaskPhase::Running);
    assert_eq!(
        task.step(exited(true, "exit status: 0", "")),
        reply(9, "Downloaded: <http://example.com/video>")
    );
    assert_eq!(task.phase, TaskPhase::Finished);
    assert_eq!(task.request, request(Some("c.txt")));
    assert_eq!(task.channel, 9);
}

#[test]
fn failed_download_reports_status_and_errors() {
    let mut task = DownloadTask::new(4, request(None));
    task.step(TaskEvent::Scheduled);
    task.step(TaskEvent::DirectoryCreated);
    assert_eq!(
        task.step(exited(false, "exit status: 2", " ERROR: nope \n")),
        reply(
            4,
            "Failed to download http://example.com/video: yt-dlp failed with status: exit status: 2\nError output: ERROR: nope"
        )
    );
    assert_eq!(task.phase, TaskPhase::Finished);
}

#[test]
fn directory_failure_ends_the_task_without_a_launch() {
    let mut task = DownloadTask::new(4, request(None));
    task.step(TaskEvent::Scheduled);
    assert_eq!(
        task.step(TaskEvent::DirectoryFailed("Permission denied (os error 13)".to_string())),
        reply(4, "Failed to download http://example.com/video: Permission denied (os error 13)")
    );
    assert_eq!(task.phase, TaskPhase::Finished);
    assert_eq!(task.step(TaskEvent::DirectoryCreated), TaskAction::Idle);
    assert_eq!(task.step(exited(true, "exit status: 0", "")), TaskAction::Idle);
    assert_eq!(task.phase, TaskPhase::Finished);
}

#[test]
fn launch_failure_is_reported_like_any_failure() {
    let mut task = DownloadTask::new(4, request(None));
    task.step(TaskEvent::Scheduled);
    task.step(TaskEvent::DirectoryCreated);
    assert_eq!(
        task.step(TaskEvent::ProcessFailed("No such file or directory (os error 2)".to_string())),
        reply(4, "Failed to download http://example.com/video: No such file or directory (os error 2)")
    );
    assert_eq!(task.phase, TaskPhase::Finished);
}

#[test]
fn events_out_of_turn_change_nothing() {
    let mut task = DownloadTask::new(4, request(None));
    for event in [
        TaskEvent::DirectoryCreated,
        TaskEvent::DirectoryFailed("x".to_string()),
        TaskEvent::ProcessFailed("x".to_string()),
        exited(true, "exit status: 0", ""),
    ] {
        assert_eq!(task.step(event), TaskAction::Idle);
        assert_eq!(task.phase, TaskPhase::Pending);
    }
    task.step(TaskEvent::Scheduled);
    for event in [TaskEvent::Scheduled, TaskEvent::ProcessFailed("x".to_string()), exited(false, "1", "")] {
        assert_eq!(task.step(event), TaskAction::Idle);
        assert_eq!(task.phase, TaskPhase::CreatingDirectory);
    }
    task.step(TaskEvent::DirectoryCreated);
    for event in [TaskEvent::Scheduled, TaskEvent::DirectoryCreated, TaskEvent::DirectoryFailed("x".to_string())] {
        assert_eq!(task.step(event), TaskAction::Idle);
        assert_eq!(task.phase, TaskPhase::Running);
    }
}

#[test]
fn a_task_reports_at_most_once_under_any_events() {
    let events = [
        TaskEvent::Scheduled,
        TaskEvent::DirectoryCreated,
        TaskEvent::DirectoryFailed("d".to_string()),
        TaskEvent::ProcessFailed("p".to_string()),
        exited(true, "0", ""),
        exited(false, "1", "e"),
    ];
    let n = events.len();
    for a in 0..n {
        for b in 0..n {
            for c in 0..n {
                for d in 0..n {
                    let mut task = DownloadTask::new(1, request(None));
                    let mut replies = 0;
                    let mut launches = 0;
                    for index in [a, b, c, d, a] {
                        match task.step(events[index].clone()) {
                            TaskAction::Reply { channel, text } => {
                                replies += 1;
                                assert_eq!(channel, 1);
                                assert!(
                                    text == "Downloaded: <http://example.com/video>"
                                        || text.starts_with("Failed to download http://example.com/video: ")
                                );
                            }
                            TaskAction::Launch(_) => {
                                assert_eq!(replies, 0);
                                launches += 1;
                            }
                            _ => {}
                        }
                    }
                    assert!(replies <= 1);
                    assert!(launches <= 1);
                    assert_eq!(replies == 1, task.phase == TaskPhase::Finished);
                }
            }
        }
    }
}
