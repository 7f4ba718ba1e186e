use clipboard_applet::action::{
    apply_action, copy_read_to, perform_action, perform_clear, switch_reads, ActionState,
};
use clipboard_applet::clipboard::{
    bytes_to_receive, read, read_text, ClearTarget, ClipboardAction, ClipboardRead, ClipboardType,
    CopyClipboardType, PasteError, Reception, SwitchValue,
};
use clipboard_applet::deadline::{DeadlineReader, ReadAction, ReadEvent};
use clipboard_applet::exchange::{Progress, Reply, Request, Task};
use clipboard_applet::notification::Notice;
use clipboard_applet::transfer::{read_both, write_both_with_rollback, BothProgress, PairProgress};

const MILLISECOND: u128 = 1_000_000;

fn unreadable_states() -> Vec<ClipboardRead> {
    vec![
        ClipboardRead::Empty,
        ClipboardRead::NonText,
        ClipboardRead::Unsupported,
        ClipboardRead::Oversized { limit: 10 },
        ClipboardRead::Error("read failed".into()),
    ]
}

fn unsafe_switch_states() -> Vec<ClipboardRead> {
    vec![
        ClipboardRead::NonText,
        ClipboardRead::Unsupported,
        ClipboardRead::Oversized { limit: 10 },
        ClipboardRead::Error("read failed".into()),
    ]
}

fn write_texts(
    mut progress: PairProgress<String>,
    mut write: impl FnMut(CopyClipboardType, String) -> Result<(), String>,
) -> Result<(), String> {
    loop {
        match progress {
            PairProgress::Write(state, selection, value) => {
                progress = state.resume(write(selection, value));
            }
            PairProgress::Finished(result) => return result,
        }
    }
}

fn write_exchanged(
    mut progress: PairProgress<SwitchValue>,
    mut write: impl FnMut(CopyClipboardType, SwitchValue) -> Result<(), String>,
) -> Result<(), String> {
    loop {
        match progress {
            PairProgress::Write(state, selection, value) => {
                progress = state.resume(write(selection, value));
            }
            PairProgress::Finished(result) => return result,
        }
    }
}

fn read_pair(mut read: impl FnMut(ClipboardType) -> ClipboardRead) -> (ClipboardRead, ClipboardRead) {
    let mut progress = read_both();
    loop {
        match progress {
            BothProgress::Read(state, selection) => progress = state.resume(read(selection)),
            BothProgress::Finished(primary, regular) => return (primary, regular),
        }
    }
}

fn run_action(
    mut progress: Progress<ActionState>,
    mut answer: impl FnMut(Request) -> Reply,
) -> Result<(), String> {
    loop {
        match progress {
            Progress::Ask(state, request) => {
                let reply = answer(request);
                assert!(state.accepts(&reply));
                progress = state.resume(reply);
            }
            Progress::Finished(result) => return result,
        }
    }
}

fn run_task(
    mut progress: Progress<Task<ActionState>>,
    mut answer: impl FnMut(Request) -> Reply,
) -> Result<(), String> {
    loop {
        match progress {
            Progress::Ask(task, request) => {
                let reply = answer(request);
                assert!(task.accepts(&reply));
                progress = task.resume(reply);
            }
            Progress::Finished(result) => return result,
        }
    }
}

fn copy(
    source: ClipboardRead,
    destination: CopyClipboardType,
    writes: &mut Vec<(CopyClipboardType, String)>,
) -> Result<(), String> {
    match copy_read_to("source", source, destination)? {
        Request::Write(selection, value) => {
            writes.push((selection, value));
            Ok(())
        }
        other => panic!("a copy must write, not {other:?}"),
    }
}

fn switch(
    primary: ClipboardRead,
    regular: ClipboardRead,
    write: impl FnMut(CopyClipboardType, SwitchValue) -> Result<(), String>,
) -> Result<(), String> {
    match switch_reads(primary, regular)? {
        Some(progress) => write_exchanged(progress, write),
        None => Ok(()),
    }
}

/// A desktop whose writes fail as told.
struct Desktop {
    primary: ClipboardRead,
    regular: ClipboardRead,
    failures: Vec<Option<&'static str>>,
    notices: Vec<Notice>,
}

impl Desktop {
    fn new(primary: ClipboardRead, regular: ClipboardRead, failures: &[Option<&'static str>]) -> Self {
        Desktop {
            primary,
            regular,
            failures: failures.to_vec(),
            notices: vec![],
        }
    }

    fn put(&mut self, selection: CopyClipboardType, content: ClipboardRead) -> Reply {
        if !self.failures.is_empty() {
            if let Some(error) = self.failures.remove(0) {
                return Reply::Written(Err(error.into()));
            }
        }
        if selection != CopyClipboardType::Regular {
            self.primary = content.clone();
        }
        if selection != CopyClipboardType::Primary {
            self.regular = content;
        }
        Reply::Written(Ok(()))
    }

    fn answer(&mut self, request: Request) -> Reply {
        match request {
            Request::Read(ClipboardType::Primary) => Reply::Read(self.primary.clone()),
            Request::Read(ClipboardType::Regular) => Reply::Read(self.regular.clone()),
            Request::Write(selection, value) => self.put(selection, ClipboardRead::Text(value)),
            Request::Clear(selection) => self.put(selection, ClipboardRead::Empty),
            Request::Notify(notice) => {
                self.notices.push(notice);
                Reply::Notified
            }
        }
    }

    fn perform(&mut self, action: ClipboardAction, notifications: bool) -> Result<(), String> {
        run_task(perform_action(action, notifications), |request| self.answer(request))
    }
}

fn text(value: &str) -> ClipboardRead {
    ClipboardRead::Text(value.into())
}

#[test]
fn pair_write_restores_primary_when_regular_fails() {
    let mut writes = Vec::new();
    let result = write_texts(
        write_both_with_rollback("new-p".to_string(), "new-r".into(), "old-p".into()),
        |clipboard, value: String| {
            writes.push((clipboard, value));
            if writes.len() == 2 {
                Err("boom".into())
            } else {
                Ok(())
            }
        },
    );
    assert!(result.unwrap_err().contains("primary clipboard restored"));
    assert_eq!(writes.len(), 3);
    assert_eq!(writes[2].1, "old-p");
}

#[test]
fn each_pair_write_failure_says_what_became_of_the_primary_selection() {
    for (failures, message) in [
        (vec![0], "could not write primary clipboard: boom 0"),
        (
            vec![1],
            "could not write regular clipboard: boom 1; primary clipboard restored",
        ),
        (
            vec![1, 2],
            "could not write regular clipboard: boom 1; could not restore primary clipboard: boom 2",
        ),
    ] {
        let mut count = 0;
        let result = write_texts(
            write_both_with_rollback("p".to_string(), "r".into(), "o".into()),
            |_, _| {
                count += 1;
                if failures.contains(&(count - 1)) {
                    Err(format!("boom {}", count - 1))
                } else {
                    Ok(())
                }
            },
        );
        assert_eq!(result, Err(message.to_string()));
    }
}

#[test]
fn every_read_state_has_a_distinct_name() {
    assert_eq!(ClipboardRead::Text("value".into()).state(), "Text");
    assert_eq!(ClipboardRead::Empty.state(), "Empty");
    assert_eq!(ClipboardRead::NonText.state(), "NonText");
    assert_eq!(ClipboardRead::Unsupported.state(), "Unsupported");
    assert_eq!(ClipboardRead::Oversized { limit: 10 }.state(), "Oversized");
    assert_eq!(ClipboardRead::Error("failed".into()).state(), "Error");
}

#[test]
fn reads_each_selection_even_when_the_other_fails() {
    for (failed_selection, expected) in [
        (
            ClipboardType::Primary,
            (
                ClipboardRead::Error("failed".into()),
                ClipboardRead::Text("regular".into()),
            ),
        ),
        (
            ClipboardType::Regular,
            (
                ClipboardRead::Text("primary".into()),
                ClipboardRead::Error("failed".into()),
            ),
        ),
    ] {
        let mut reads = Vec::new();
        let actual = read_pair(|selection| {
            reads.push(selection);
            if selection == failed_selection {
                ClipboardRead::Error("failed".into())
            } else {
                ClipboardRead::Text(
                    match selection {
                        ClipboardType::Primary => "primary",
                        ClipboardType::Regular => "regular",
                    }
                    .into(),
                )
            }
        });
        assert_eq!(actual, expected);
        assert_eq!(reads, [ClipboardType::Primary, ClipboardType::Regular]);
    }

    let both_failed = read_pair(|selection| ClipboardRead::Error(format!("{selection:?} failed")));
    assert!(matches!(both_failed.0, ClipboardRead::Error(_)));
    assert!(matches!(both_failed.1, ClipboardRead::Error(_)));
}

#[test]
fn only_text_and_empty_are_change_observations() {
    assert_eq!(
        ClipboardRead::Text("value".into()).observation(),
        Some(Some("value".into()))
    );
    assert_eq!(ClipboardRead::Empty.observation(), Some(None));
    for state in unsafe_switch_states() {
        assert_eq!(state.observation(), None);
    }
}

#[test]
fn copy_writes_only_confirmed_text() {
    for destination in [CopyClipboardType::Primary, CopyClipboardType::Regular] {
        let mut writes = Vec::new();
        copy(ClipboardRead::Text("value".into()), destination, &mut writes).unwrap();
        assert_eq!(writes, [(destination, "value".into())]);

        for state in unreadable_states() {
            writes.clear();
            assert!(copy(state, destination, &mut writes).is_err());
            assert!(writes.is_empty());
        }
    }
}

#[test]
fn each_refused_read_says_why() {
    let messages = [
        "source clipboard is empty",
        "source clipboard does not contain text",
        "source clipboard is unsupported",
        "source clipboard exceeds the configured 10-byte limit",
        "could not read source clipboard: read failed",
    ];
    for (state, message) in unreadable_states().into_iter().zip(messages) {
        assert_eq!(state.clone().into_text("source"), Err(message.to_string()));
        assert_eq!(state.clone().into_editable("source"), Err(message.to_string()));
        if state == ClipboardRead::Empty {
            assert_eq!(state.into_switch_value("source"), Ok(SwitchValue::Empty));
        } else {
            assert_eq!(state.into_switch_value("source"), Err(message.to_string()));
        }
    }
    assert_eq!(text("é🙂").text_length(), 2);
    assert_eq!(ClipboardRead::NonText.text_length(), 0);
}

#[test]
fn switch_exchanges_text_and_empty_states() {
    let mut writes = Vec::new();
    for (primary, regular, expected) in [
        (
            ClipboardRead::Text("primary".into()),
            ClipboardRead::Text("regular".into()),
            vec![
                (
                    CopyClipboardType::Primary,
                    SwitchValue::Text("regular".into()),
                ),
                (
                    CopyClipboardType::Regular,
                    SwitchValue::Text("primary".into()),
                ),
            ],
        ),
        (
            ClipboardRead::Text("primary".into()),
            ClipboardRead::Empty,
            vec![
                (CopyClipboardType::Primary, SwitchValue::Empty),
                (
                    CopyClipboardType::Regular,
                    SwitchValue::Text("primary".into()),
                ),
            ],
        ),
        (
            ClipboardRead::Empty,
            ClipboardRead::Text("regular".into()),
            vec![
                (
                    CopyClipboardType::Primary,
                    SwitchValue::Text("regular".into()),
                ),
                (CopyClipboardType::Regular, SwitchValue::Empty),
            ],
        ),
        (ClipboardRead::Empty, ClipboardRead::Empty, vec![]),
    ] {
        writes.clear();
        switch(primary, regular, |clipboard, value| {
            writes.push((clipboard, value));
            Ok(())
        })
        .unwrap();
        assert_eq!(writes, expected);
    }
}

#[test]
fn switch_does_not_mutate_unreadable_clipboards() {
    let mut writes = Vec::new();
    for state in unsafe_switch_states() {
        assert!(switch(
            state.clone(),
            ClipboardRead::Text("regular".into()),
            |clipboard, value| {
                writes.push((clipboard, value));
                Ok(())
            },
        )
        .is_err());
        assert!(writes.is_empty());

        assert!(switch(
            ClipboardRead::Text("primary".into()),
            state,
            |clipboard, value| {
                writes.push((clipboard, value));
                Ok(())
            },
        )
        .is_err());
        assert!(writes.is_empty());
    }
}

#[test]
fn switch_restores_an_empty_primary_when_regular_clear_fails() {
    let mut writes = Vec::new();
    let result = switch(
        ClipboardRead::Empty,
        ClipboardRead::Text("regular".into()),
        |clipboard, value| {
            writes.push((clipboard, value));
            if writes.len() == 2 {
                Err("boom".into())
            } else {
                Ok(())
            }
        },
    );
    assert!(result.unwrap_err().contains("primary clipboard restored"));
    assert_eq!(writes[2], (CopyClipboardType::Primary, SwitchValue::Empty));
}

#[test]
fn actions_read_write_and_clear_the_expected_selections() {
    for (action, expected_source, expected_destination) in [
        (
            ClipboardAction::CopyRegular,
            ClipboardType::Regular,
            CopyClipboardType::Primary,
        ),
        (
            ClipboardAction::CopyPrimary,
            ClipboardType::Primary,
            CopyClipboardType::Regular,
        ),
    ] {
        let mut reads = Vec::new();
        let mut writes = Vec::new();
        run_action(apply_action(action), |request| match request {
            Request::Read(clipboard) => {
                reads.push(clipboard);
                Reply::Read(ClipboardRead::Text("value".into()))
            }
            Request::Write(clipboard, value) => {
                writes.push((clipboard, value));
                Reply::Written(Ok(()))
            }
            Request::Clear(_) => panic!("copy must not clear clipboards"),
            Request::Notify(_) => panic!("an action itself does not notify"),
        })
        .unwrap();
        assert_eq!(reads, [expected_source]);
        assert_eq!(writes, [(expected_destination, "value".into())]);
    }

    let mut writes = Vec::new();
    run_action(apply_action(ClipboardAction::Switch), |request| match request {
        Request::Read(ClipboardType::Primary) => Reply::Read(ClipboardRead::Text("primary".into())),
        Request::Read(ClipboardType::Regular) => Reply::Read(ClipboardRead::Text("regular".into())),
        Request::Write(clipboard, value) => {
            writes.push((clipboard, value));
            Reply::Written(Ok(()))
        }
        Request::Clear(_) => panic!("switch must not clear clipboards"),
        Request::Notify(_) => panic!("an action itself does not notify"),
    })
    .unwrap();
    assert_eq!(writes.len(), 2);

    let mut clears = 0;
    run_action(apply_action(ClipboardAction::Reset), |request| match request {
        Request::Read(_) => panic!("reset must not read clipboards"),
        Request::Write(..) => panic!("reset must not use the text writer"),
        Request::Clear(selection) => {
            assert_eq!(selection, CopyClipboardType::Both);
            clears += 1;
            Reply::Written(Ok(()))
        }
        Request::Notify(_) => panic!("an action itself does not notify"),
    })
    .unwrap();
    assert_eq!(clears, 1);
}

#[test]
fn copying_changes_the_destination_alone() {
    let mut desktop = Desktop::new(text("p"), text("r"), &[]);
    assert_eq!(desktop.perform(ClipboardAction::CopyPrimary, false), Ok(()));
    assert_eq!((&desktop.primary, &desktop.regular), (&text("p"), &text("p")));

    let mut desktop = Desktop::new(text("p"), text("r"), &[Some("boom")]);
    assert_eq!(
        desktop.perform(ClipboardAction::CopyRegular, true),
        Err("boom".to_string())
    );
    assert_eq!((&desktop.primary, &desktop.regular), (&text("p"), &text("r")));
    assert!(desktop.notices.is_empty());

    let mut desktop = Desktop::new(ClipboardRead::Empty, text("r"), &[]);
    assert_eq!(
        desktop.perform(ClipboardAction::CopyPrimary, true),
        Err("primary clipboard is empty".to_string())
    );
    assert_eq!(desktop.regular, text("r"));
}

#[test]
fn resetting_empties_both_selections() {
    let mut desktop = Desktop::new(text("p"), ClipboardRead::NonText, &[]);
    assert_eq!(desktop.perform(ClipboardAction::Reset, false), Ok(()));
    assert_eq!(desktop.primary, ClipboardRead::Empty);
    assert_eq!(desktop.regular, ClipboardRead::Empty);
}

#[test]
fn switching_twice_brings_back_the_selections() {
    for (primary, regular) in [
        (text("p"), text("r")),
        (ClipboardRead::Empty, text("r")),
        (text("p"), ClipboardRead::Empty),
        (ClipboardRead::Empty, ClipboardRead::Empty),
    ] {
        let mut desktop = Desktop::new(primary.clone(), regular.clone(), &[]);
        desktop.perform(ClipboardAction::Switch, false).unwrap();
        assert_eq!((&desktop.primary, &desktop.regular), (&regular, &primary));
        desktop.perform(ClipboardAction::Switch, false).unwrap();
        assert_eq!((&desktop.primary, &desktop.regular), (&primary, &regular));
    }
}

#[test]
fn a_failed_switch_changes_nothing() {
    for failures in [
        vec![Some("boom")],
        vec![None, Some("boom")],
        vec![None, Some("boom"), None],
    ] {
        let mut desktop = Desktop::new(text("p"), text("r"), &failures);
        assert!(desktop.perform(ClipboardAction::Switch, true).is_err());
        assert_eq!((&desktop.primary, &desktop.regular), (&text("p"), &text("r")));
        assert!(desktop.notices.is_empty());
    }
    let mut desktop = Desktop::new(text("p"), text("r"), &[None, Some("one"), Some("two")]);
    assert!(desktop.perform(ClipboardAction::Switch, true).is_err());
    assert_eq!((&desktop.primary, &desktop.regular), (&text("r"), &text("r")));
}

#[test]
fn success_is_announced_once_if_notifications_are_enabled() {
    for action in [
        ClipboardAction::CopyPrimary,
        ClipboardAction::CopyRegular,
        ClipboardAction::Reset,
        ClipboardAction::Switch,
    ] {
        let mut desktop = Desktop::new(text("p"), text("r"), &[]);
        desktop.perform(action, true).unwrap();
        assert_eq!(desktop.notices, [Notice::Action(action)]);
        let mut desktop = Desktop::new(text("p"), text("r"), &[]);
        desktop.perform(action, false).unwrap();
        assert!(desktop.notices.is_empty());
    }
}

#[test]
fn clearing_one_selection_leaves_the_other() {
    let mut desktop = Desktop::new(text("p"), text("r"), &[]);
    run_task(perform_clear(ClearTarget::Primary, true), |request| desktop.answer(request)).unwrap();
    assert_eq!((&desktop.primary, &desktop.regular), (&ClipboardRead::Empty, &text("r")));
    run_task(perform_clear(ClearTarget::Regular, true), |request| desktop.answer(request)).unwrap();
    assert_eq!(desktop.regular, ClipboardRead::Empty);
    assert_eq!(
        desktop.notices,
        [Notice::Clear(ClearTarget::Primary), Notice::Clear(ClearTarget::Regular)]
    );
    let mut desktop = Desktop::new(text("p"), text("r"), &[Some("boom")]);
    assert_eq!(
        run_task(perform_clear(ClearTarget::Primary, true), |request| desktop.answer(request)),
        Err("boom".to_string())
    );
    assert!(desktop.notices.is_empty());
}

#[test]
fn only_the_awaited_reply_is_accepted() {
    let Progress::Ask(state, request) = apply_action(ClipboardAction::CopyPrimary) else {
        panic!("a copy starts with a read");
    };
    assert_eq!(request, Request::Read(ClipboardType::Primary));
    assert!(state.accepts(&Reply::Read(ClipboardRead::Empty)));
    assert!(!state.accepts(&Reply::Written(Ok(()))));
    assert!(!state.accepts(&Reply::Notified));
}

#[test]
fn clipboard_read_limit_accepts_below_and_at_but_rejects_above() {
    assert_eq!(
        read_text(Ok("123".as_bytes().to_vec()), 4),
        ClipboardRead::Text("123".into())
    );
    assert_eq!(
        read_text(Ok("1234".as_bytes().to_vec()), 4),
        ClipboardRead::Text("1234".into())
    );
    assert_eq!(
        read_text(Ok("12345".as_bytes().to_vec()), 4),
        ClipboardRead::Oversized { limit: 4 }
    );
}

#[test]
fn invalid_utf8_is_refused_rather_than_repaired() {
    // "café" as a latin-1 `text/plain` selection would serve these bytes.
    assert_eq!(
        read_text(Ok(b"caf\xe9".to_vec()), 1024),
        ClipboardRead::NonText
    );
    assert_eq!(read_text(Ok(vec![0xff]), 1024), ClipboardRead::NonText);
    assert_eq!(
        read_text(Ok("café🙂".as_bytes().to_vec()), 1024),
        ClipboardRead::Text("café🙂".into())
    );
}

#[test]
fn a_latin1_selection_is_never_written_back() {
    let mut writes = Vec::new();
    assert!(copy(
        read_text(Ok(b"caf\xe9".to_vec()), 1024),
        CopyClipboardType::Primary,
        &mut writes,
    )
    .is_err());
    assert!(
        writes.is_empty(),
        "wrote replacement characters: {writes:?}"
    );
}

#[test]
fn one_byte_more_than_the_limit_is_received() {
    assert_eq!(bytes_to_receive(4), 5);
    assert_eq!(bytes_to_receive(u64::MAX), u64::MAX);
    let served = "123456789".as_bytes();
    let received = served[..bytes_to_receive(4) as usize].to_vec();
    assert_eq!(
        read_text(Ok(received), 4),
        read_text(Ok(served.to_vec()), 4)
    );
}

#[test]
fn each_way_to_fail_to_receive_is_told_apart() {
    for (reception, expected) in [
        (Reception::Refused(PasteError::ClipboardEmpty), ClipboardRead::Empty),
        (Reception::Refused(PasteError::NoMimeType), ClipboardRead::NonText),
        (
            Reception::Refused(PasteError::PrimarySelectionUnsupported),
            ClipboardRead::Unsupported,
        ),
        (
            Reception::Refused(PasteError::Other("no seats".into())),
            ClipboardRead::Error("no seats".into()),
        ),
        (
            Reception::Unprepared("bad descriptor".into()),
            ClipboardRead::Error("could not prepare clipboard reader: bad descriptor".into()),
        ),
        (
            Reception::Contents(Err("broken pipe".into())),
            ClipboardRead::Error("could not receive contents: broken pipe".into()),
        ),
        (Reception::Contents(Ok(b"text".to_vec())), text("text")),
        (
            Reception::Contents(Ok(b"text".to_vec().repeat(2))),
            ClipboardRead::Oversized { limit: 7 },
        ),
    ] {
        assert_eq!(read(reception, 7), expected);
    }
}

/// Receives what a writer sends, at the times given in milliseconds. The writer either hangs or
/// closes after its last byte.
fn receive(
    reader: &DeadlineReader,
    sent: &[(u128, &[u8])],
    closes: bool,
) -> Result<Vec<u8>, String> {
    let mut now: u128 = 0;
    let mut pending = sent.to_vec();
    let mut bytes = Vec::new();
    loop {
        let mut event = ReadEvent::Clock(now * MILLISECOND);
        let count = loop {
            match reader.read(event) {
                ReadAction::CheckClock => event = ReadEvent::Clock(now * MILLISECOND),
                ReadAction::Poll(milliseconds) => {
                    let end = now + milliseconds as u128;
                    let ready = match pending.first() {
                        Some((time, _)) => (*time <= end).then_some((*time).max(now)),
                        None => closes.then_some(now),
                    };
                    event = match ready {
                        Some(time) => {
                            now = time;
                            ReadEvent::Polled(1)
                        }
                        None => {
                            now = end;
                            ReadEvent::Polled(0)
                        }
                    };
                }
                ReadAction::Read => {
                    event = if pending.is_empty() {
                        ReadEvent::Bytes(0)
                    } else {
                        let chunk = pending.remove(0).1;
                        bytes.extend_from_slice(chunk);
                        ReadEvent::Bytes(chunk.len())
                    };
                }
                ReadAction::Return(count) => break count,
                ReadAction::TimedOut(message) | ReadAction::Fail(message) => return Err(message),
            }
        };
        if count == 0 {
            return Ok(bytes);
        }
    }
}

#[test]
fn a_silent_writer_does_not_stall_the_read_forever() {
    let reader = DeadlineReader::new(50 * MILLISECOND, 0);
    assert_eq!(
        receive(&reader, &[], false),
        Err("timed out after 50 ms".to_string())
    );
}

#[test]
fn a_timed_out_read_is_reported_as_an_error() {
    let reader = DeadlineReader::new(50 * MILLISECOND, 0);
    let ClipboardRead::Error(error) = read_text(receive(&reader, &[], false), 1024) else {
        panic!("a timed out read must not be mistaken for content");
    };
    assert!(error.contains("timed out"), "unexpected error: {error}");
}

#[test]
fn a_stalled_writer_never_yields_partial_content() {
    let reader = DeadlineReader::new(50 * MILLISECOND, 0);
    let received = receive(&reader, &[(0, b"partial")], false);
    assert!(matches!(read_text(received, 1024), ClipboardRead::Error(_)));
}

#[test]
fn content_delivered_before_the_deadline_reads_normally() {
    let reader = DeadlineReader::new(30 * 1000 * MILLISECOND, 0);
    let received = receive(&reader, &[(0, "é🙂 value".as_bytes())], true);
    assert_eq!(
        read_text(received, 1024),
        ClipboardRead::Text("é🙂 value".into())
    );
}

#[test]
fn waits_end_by_the_deadline() {
    let reader = DeadlineReader::new(50 * MILLISECOND, 7);
    assert_eq!(reader.deadline, 50 * MILLISECOND + 7);
    assert_eq!(reader.read(ReadEvent::Clock(7)), ReadAction::Poll(50));
    assert_eq!(reader.read(ReadEvent::Clock(8)), ReadAction::Poll(49));
    assert_eq!(
        reader.read(ReadEvent::Clock(50 * MILLISECOND + 6)),
        ReadAction::Poll(0)
    );
    assert_eq!(
        reader.read(ReadEvent::Clock(50 * MILLISECOND + 7)),
        ReadAction::TimedOut("timed out after 50 ms".into())
    );
    let patient = DeadlineReader::new(u64::MAX as u128 * MILLISECOND, 0);
    assert_eq!(patient.read(ReadEvent::Clock(0)), ReadAction::Poll(i32::MAX));
}

#[test]
fn interrupted_waits_look_at_the_clock_again() {
    let reader = DeadlineReader::new(50 * MILLISECOND, 0);
    assert_eq!(
        reader.read(ReadEvent::PollFailed {
            interrupted: true,
            error: "interrupted".into()
        }),
        ReadAction::CheckClock
    );
    assert_eq!(
        reader.read(ReadEvent::PollFailed {
            interrupted: false,
            error: "bad".into()
        }),
        ReadAction::Fail("bad".into())
    );
    assert_eq!(reader.read(ReadEvent::ReadAgain), ReadAction::CheckClock);
    assert_eq!(
        reader.read(ReadEvent::ReadFailed("worse".into())),
        ReadAction::Fail("worse".into())
    );
    assert_eq!(reader.read(ReadEvent::Polled(-1)), ReadAction::Read);
    assert_eq!(reader.read(ReadEvent::Bytes(3)), ReadAction::Return(3));
}

#[test]
fn unreadable_selections_are_never_written_back() {
    for (bytes, limit) in [(b"caf\xe9".to_vec(), 1024), (b"12345".to_vec(), 4)] {
        let unreadable = read_text(Ok(bytes), limit);
        for (action, primary, regular) in [
            (ClipboardAction::CopyPrimary, unreadable.clone(), text("other")),
            (ClipboardAction::CopyRegular, text("other"), unreadable.clone()),
            (ClipboardAction::Switch, unreadable.clone(), text("other")),
            (ClipboardAction::Switch, text("other"), unreadable.clone()),
        ] {
            let mut desktop = Desktop::new(primary.clone(), regular.clone(), &[]);
            assert!(desktop.perform(action, true).is_err());
            assert_eq!((&desktop.primary, &desktop.regular), (&primary, &regular));
        }
    }
}
