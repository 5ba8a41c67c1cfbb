use aes4linux::pipeline::{default_output, Action, Event, Operation, Phase, Run, Stage};

fn drive(run: Run, events: &[Event]) -> (Run, Vec<Action>) {
    let mut run = run;
    let mut actions = Vec::new();
    for event in events {
        let t = run.step(*event);
        run = t.next;
        actions.push(t.action);
    }
    (run, actions)
}

#[test]
fn protect_directory_runs_to_success() {
    let run = Run::new(Operation::Protect, true, true);
    assert_eq!(run.stage.phase(), Phase::Idle);
    let (end, actions) =
        drive(run, &[Event::Start, Event::Done, Event::Done, Event::Done, Event::Done]);
    assert_eq!(
        actions,
        vec![
            Action::PublishTempAndPack,
            Action::SealTemp,
            Action::EraseTemp,
            Action::EraseSource,
            Action::Nothing
        ]
    );
    assert_eq!(end.stage, Stage::Succeeded);
    assert!(!end.temp_published);
    assert!(end.output_written);
}

#[test]
fn protect_file_needs_no_temporary_artifact() {
    let run = Run::new(Operation::Protect, false, true);
    let (end, actions) = drive(run, &[Event::Start, Event::Done, Event::Done]);
    assert_eq!(actions, vec![Action::SealSource, Action::EraseSource, Action::Nothing]);
    assert_eq!(end.stage, Stage::Succeeded);
}

#[test]
fn source_is_kept_when_output_is_the_source() {
    let run = Run::new(Operation::Protect, false, false);
    let (end, actions) = drive(run, &[Event::Start, Event::Done]);
    assert_eq!(actions, vec![Action::SealSource, Action::Nothing]);
    assert_eq!(end.stage, Stage::Succeeded);
}

#[test]
fn failed_pack_erases_the_temporary_artifact() {
    let run = Run::new(Operation::Protect, true, true);
    let (end, actions) = drive(run, &[Event::Start, Event::Error, Event::Done]);
    assert_eq!(actions, vec![Action::PublishTempAndPack, Action::EraseTemp, Action::Nothing]);
    assert_eq!(end.stage, Stage::Failed);
    assert!(!end.temp_published);
    assert!(!end.output_written);
}

#[test]
fn failed_seal_of_a_file_fails_at_once() {
    let run = Run::new(Operation::Protect, false, true);
    let (end, actions) = drive(run, &[Event::Start, Event::Error]);
    assert_eq!(actions, vec![Action::SealSource, Action::Nothing]);
    assert_eq!(end.stage, Stage::Failed);
}

#[test]
fn reveal_of_an_archive_unpacks() {
    let run = Run::new(Operation::Reveal, false, true);
    let (end, actions) =
        drive(run, &[Event::Start, Event::Done, Event::Done, Event::Done, Event::Done]);
    assert_eq!(
        actions,
        vec![
            Action::PublishTempAndOpen,
            Action::Unpack,
            Action::EraseTemp,
            Action::EraseSource,
            Action::Nothing
        ]
    );
    assert_eq!(end.stage, Stage::Succeeded);
}

#[test]
fn reveal_of_a_plain_file_falls_back_to_a_move() {
    let run = Run::new(Operation::Reveal, false, true);
    let (end, actions) = drive(
        run,
        &[Event::Start, Event::Done, Event::Error, Event::Done, Event::Done, Event::Error],
    );
    assert_eq!(
        actions,
        vec![
            Action::PublishTempAndOpen,
            Action::Unpack,
            Action::MoveTempToOutput,
            Action::EraseTemp,
            Action::EraseSource,
            Action::Nothing
        ]
    );
    assert_eq!(end.stage, Stage::Succeeded);
}

#[test]
fn failed_authentication_erases_the_temporary_artifact_and_keeps_the_source() {
    let run = Run::new(Operation::Reveal, false, true);
    let (end, actions) = drive(run, &[Event::Start, Event::Error, Event::Done]);
    assert_eq!(actions, vec![Action::PublishTempAndOpen, Action::EraseTemp, Action::Nothing]);
    assert_eq!(end.stage, Stage::Failed);
}

#[test]
fn interrupt_while_transforming_erases_the_temporary_artifact() {
    let run = Run::new(Operation::Reveal, false, true);
    let (mid, _) = drive(run, &[Event::Start]);
    assert_eq!(mid.stage.phase(), Phase::Transforming);
    let t = mid.step(Event::Interrupt);
    assert_eq!(t.action, Action::EraseTempAndExit);
    assert_eq!(t.next.stage, Stage::Interrupted);
    assert_eq!(t.next.stage.phase(), Phase::Interrupted);
    let (packing, _) = drive(Run::new(Operation::Protect, true, true), &[Event::Start, Event::Done]);
    assert_eq!(packing.stage.phase(), Phase::Transforming);
    assert_eq!(packing.step(Event::Interrupt).action, Action::EraseTempAndExit);
}

#[test]
fn interrupt_without_temporary_artifact_only_exits() {
    let run = Run::new(Operation::Protect, false, true);
    let (mid, _) = drive(run, &[Event::Start]);
    let t = mid.step(Event::Interrupt);
    assert_eq!(t.action, Action::Exit);
    assert_eq!(t.next.stage, Stage::Interrupted);
    let idle = Run::new(Operation::Protect, true, true);
    let t = idle.step(Event::Interrupt);
    assert_eq!(t.action, Action::Exit);
    assert_eq!(t.next, idle);
}

#[test]
fn a_run_at_rest_stays_at_rest() {
    let run = Run::new(Operation::Protect, false, false);
    let (end, _) = drive(run, &[Event::Start, Event::Done]);
    for event in [Event::Start, Event::Done, Event::Error, Event::Interrupt] {
        assert_eq!(end.step(event).next, end);
    }
}

#[test]
fn unexpected_events_change_nothing() {
    let idle = Run::new(Operation::Reveal, false, true);
    assert_eq!(idle.step(Event::Done).next, idle);
    assert_eq!(idle.step(Event::Done).action, Action::Nothing);
    let (mid, _) = drive(idle, &[Event::Start]);
    assert_eq!(mid.step(Event::Start).next, mid);
}

#[test]
fn phases_of_the_stages() {
    assert_eq!(Stage::Packing.phase(), Phase::Preparing);
    assert_eq!(Stage::Sealing.phase(), Phase::Transforming);
    assert_eq!(Stage::Opening.phase(), Phase::Transforming);
    assert_eq!(Stage::Unpacking.phase(), Phase::Finalizing);
    assert_eq!(Stage::Moving.phase(), Phase::Finalizing);
    assert_eq!(Stage::ErasingTemp.phase(), Phase::Finalizing);
    assert_eq!(Stage::ErasingSource.phase(), Phase::Finalizing);
    assert_eq!(Stage::Succeeded.phase(), Phase::Succeeded);
    assert_eq!(Stage::Failed.phase(), Phase::Failed);
}

#[test]
fn default_output_paths() {
    assert_eq!(default_output("test.txt", Operation::Protect), "test.txt_encrypted");
    assert_eq!(
        default_output("test.txt_encrypted", Operation::Reveal),
        "test.txt_encrypted_decrypted.txt"
    );
    assert_eq!(default_output("", Operation::Protect), "_encrypted");
}

#[test]
fn failed_move_keeps_the_source() {
    let run = Run::new(Operation::Reveal, false, true);
    let (end, actions) =
        drive(run, &[Event::Start, Event::Done, Event::Error, Event::Error, Event::Done]);
    assert_eq!(
        actions,
        vec![
            Action::PublishTempAndOpen,
            Action::Unpack,
            Action::MoveTempToOutput,
            Action::EraseTemp,
            Action::Nothing
        ]
    );
    assert_eq!(end.stage, Stage::Failed);
    assert!(!end.output_written);
}

#[test]
fn failed_erasure_does_not_undo_success() {
    let run = Run::new(Operation::Protect, true, true);
    let (end, _) =
        drive(run, &[Event::Start, Event::Done, Event::Done, Event::Error, Event::Error]);
    assert_eq!(end.stage, Stage::Succeeded);
}
