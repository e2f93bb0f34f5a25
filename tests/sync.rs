use tempoit::sync::{Action, Event, RunOutcome, SyncRun};

#[test]
fn batch_with_one_logical_failure() {
    let mut run = SyncRun::new(3);
    let mut uploads = vec![];
    let mut successes = vec![];
    let mut fails = vec![];
    loop {
        match run.action() {
            Action::Upload(i) => {
                uploads.push(i);
                run.step(if i == 1 { Event::UploadFailed } else { Event::UploadSucceeded });
            }
            Action::RecordSuccess(i) => {
                successes.push(i);
                run.step(Event::Recorded);
            }
            Action::RecordFail(i) => {
                fails.push(i);
                run.step(Event::Recorded);
            }
            Action::Finish | Action::Abort => break,
        }
    }
    assert_eq!(uploads, vec![0, 1, 2]);
    assert_eq!(successes, vec![0, 2]);
    assert_eq!(fails, vec![1]);
    assert_eq!(run.failed(), vec![1]);
    assert_eq!(run.outcome(), RunOutcome::CompleteWithErrors);
}

#[test]
fn recorder_failure_aborts_batch() {
    let mut run = SyncRun::new(3);
    assert_eq!(run.action(), Action::Upload(0));
    run.step(Event::UploadSucceeded);
    assert_eq!(run.action(), Action::RecordSuccess(0));
    run.step(Event::RecordFailed);
    assert_eq!(run.action(), Action::Abort);
    for e in [Event::UploadSucceeded, Event::Recorded, Event::UploadFailed] {
        run.step(e);
        assert_eq!(run.action(), Action::Abort);
    }
    assert_eq!(run.outcome(), RunOutcome::Aborted);
}

#[test]
fn all_uploads_succeed() {
    let mut run = SyncRun::new(2);
    for i in 0..2 {
        assert_eq!(run.action(), Action::Upload(i));
        assert_eq!(run.outcome(), RunOutcome::Running);
        run.step(Event::UploadSucceeded);
        run.step(Event::Recorded);
    }
    assert_eq!(run.action(), Action::Finish);
    assert_eq!(run.outcome(), RunOutcome::Complete);
}

#[test]
fn empty_batch_is_complete() {
    let run = SyncRun::new(0);
    assert_eq!(run.action(), Action::Finish);
    assert_eq!(run.outcome(), RunOutcome::Complete);
}

#[test]
fn unexpected_event_changes_nothing() {
    let mut run = SyncRun::new(1);
    run.step(Event::Recorded);
    assert_eq!(run.action(), Action::Upload(0));
    run.step(Event::UploadFailed);
    run.step(Event::UploadSucceeded);
    assert_eq!(run.action(), Action::RecordFail(0));
}
