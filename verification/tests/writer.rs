use chargelimit_selinux::error::WriteError;
use chargelimit_selinux::writer::{after_stat, after_write, WriteEvent, WriteStage, Writer};

fn run(events: &[WriteEvent]) -> Vec<WriteStage> {
    let mut w = Writer::new();
    let mut stages = vec![w.stage];
    for e in events {
        w = w.step(*e);
        stages.push(w.stage);
    }
    stages
}

#[test]
fn starts_by_serializing() {
    let w = Writer::new();
    assert_eq!(w.stage, WriteStage::Serialize);
    assert_eq!(w.len, 0);
}

#[test]
fn empty_destination_is_never_truncated() {
    let stages = run(&[
        WriteEvent::Built(100),
        WriteEvent::Opened,
        WriteEvent::Length(0),
        WriteEvent::Written(100),
    ]);
    assert_eq!(
        stages,
        vec![
            WriteStage::Serialize,
            WriteStage::Open,
            WriteStage::Stat,
            WriteStage::Write,
            WriteStage::Finished,
        ]
    );
    assert!(!stages.contains(&WriteStage::Truncate));
}

#[test]
fn non_empty_destination_is_truncated_first() {
    let stages = run(&[
        WriteEvent::Built(100),
        WriteEvent::Opened,
        WriteEvent::Length(1),
        WriteEvent::Truncated,
        WriteEvent::Written(100),
    ]);
    assert_eq!(
        stages,
        vec![
            WriteStage::Serialize,
            WriteStage::Open,
            WriteStage::Stat,
            WriteStage::Truncate,
            WriteStage::Write,
            WriteStage::Finished,
        ]
    );
}

#[test]
fn short_write_is_fatal_and_not_retried() {
    let stages = run(&[
        WriteEvent::Built(100),
        WriteEvent::Opened,
        WriteEvent::Length(0),
        WriteEvent::Written(99),
        WriteEvent::Written(1),
        WriteEvent::Written(100),
    ]);
    assert_eq!(stages[4], WriteStage::Failed(WriteError::ShortWrite));
    assert_eq!(stages[5], WriteStage::Failed(WriteError::ShortWrite));
    assert_eq!(stages[6], WriteStage::Failed(WriteError::ShortWrite));
}

#[test]
fn write_of_nothing_to_empty_destination() {
    let stages = run(&[
        WriteEvent::Built(0),
        WriteEvent::Opened,
        WriteEvent::Length(0),
        WriteEvent::Written(0),
    ]);
    assert_eq!(stages[4], WriteStage::Finished);
}

#[test]
fn after_stat_truncates_iff_not_empty() {
    assert_eq!(after_stat(0), WriteStage::Write);
    assert_eq!(after_stat(1), WriteStage::Truncate);
    assert_eq!(after_stat(u64::MAX), WriteStage::Truncate);
}

#[test]
fn after_write_wants_every_byte() {
    assert_eq!(after_write(0, 0), WriteStage::Finished);
    assert_eq!(after_write(5, 5), WriteStage::Finished);
    assert_eq!(after_write(4, 5), WriteStage::Failed(WriteError::ShortWrite));
    assert_eq!(after_write(0, 5), WriteStage::Failed(WriteError::ShortWrite));
    assert_eq!(after_write(6, 5), WriteStage::Failed(WriteError::ShortWrite));
}

#[test]
fn each_request_fails_with_its_own_reason() {
    assert_eq!(run(&[WriteEvent::Failed])[1], WriteStage::Failed(WriteError::BuildFailed));
    assert_eq!(
        run(&[WriteEvent::Built(3), WriteEvent::Failed])[2],
        WriteStage::Failed(WriteError::OpenFailed)
    );
    assert_eq!(
        run(&[WriteEvent::Built(3), WriteEvent::Opened, WriteEvent::Failed])[3],
        WriteStage::Failed(WriteError::StatFailed)
    );
    assert_eq!(
        run(&[WriteEvent::Built(3), WriteEvent::Opened, WriteEvent::Length(9), WriteEvent::Failed])
            [4],
        WriteStage::Failed(WriteError::TruncateFailed)
    );
    assert_eq!(
        run(&[WriteEvent::Built(3), WriteEvent::Opened, WriteEvent::Length(0), WriteEvent::Failed])
            [4],
        WriteStage::Failed(WriteError::WriteFailed)
    );
}

#[test]
fn answer_out_of_turn_ends_the_writing() {
    assert_eq!(run(&[WriteEvent::Opened])[1], WriteStage::Failed(WriteError::UnexpectedEvent));
    assert_eq!(
        run(&[WriteEvent::Built(3), WriteEvent::Written(3)])[2],
        WriteStage::Failed(WriteError::UnexpectedEvent)
    );
    assert_eq!(
        run(&[WriteEvent::Built(3), WriteEvent::Opened, WriteEvent::Truncated])[3],
        WriteStage::Failed(WriteError::UnexpectedEvent)
    );
}

#[test]
fn finished_stays_finished() {
    let stages = run(&[
        WriteEvent::Built(1),
        WriteEvent::Opened,
        WriteEvent::Length(0),
        WriteEvent::Written(1),
        WriteEvent::Failed,
        WriteEvent::Length(7),
    ]);
    assert_eq!(stages[5], WriteStage::Finished);
    assert_eq!(stages[6], WriteStage::Finished);
}

#[test]
fn buffer_length_is_kept_from_serializing() {
    let mut w = Writer::new();
    w = w.step(WriteEvent::Built(42));
    assert_eq!(w.len, 42);
    w = w.step(WriteEvent::Opened);
    w = w.step(WriteEvent::Length(5));
    w = w.step(WriteEvent::Truncated);
    assert_eq!(w.len, 42);
    assert_eq!(w.stage, WriteStage::Write);
    assert_eq!(w.step(WriteEvent::Written(42)).stage, WriteStage::Finished);
    assert_eq!(w.step(WriteEvent::Written(41)).stage, WriteStage::Failed(WriteError::ShortWrite));
}

#[test]
fn write_error_messages() {
    assert_eq!(WriteError::BuildFailed.message(), "Failed to build sepolicy");
    assert_eq!(WriteError::OpenFailed.message(), "Failed to open for writing");
    assert_eq!(WriteError::StatFailed.message(), "Failed to stat file");
    assert_eq!(WriteError::TruncateFailed.message(), "Failed to truncate file");
    assert_eq!(WriteError::WriteFailed.message(), "Failed to write file");
    assert_eq!(WriteError::ShortWrite.message(), "Failed to write data in a single write call");
    assert!(WriteError::OpenFailed.names_path());
    assert!(WriteError::WriteFailed.names_path());
    assert!(!WriteError::ShortWrite.names_path());
    assert!(!WriteError::BuildFailed.names_path());
}
