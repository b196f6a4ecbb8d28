use sd_session::{
    file_name, payload, Command, Event, Fault, Op, OpenMode, Report, Session, Step, PAYLOAD_LEN,
    VOLUME_INDEX,
};

const DIR_HANDLE: u32 = 7;
const FILE_HANDLE: u32 = 11;

/// An in-memory card with one volume and a flat root directory.
struct FakeCard {
    files: Vec<(String, Vec<u8>)>,
    fail_at: Option<Step>,
    write_count: Option<usize>,
    open_file: Option<(u32, String)>,
    dir_open: bool,
    closed_files: Vec<u32>,
    closed_dirs: Vec<u32>,
}

impl FakeCard {
    fn new() -> FakeCard {
        FakeCard {
            files: Vec::new(),
            fail_at: None,
            write_count: None,
            open_file: None,
            dir_open: false,
            closed_files: Vec::new(),
            closed_dirs: Vec::new(),
        }
    }

    fn contents(&self, name: &str) -> Option<Vec<u8>> {
        self.files.iter().find(|(n, _)| n == name).map(|(_, c)| c.clone())
    }

    fn fails(&self, step: Step) -> bool {
        self.fail_at == Some(step)
    }

    fn open(&mut self, name: &str, mode: OpenMode) -> Result<u32, ()> {
        let pos = self.files.iter().position(|(n, _)| n == name);
        match (mode, pos) {
            (OpenMode::ReadWriteCreateOrTruncate, Some(i)) | (OpenMode::ReadWriteTruncate, Some(i)) => {
                self.files[i].1.clear()
            }
            (OpenMode::ReadWriteCreateOrTruncate, None)
            | (OpenMode::ReadWriteCreate, None)
            | (OpenMode::ReadWriteCreateOrAppend, None) => self.files.push((name.to_string(), Vec::new())),
            (OpenMode::ReadWriteCreate, Some(_)) => return Err(()),
            (_, None) => return Err(()),
            _ => {}
        }
        self.open_file = Some((FILE_HANDLE, name.to_string()));
        Ok(FILE_HANDLE)
    }

    fn write(&mut self, file: u32, bytes: &[u8]) -> usize {
        let (h, name) = self.open_file.clone().unwrap();
        assert_eq!(h, file);
        let n = self.write_count.unwrap_or(bytes.len()).min(bytes.len());
        let entry = self.files.iter_mut().find(|(f, _)| *f == name).unwrap();
        entry.1.extend_from_slice(&bytes[..n]);
        n
    }
}

/// Runs the session against the card; returns every command issued, the
/// starting one first.
fn run(card: &mut FakeCard) -> (Session<u32, u32>, Vec<Command<u32, u32>>) {
    let (mut session, mut cmd) = Session::<u32, u32>::start();
    let mut issued: Vec<Command<u32, u32>> = Vec::new();
    loop {
        if matches!(cmd.op, Op::Finish | Op::Halt(_) | Op::Stay) {
            issued.push(cmd);
            return (session, issued);
        }
        let event = match &cmd.op {
            Op::InitDevice => {
                if card.fails(Step::InitDevice) { Event::Failed } else { Event::Succeeded }
            }
            Op::ReadCardSize => {
                if card.fails(Step::ReadCardSize) { Event::Failed } else { Event::CardSize(1 << 30) }
            }
            Op::MountVolume { index } => {
                assert_eq!(*index, 0);
                if card.fails(Step::MountVolume) { Event::Failed } else { Event::Succeeded }
            }
            Op::OpenRootDir => {
                if card.fails(Step::OpenRootDir) {
                    Event::Failed
                } else {
                    card.dir_open = true;
                    Event::DirOpened(DIR_HANDLE)
                }
            }
            Op::OpenFile { mode } => {
                assert_eq!(session.directory(), Some(&DIR_HANDLE));
                if card.fails(Step::OpenFile) {
                    Event::Failed
                } else {
                    match card.open(file_name(), *mode) {
                        Ok(f) => Event::FileOpened(f),
                        Err(()) => Event::Failed,
                    }
                }
            }
            Op::WriteFile => {
                if card.fails(Step::WriteFile) {
                    Event::Failed
                } else {
                    let file = *session.file_mut().unwrap();
                    Event::Wrote(card.write(file, &payload()))
                }
            }
            Op::CloseFile(f) => {
                card.closed_files.push(*f);
                card.open_file = None;
                if card.fails(Step::CloseFile) { Event::Failed } else { Event::Succeeded }
            }
            Op::CloseDir(d) => {
                card.closed_dirs.push(*d);
                card.dir_open = false;
                if card.fails(Step::CloseDir) { Event::Failed } else { Event::Succeeded }
            }
            Op::Finish | Op::Halt(_) | Op::Stay => unreachable!(),
        };
        issued.push(cmd);
        let (s, c) = session.advance(event);
        session = s;
        cmd = c;
    }
}

fn is_filesystem_op(op: &Op<u32, u32>) -> bool {
    matches!(
        op,
        Op::MountVolume { .. }
            | Op::OpenRootDir
            | Op::OpenFile { .. }
            | Op::WriteFile
            | Op::CloseFile(_)
            | Op::CloseDir(_)
    )
}

#[test]
fn end_to_end_writes_example_file() {
    let mut card = FakeCard::new();
    let (session, issued) = run(&mut card);
    assert!(matches!(session, Session::Done));
    assert_eq!(card.contents("example.txt"), Some(b"testing file writes.".to_vec()));
    assert_eq!(card.files.len(), 1);
    let ops: Vec<String> = issued.iter().map(|c| format!("{:?}", c.op)).collect();
    assert_eq!(
        ops,
        vec![
            "InitDevice",
            "ReadCardSize",
            "MountVolume { index: 0 }",
            "OpenRootDir",
            "OpenFile { mode: ReadWriteCreateOrTruncate }",
            "WriteFile",
            "CloseFile(11)",
            "CloseDir(7)",
            "Finish",
        ]
    );
    assert!(issued.iter().any(|c| c.report == Report::BytesWritten(20)));
    assert!(issued.iter().any(|c| c.report == Report::CardSize(1 << 30)));
    assert_eq!(issued[1].report, Report::DeviceReady);
}

#[test]
fn pre_existing_file_is_truncated() {
    let mut card = FakeCard::new();
    card.files.push(("example.txt".to_string(), b"an older and much longer text than the payload".to_vec()));
    let (session, _) = run(&mut card);
    assert!(matches!(session, Session::Done));
    assert_eq!(card.contents("example.txt"), Some(b"testing file writes.".to_vec()));
}

#[test]
fn each_failing_step_halts_with_one_report() {
    let steps = [
        Step::InitDevice,
        Step::ReadCardSize,
        Step::MountVolume,
        Step::OpenRootDir,
        Step::OpenFile,
        Step::WriteFile,
        Step::CloseFile,
        Step::CloseDir,
    ];
    for (k, step) in steps.iter().enumerate() {
        let mut card = FakeCard::new();
        card.fail_at = Some(*step);
        let (session, issued) = run(&mut card);
        assert!(matches!(session, Session::Halted { fault: Fault::StepFailed(s) } if s == *step));
        // the failing step's operation, and before it one per earlier step
        assert_eq!(issued.len(), k + 2);
        let halts: Vec<&Command<u32, u32>> =
            issued.iter().filter(|c| matches!(c.op, Op::Halt(_))).collect();
        assert_eq!(halts.len(), 1);
        assert!(matches!(issued[k + 1].op, Op::Halt(Fault::StepFailed(s)) if s == *step));
        assert_eq!(issued[k + 1].report, Report::Quiet);
    }
}

#[test]
fn filesystem_untouched_when_init_fails() {
    let mut card = FakeCard::new();
    card.fail_at = Some(Step::InitDevice);
    let (_, issued) = run(&mut card);
    assert!(!issued.iter().any(|c| is_filesystem_op(&c.op)));
    assert!(card.files.is_empty());
    assert!(!card.dir_open);
}

#[test]
fn short_write_is_a_fault() {
    let mut card = FakeCard::new();
    card.write_count = Some(12);
    let (session, issued) = run(&mut card);
    assert!(matches!(session, Session::Halted { fault: Fault::ShortWrite(12) }));
    assert!(matches!(issued.last().unwrap().op, Op::Halt(Fault::ShortWrite(12))));
    assert!(card.closed_files.is_empty());
}

#[test]
fn closes_exactly_the_opened_handles_once() {
    let mut card = FakeCard::new();
    let (_, _) = run(&mut card);
    assert_eq!(card.closed_files, vec![FILE_HANDLE]);
    assert_eq!(card.closed_dirs, vec![DIR_HANDLE]);
    assert!(card.open_file.is_none());
    assert!(!card.dir_open);
}

#[test]
fn unexpected_answer_fails_the_pending_step() {
    let (s, _) = Session::<u32, u32>::start();
    let (s, _) = s.advance(Event::Succeeded);
    let (s, c) = s.advance(Event::Wrote(20));
    assert!(matches!(s, Session::Halted { fault: Fault::StepFailed(Step::ReadCardSize) }));
    assert!(matches!(c.op, Op::Halt(Fault::StepFailed(Step::ReadCardSize))));
}

#[test]
fn terminal_sessions_ask_nothing_more() {
    let (s, c) = Session::<u32, u32>::Done.advance(Event::Succeeded);
    assert!(matches!(s, Session::Done));
    assert!(matches!(c.op, Op::Stay));
    let halted = Session::<u32, u32>::Halted { fault: Fault::StepFailed(Step::MountVolume) };
    let (s, c) = halted.advance(Event::Failed);
    assert!(matches!(s, Session::Halted { fault: Fault::StepFailed(Step::MountVolume) }));
    assert!(matches!(c.op, Op::Stay));
    assert_eq!(c.report, Report::Quiet);
}

#[test]
fn handles_are_lent_only_while_open() {
    assert_eq!(Session::<u32, u32>::VolumeMounted.directory(), None);
    let s = Session::<u32, u32>::DirectoryOpen { dir: 3 };
    assert_eq!(s.directory(), Some(&3));
    let mut s = Session::<u32, u32>::FileOpen { dir: 3, file: 4 };
    assert_eq!(s.directory(), Some(&3));
    *s.file_mut().unwrap() = 9;
    assert!(matches!(s, Session::FileOpen { dir: 3, file: 9 }));
    let mut w = Session::<u32, u32>::Written { dir: 3 };
    assert!(w.file_mut().is_none());
}

#[test]
fn payload_and_name_constants() {
    assert_eq!(payload(), b"testing file writes.".to_vec());
    assert_eq!(payload().len(), PAYLOAD_LEN);
    assert_eq!(PAYLOAD_LEN, 20);
    assert_eq!(file_name(), "example.txt");
    assert_eq!(VOLUME_INDEX, 0);
}

#[test]
fn each_step_has_its_own_failure_message() {
    let steps = [
        Step::InitDevice,
        Step::ReadCardSize,
        Step::MountVolume,
        Step::OpenRootDir,
        Step::OpenFile,
        Step::WriteFile,
        Step::CloseFile,
        Step::CloseDir,
    ];
    assert_eq!(Step::InitDevice.failure_message(), "Error during initialization");
    assert_eq!(Step::MountVolume.failure_message(), "Error getting volume 0");
    assert_eq!(Step::WriteFile.failure_message(), "Error writing to 'example.txt'");
    for (i, a) in steps.iter().enumerate() {
        for (j, b) in steps.iter().enumerate() {
            assert_eq!(i == j, a.failure_message() == b.failure_message());
        }
    }
}
