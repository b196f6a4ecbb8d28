use vstd::prelude::*;

verus! {

/// Index of the volume that the session mounts.
pub const VOLUME_INDEX: usize = 0;

/// Number of bytes in the payload that the session writes.
pub const PAYLOAD_LEN: usize = 20;

/// The bytes of `"testing file writes."`.
pub open spec fn payload_bytes() -> Seq<u8> {
    seq![
        116u8, 101u8, 115u8, 116u8, 105u8, 110u8, 103u8, 32u8, 102u8, 105u8,
        108u8, 101u8, 32u8, 119u8, 114u8, 105u8, 116u8, 101u8, 115u8, 46u8,
    ]
}

/// The payload written to the file: the ASCII text `testing file writes.`.
pub fn payload() -> (r: Vec<u8>)
    ensures
        r@ == payload_bytes(),
        r@.len() == PAYLOAD_LEN,
{
    let r: Vec<u8> = vec![
        116u8, 101u8, 115u8, 116u8, 105u8, 110u8, 103u8, 32u8, 102u8, 105u8,
        108u8, 101u8, 32u8, 119u8, 114u8, 105u8, 116u8, 101u8, 115u8, 46u8,
    ];
    assert(r@ =~= payload_bytes());
    r
}

/// Name of the file that the session creates or truncates.
pub fn file_name() -> (r: &'static str)
    ensures
        r@ == "example.txt"@,
{
    "example.txt"
}

/// How a file is opened, as the FAT collaborator distinguishes it.
#[derive(Clone, Copy, Debug, PartialEq, Eq, Structural)]
pub enum OpenMode {
    /// Read an existing file.
    ReadOnly,
    /// Append to an existing file.
    ReadWriteAppend,
    /// Empty an existing file, then write from its start.
    ReadWriteTruncate,
    /// Create a new empty file; fail if it exists.
    ReadWriteCreate,
    /// Create a new empty file, or empty an existing one.
    ReadWriteCreateOrTruncate,
    /// Create a new empty file, or append to an existing one.
    ReadWriteCreateOrAppend,
}

/// A fallible step of the storage session.
#[derive(Clone, Copy, Debug, PartialEq, Eq, Structural)]
pub enum Step {
    InitDevice,
    ReadCardSize,
    MountVolume,
    OpenRootDir,
    OpenFile,
    WriteFile,
    CloseFile,
    CloseDir,
}

/// The diagnostic that names a failed step.
pub open spec fn failure_text(step: Step) -> Seq<char> {
    match step {
        Step::InitDevice => "Error during initialization"@,
        Step::ReadCardSize => "Error reading card size"@,
        Step::MountVolume => "Error getting volume 0"@,
        Step::OpenRootDir => "Error getting root directory on volume 0"@,
        Step::OpenFile => "Error creating 'example.txt'"@,
        Step::WriteFile => "Error writing to 'example.txt'"@,
        Step::CloseFile => "Error closing 'example.txt'"@,
        Step::CloseDir => "Error closing the root directory"@,
    }
}

impl Step {
    /// The diagnostic printed when this step fails; each step has its own.
    pub fn failure_message(self) -> (r: &'static str)
        ensures
            r@ == failure_text(self),
    {
        match self {
            Step::InitDevice => "Error during initialization",
            Step::ReadCardSize => "Error reading card size",
            Step::MountVolume => "Error getting volume 0",
            Step::OpenRootDir => "Error getting root directory on volume 0",
            Step::OpenFile => "Error creating 'example.txt'",
            Step::WriteFile => "Error writing to 'example.txt'",
            Step::CloseFile => "Error closing 'example.txt'",
            Step::CloseDir => "Error closing the root directory",
        }
    }
}

/// Different steps fail with different diagnostics.
pub proof fn lemma_failure_texts_distinct(a: Step, b: Step)
    requires
        a != b,
    ensures
        failure_text(a) != failure_text(b),
{
    reveal_strlit("Error during initialization");
    reveal_strlit("Error reading card size");
    reveal_strlit("Error getting volume 0");
    reveal_strlit("Error getting root directory on volume 0");
    reveal_strlit("Error creating 'example.txt'");
    reveal_strlit("Error writing to 'example.txt'");
    reveal_strlit("Error closing 'example.txt'");
    reveal_strlit("Error closing the root directory");
    let (x, y) = (failure_text(a), failure_text(b));
    assert(x.len() != y.len() || x[6] != y[6] || x[14] != y[14]);
}

/// Why the firmware halts.
#[derive(Clone, Copy, Debug, PartialEq, Eq, Structural)]
pub enum Fault {
    /// The peripheral set was requested after it had been handed out.
    PeripheralsTaken,
    /// The collaborator reported an error for this step.
    StepFailed(Step),
    /// The write reported this many bytes instead of the whole payload.
    ShortWrite(usize),
}

/// What the outcome of the previous step gives to report, besides the next
/// operation.
#[derive(Clone, Copy, Debug, PartialEq, Eq, Structural)]
pub enum Report {
    Quiet,
    /// The block device answered its initialization.
    DeviceReady,
    /// The card holds this many bytes.
    CardSize(u64),
    /// The write stored this many bytes.
    BytesWritten(usize),
}

/// The next operation for the firmware to perform on the collaborator.
#[derive(Debug)]
pub enum Op<D, F> {
    InitDevice,
    ReadCardSize,
    MountVolume { index: usize },
    OpenRootDir,
    /// Open `file_name()` in the open root directory (see `Session::directory`).
    OpenFile { mode: OpenMode },
    /// Write `payload()` to the open file (see `Session::file_mut`).
    WriteFile,
    /// Close this file handle.
    CloseFile(F),
    /// Close this directory handle.
    CloseDir(D),
    /// Report success and idle forever.
    Finish,
    /// Report the fault and halt.
    Halt(Fault),
    /// Nothing is left to do.
    Stay,
}

impl<D, F> Op<D, F> {
    /// The operation works on the mounted filesystem.
    pub open spec fn touches_filesystem(self) -> bool {
        ||| self is MountVolume
        ||| self is OpenRootDir
        ||| self is OpenFile
        ||| self is WriteFile
        ||| self is CloseFile
        ||| self is CloseDir
    }
}

/// A report together with the next operation.
#[derive(Debug)]
pub struct Command<D, F> {
    pub report: Report,
    pub op: Op<D, F>,
}

/// The collaborator's answer to the operation last commanded.
#[derive(Debug)]
pub enum Event<D, F> {
    /// The operation succeeded with nothing to hand back.
    Succeeded,
    /// The card size query answered.
    CardSize(u64),
    /// The root directory was opened.
    DirOpened(D),
    /// The file was opened.
    FileOpened(F),
    /// The write reported this many bytes.
    Wrote(usize),
    /// The operation failed.
    Failed,
}

/// The state of the storage session: the last step that succeeded, with the
/// handles that are open. In every state but `Done` and `Halted` the operation
/// of the following step is outstanding.
#[derive(Debug)]
pub enum Session<D, F> {
    Idle,
    DeviceInitialized,
    CardMeasured,
    VolumeMounted,
    DirectoryOpen { dir: D },
    FileOpen { dir: D, file: F },
    Written { dir: D },
    FileClosed,
    Done,
    Halted { fault: Fault },
}

/// The command that reports `report` and asks for `op`.
pub open spec fn command<D, F>(report: Report, op: Op<D, F>) -> Command<D, F> {
    Command { report, op }
}

/// The state and command after a failure: halt with `fault`.
pub open spec fn halt<D, F>(fault: Fault) -> (Session<D, F>, Command<D, F>) {
    (Session::Halted { fault }, command(Report::Quiet, Op::Halt(fault)))
}

impl<D, F> Session<D, F> {
    /// The step whose operation is outstanding.
    pub open spec fn pending(self) -> Option<Step> {
        match self {
            Session::Idle => Some(Step::InitDevice),
            Session::DeviceInitialized => Some(Step::ReadCardSize),
            Session::CardMeasured => Some(Step::MountVolume),
            Session::VolumeMounted => Some(Step::OpenRootDir),
            Session::DirectoryOpen { .. } => Some(Step::OpenFile),
            Session::FileOpen { .. } => Some(Step::WriteFile),
            Session::Written { .. } => Some(Step::CloseFile),
            Session::FileClosed => Some(Step::CloseDir),
            Session::Done => None,
            Session::Halted { .. } => None,
        }
    }

    /// The transition table: each step moves forward only on its own success
    /// answer, and any other answer halts with that step named.
    pub open spec fn next(self, e: Event<D, F>) -> (Session<D, F>, Command<D, F>) {
        match self {
            Session::Idle => match e {
                Event::Succeeded => (
                    Session::DeviceInitialized,
                    command(Report::DeviceReady, Op::ReadCardSize),
                ),
                _ => halt(Fault::StepFailed(Step::InitDevice)),
            },
            Session::DeviceInitialized => match e {
                Event::CardSize(n) => (
                    Session::CardMeasured,
                    command(Report::CardSize(n), Op::MountVolume { index: VOLUME_INDEX }),
                ),
                _ => halt(Fault::StepFailed(Step::ReadCardSize)),
            },
            Session::CardMeasured => match e {
                Event::Succeeded => (Session::VolumeMounted, command(Report::Quiet, Op::OpenRootDir)),
                _ => halt(Fault::StepFailed(Step::MountVolume)),
            },
            Session::VolumeMounted => match e {
                Event::DirOpened(dir) => (
                    Session::DirectoryOpen { dir },
                    command(Report::Quiet, Op::OpenFile { mode: OpenMode::ReadWriteCreateOrTruncate }),
                ),
                _ => halt(Fault::StepFailed(Step::OpenRootDir)),
            },
            Session::DirectoryOpen { dir } => match e {
                Event::FileOpened(file) => (
                    Session::FileOpen { dir, file },
                    command(Report::Quiet, Op::WriteFile),
                ),
                _ => halt(Fault::StepFailed(Step::OpenFile)),
            },
            Session::FileOpen { dir, file } => match e {
                Event::Wrote(n) => if n == PAYLOAD_LEN {
                    (Session::Written { dir }, command(Report::BytesWritten(n), Op::CloseFile(file)))
                } else {
                    halt(Fault::ShortWrite(n))
                },
                _ => halt(Fault::StepFailed(Step::WriteFile)),
            },
            Session::Written { dir } => match e {
                Event::Succeeded => (Session::FileClosed, command(Report::Quiet, Op::CloseDir(dir))),
                _ => halt(Fault::StepFailed(Step::CloseFile)),
            },
            Session::FileClosed => match e {
                Event::Succeeded => (Session::Done, command(Report::Quiet, Op::Finish)),
                _ => halt(Fault::StepFailed(Step::CloseDir)),
            },
            Session::Done => (Session::Done, command(Report::Quiet, Op::Stay)),
            Session::Halted { fault } => (Session::Halted { fault }, command(Report::Quiet, Op::Stay)),
        }
    }

    /// The open root directory, while one is held.
    pub open spec fn open_dir(self) -> Option<D> {
        match self {
            Session::DirectoryOpen { dir } => Some(dir),
            Session::FileOpen { dir, .. } => Some(dir),
            Session::Written { dir } => Some(dir),
            _ => None,
        }
    }

    /// The directory in which the file is to be opened.
    pub fn directory(&self) -> (r: Option<&D>)
        ensures
            r is Some <==> self.open_dir() is Some,
            r is Some ==> self.open_dir() == Some(*r.unwrap()),
    {
        match self {
            Session::DirectoryOpen { dir } => Some(dir),
            Session::FileOpen { dir, .. } => Some(dir),
            Session::Written { dir } => Some(dir),
            _ => None,
        }
    }

    /// The open file, to be written in place; the rest of the session is kept.
    pub fn file_mut(&mut self) -> (r: Option<&mut F>)
        ensures
            match *old(self) {
                Session::FileOpen { dir, file } => {
                    &&& r is Some
                    &&& *r.unwrap() == file
                    &&& *final(self) == Session::<D, F>::FileOpen { dir, file: *final(r.unwrap()) }
                },
                _ => r is None && *final(self) == *old(self),
            },
    {
        match self {
            Session::FileOpen { file, .. } => Some(file),
            _ => None,
        }
    }

    /// A fresh session, with the first command: initialize the block device.
    pub fn start() -> (r: (Session<D, F>, Command<D, F>))
        ensures
            r == (Session::<D, F>::Idle, command::<D, F>(Report::Quiet, Op::InitDevice)),
    {
        (Session::Idle, Command { report: Report::Quiet, op: Op::InitDevice })
    }

    /// Takes the answer to the outstanding operation and returns the next
    /// state with the next command.
    pub fn advance(self, e: Event<D, F>) -> (r: (Session<D, F>, Command<D, F>))
        ensures
            r == self.next(e),
    {
        match self {
            Session::Idle => match e {
                Event::Succeeded => (
                    Session::DeviceInitialized,
                    Command { report: Report::DeviceReady, op: Op::ReadCardSize },
                ),
                _ => halted(Fault::StepFailed(Step::InitDevice)),
            },
            Session::DeviceInitialized => match e {
                Event::CardSize(n) => (
                    Session::CardMeasured,
                    Command { report: Report::CardSize(n), op: Op::MountVolume { index: VOLUME_INDEX } },
                ),
                _ => halted(Fault::StepFailed(Step::ReadCardSize)),
            },
            Session::CardMeasured => match e {
                Event::Succeeded => (
                    Session::VolumeMounted,
                    Command { report: Report::Quiet, op: Op::OpenRootDir },
                ),
                _ => halted(Fault::StepFailed(Step::MountVolume)),
            },
            Session::VolumeMounted => match e {
                Event::DirOpened(dir) => (
                    Session::DirectoryOpen { dir },
                    Command {
                        report: Report::Quiet,
                        op: Op::OpenFile { mode: OpenMode::ReadWriteCreateOrTruncate },
                    },
                ),
                _ => halted(Fault::StepFailed(Step::OpenRootDir)),
            },
            Session::DirectoryOpen { dir } => match e {
                Event::FileOpened(file) => (
                    Session::FileOpen { dir, file },
                    Command { report: Report::Quiet, op: Op::WriteFile },
                ),
                _ => halted(Fault::StepFailed(Step::OpenFile)),
            },
            Session::FileOpen { dir, file } => match e {
                Event::Wrote(n) => {
                    if n == PAYLOAD_LEN {
                        (
                            Session::Written { dir },
                            Command { report: Report::BytesWritten(n), op: Op::CloseFile(file) },
                        )
                    } else {
                        halted(Fault::ShortWrite(n))
                    }
                },
                _ => halted(Fault::StepFailed(Step::WriteFile)),
            },
            Session::Written { dir } => match e {
                Event::Succeeded => (
                    Session::FileClosed,
                    Command { report: Report::Quiet, op: Op::CloseDir(dir) },
                ),
                _ => halted(Fault::StepFailed(Step::CloseFile)),
            },
            Session::FileClosed => match e {
                Event::Succeeded => (Session::Done, Command { report: Report::Quiet, op: Op::Finish }),
                _ => halted(Fault::StepFailed(Step::CloseDir)),
            },
            Session::Done => (Session::Done, Command { report: Report::Quiet, op: Op::Stay }),
            Session::Halted { fault } => (
                Session::Halted { fault },
                Command { report: Report::Quiet, op: Op::Stay },
            ),
        }
    }
}

fn halted<D, F>(fault: Fault) -> (r: (Session<D, F>, Command<D, F>))
    ensures
        r == halt::<D, F>(fault),
{
    (Session::Halted { fault }, Command { report: Report::Quiet, op: Op::Halt(fault) })
}

} // verus!
