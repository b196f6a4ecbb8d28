//! The session over a whole run: the states and commands that a sequence of
//! answers leads to, and the laws that every run obeys.
use vstd::prelude::*;
use crate::session::{
    command, Command, Event, Fault, Op, OpenMode, Report, Session, PAYLOAD_LEN, VOLUME_INDEX,
};

verus! {

/// The state reached from `s` after the answers `evs`.
pub open spec fn replay<D, F>(s: Session<D, F>, evs: Seq<Event<D, F>>) -> Session<D, F>
    decreases evs.len(),
{
    if evs.len() == 0 {
        s
    } else {
        replay(s.next(evs[0]).0, evs.drop_first())
    }
}

/// The commands issued from `s` in reply to the answers `evs`, one per answer.
pub open spec fn commands<D, F>(s: Session<D, F>, evs: Seq<Event<D, F>>) -> Seq<Command<D, F>>
    decreases evs.len(),
{
    if evs.len() == 0 {
        seq![]
    } else {
        seq![s.next(evs[0]).1] + commands(s.next(evs[0]).0, evs.drop_first())
    }
}

/// A command that reports nothing and asks for nothing.
pub open spec fn idle_command<D, F>() -> Command<D, F> {
    command(Report::Quiet, Op::Stay)
}

pub proof fn lemma_commands_len<D, F>(s: Session<D, F>, evs: Seq<Event<D, F>>)
    ensures
        commands(s, evs).len() == evs.len(),
    decreases evs.len(),
{
    if evs.len() > 0 {
        lemma_commands_len(s.next(evs[0]).0, evs.drop_first());
    }
}

/// The `i`-th command is the reply, to the `i`-th answer, of the state that
/// the answers before it led to.
pub proof fn lemma_command_at<D, F>(s: Session<D, F>, evs: Seq<Event<D, F>>, i: int)
    requires
        0 <= i < evs.len(),
    ensures
        commands(s, evs)[i] == replay(s, evs.take(i)).next(evs[i]).1,
    decreases i,
{
    let s1 = s.next(evs[0]).0;
    let rest = evs.drop_first();
    lemma_commands_len(s1, rest);
    if i == 0 {
        assert(evs.take(0) =~= Seq::<Event<D, F>>::empty());
    } else {
        lemma_command_at(s1, rest, i - 1);
        assert(evs.take(i).drop_first() =~= rest.take(i - 1));
        assert(rest[i - 1] == evs[i]);
    }
}

/// Replaying two runs one after the other is replaying their concatenation.
pub proof fn lemma_replay_append<D, F>(
    s: Session<D, F>,
    a: Seq<Event<D, F>>,
    b: Seq<Event<D, F>>,
)
    ensures
        replay(s, a + b) == replay(replay(s, a), b),
    decreases a.len(),
{
    if a.len() == 0 {
        assert(a + b =~= b);
    } else {
        assert((a + b).drop_first() =~= a.drop_first() + b);
        lemma_replay_append(s.next(a[0]).0, a.drop_first(), b);
    }
}

/// The state after the first `k + 1` answers.
pub proof fn lemma_replay_prefix<D, F>(s: Session<D, F>, evs: Seq<Event<D, F>>, k: int)
    requires
        0 <= k < evs.len(),
    ensures
        replay(s, evs.take(k + 1)) == replay(s, evs.take(k)).next(evs[k]).0,
{
    assert(evs.take(k + 1) =~= evs.take(k) + seq![evs[k]]);
    lemma_replay_append(s, evs.take(k), seq![evs[k]]);
    let t = replay(s, evs.take(k));
    assert(seq![evs[k]].drop_first() =~= Seq::<Event<D, F>>::empty());
    assert(replay(t, seq![evs[k]]) == replay(t.next(evs[k]).0, Seq::<Event<D, F>>::empty()));
}

/// Once done or halted, a session stays so and issues only idle commands.
pub proof fn lemma_terminal_stays<D, F>(s: Session<D, F>, evs: Seq<Event<D, F>>)
    requires
        s is Done || s is Halted,
    ensures
        replay(s, evs) == s,
        commands(s, evs).len() == evs.len(),
        forall|i: int| 0 <= i < evs.len() ==> #[trigger] commands(s, evs)[i] == idle_command::<D, F>(),
    decreases evs.len(),
{
    lemma_commands_len(s, evs);
    if evs.len() > 0 {
        lemma_terminal_stays(s, evs.drop_first());
        assert forall|i: int| 0 <= i < evs.len() implies #[trigger] commands(s, evs)[i]
            == idle_command::<D, F>() by {
            if i > 0 {
                assert(commands(s, evs)[i] == commands(s, evs.drop_first())[i - 1]);
            }
        }
    }
}

/// Ordering: no command touches the filesystem unless the first answer, the one
/// to the block device's initialization, was a success, and it comes after it.
pub proof fn lemma_filesystem_waits_for_device<D, F>(evs: Seq<Event<D, F>>)
    ensures
        forall|i: int|
            0 <= i < evs.len() && (#[trigger] commands(Session::<D, F>::Idle, evs)[i]).op.touches_filesystem()
                ==> i > 0 && evs[0] is Succeeded,
{
    let s0 = Session::<D, F>::Idle;
    assert forall|i: int|
        0 <= i < evs.len() && (#[trigger] commands(s0, evs)[i]).op.touches_filesystem()
            implies i > 0 && evs[0] is Succeeded by {
        lemma_command_at(s0, evs, i);
        assert(evs.take(0) =~= Seq::<Event<D, F>>::empty());
        if !(evs[0] is Succeeded) {
            lemma_replay_prefix(s0, evs, 0);
            let h = s0.next(evs[0]).0;
            assert(h is Halted);
            if i > 0 {
                assert(evs.take(i) =~= evs.take(1) + evs.subrange(1, i));
                lemma_replay_append(s0, evs.take(1), evs.subrange(1, i));
                lemma_terminal_stays(h, evs.subrange(1, i));
            }
        }
    }
}

/// Fail-fast: an error answer to the outstanding step halts the session with
/// that step named, in one command, and every later command is idle.
pub proof fn lemma_fail_fast<D, F>(s: Session<D, F>, rest: Seq<Event<D, F>>)
    requires
        s.pending() is Some,
    ensures
        ({
            let evs = seq![Event::<D, F>::Failed] + rest;
            let fault = Fault::StepFailed(s.pending().unwrap());
            &&& replay(s, evs) == Session::<D, F>::Halted { fault }
            &&& commands(s, evs).len() == evs.len()
            &&& commands(s, evs)[0] == command::<D, F>(Report::Quiet, Op::Halt(fault))
            &&& forall|i: int| 0 < i < evs.len() ==> #[trigger] commands(s, evs)[i] == idle_command::<D, F>()
        }),
{
    let evs = seq![Event::<D, F>::Failed] + rest;
    assert(evs.drop_first() =~= rest);
    let h = s.next(evs[0]).0;
    lemma_terminal_stays(h, rest);
    lemma_commands_len(s, evs);
    assert forall|i: int| 0 < i < evs.len() implies #[trigger] commands(s, evs)[i]
        == idle_command::<D, F>() by {
        assert(commands(s, evs)[i] == commands(h, rest)[i - 1]);
    }
}

/// A write that reports anything but the whole payload halts the session, and
/// every later command is idle.
pub proof fn lemma_short_write_halts<D, F>(dir: D, file: F, n: usize, rest: Seq<Event<D, F>>)
    requires
        n != PAYLOAD_LEN,
    ensures
        ({
            let s = Session::<D, F>::FileOpen { dir, file };
            let evs = seq![Event::<D, F>::Wrote(n)] + rest;
            &&& replay(s, evs) == Session::<D, F>::Halted { fault: Fault::ShortWrite(n) }
            &&& commands(s, evs)[0] == command::<D, F>(Report::Quiet, Op::Halt(Fault::ShortWrite(n)))
            &&& forall|i: int| 0 < i < evs.len() ==> #[trigger] commands(s, evs)[i] == idle_command::<D, F>()
        }),
{
    let s = Session::<D, F>::FileOpen { dir, file };
    let evs = seq![Event::<D, F>::Wrote(n)] + rest;
    assert(evs.drop_first() =~= rest);
    let h = s.next(evs[0]).0;
    lemma_terminal_stays(h, rest);
    lemma_commands_len(s, evs);
    assert forall|i: int| 0 < i < evs.len() implies #[trigger] commands(s, evs)[i]
        == idle_command::<D, F>() by {
        assert(commands(s, evs)[i] == commands(h, rest)[i - 1]);
    }
}


/// The answers of a run in which every step succeeds.
pub open spec fn success_answers<D, F>(dir: D, file: F, size: u64) -> Seq<Event<D, F>> {
    seq![
        Event::Succeeded,
        Event::CardSize(size),
        Event::Succeeded,
        Event::DirOpened(dir),
        Event::FileOpened(file),
        Event::Wrote(PAYLOAD_LEN),
        Event::Succeeded,
        Event::Succeeded,
    ]
}

/// The commands that answer `success_answers(dir, file, size)`.
pub open spec fn success_commands<D, F>(dir: D, file: F, size: u64) -> Seq<Command<D, F>> {
    seq![
        command(Report::DeviceReady, Op::ReadCardSize),
        command(Report::CardSize(size), Op::MountVolume { index: VOLUME_INDEX }),
        command(Report::Quiet, Op::OpenRootDir),
        command(Report::Quiet, Op::OpenFile { mode: OpenMode::ReadWriteCreateOrTruncate }),
        command(Report::Quiet, Op::WriteFile),
        command(Report::BytesWritten(PAYLOAD_LEN), Op::CloseFile(file)),
        command(Report::Quiet, Op::CloseDir(dir)),
        command(Report::Quiet, Op::Finish),
    ]
}

/// When every step succeeds the session ends done, after mounting volume 0,
/// writing the whole payload, and closing exactly the file and directory that
/// were opened.
pub proof fn lemma_success_path<D, F>(dir: D, file: F, size: u64)
    ensures
        replay(Session::<D, F>::Idle, success_answers(dir, file, size)) == Session::<D, F>::Done,
        commands(Session::<D, F>::Idle, success_answers(dir, file, size)) == success_commands(
            dir,
            file,
            size,
        ),
{
    let evs = success_answers(dir, file, size);
    let s0 = Session::<D, F>::Idle;
    assert(evs.take(8) =~= evs);
    lemma_commands_len(s0, evs);
    lemma_done_path(evs, dir, file, size);
    assert forall|i: int| 0 <= i < 8 implies #[trigger] commands(s0, evs)[i] == success_commands(
        dir,
        file,
        size,
    )[i] by {
        lemma_command_at(s0, evs, i);
    }
    assert(commands(s0, evs) =~= success_commands(dir, file, size));
}

/// The states that the first `k` answers of a successful run lead to.
proof fn lemma_done_path<D, F>(evs: Seq<Event<D, F>>, dir: D, file: F, size: u64)
    requires
        evs.len() >= 8,
        evs.take(8) == success_answers(dir, file, size),
    ensures
        replay(Session::<D, F>::Idle, evs.take(0)) == (Session::<D, F>::Idle),
        replay(Session::<D, F>::Idle, evs.take(1)) == (Session::<D, F>::DeviceInitialized),
        replay(Session::<D, F>::Idle, evs.take(2)) == (Session::<D, F>::CardMeasured),
        replay(Session::<D, F>::Idle, evs.take(3)) == (Session::<D, F>::VolumeMounted),
        replay(Session::<D, F>::Idle, evs.take(4)) == (Session::<D, F>::DirectoryOpen { dir }),
        replay(Session::<D, F>::Idle, evs.take(5)) == (Session::<D, F>::FileOpen { dir, file }),
        replay(Session::<D, F>::Idle, evs.take(6)) == (Session::<D, F>::Written { dir }),
        replay(Session::<D, F>::Idle, evs.take(7)) == (Session::<D, F>::FileClosed),
        replay(Session::<D, F>::Idle, evs.take(8)) == (Session::<D, F>::Done),
{
    let s0 = Session::<D, F>::Idle;
    assert(evs.take(0) =~= Seq::<Event<D, F>>::empty());
    assert forall|k: int| 0 <= k < 8 implies evs[k] == #[trigger] success_answers(dir, file, size)[k] by {
        assert(evs[k] == evs.take(8)[k]);
    }
    lemma_replay_prefix(s0, evs, 0);
    lemma_replay_prefix(s0, evs, 1);
    lemma_replay_prefix(s0, evs, 2);
    lemma_replay_prefix(s0, evs, 3);
    lemma_replay_prefix(s0, evs, 4);
    lemma_replay_prefix(s0, evs, 5);
    lemma_replay_prefix(s0, evs, 6);
    lemma_replay_prefix(s0, evs, 7);
}

/// A run that ends done has not halted at any point, and was done once all its
/// answers were in.
proof fn lemma_done_prefix<D, F>(evs: Seq<Event<D, F>>, k: int)
    requires
        replay(Session::<D, F>::Idle, evs) is Done,
        0 <= k <= evs.len(),
    ensures
        !(replay(Session::<D, F>::Idle, evs.take(k)) is Halted),
        k == evs.len() ==> replay(Session::<D, F>::Idle, evs.take(k)) is Done,
{
    let s0 = Session::<D, F>::Idle;
    let tail = evs.subrange(k, evs.len() as int);
    assert(evs =~= evs.take(k) + tail);
    lemma_replay_append(s0, evs.take(k), tail);
    let t = replay(s0, evs.take(k));
    if t is Halted {
        lemma_terminal_stays(t, tail);
    }
    if k == evs.len() {
        assert(evs.take(k) =~= evs);
    }
}

/// Every run that ends done is the successful run: the write reported the
/// whole payload, the file closed is the one the open returned, the directory
/// closed is the one the open returned, each is closed exactly once, and after
/// the run nothing more is asked.
pub proof fn lemma_done_means_success<D, F>(evs: Seq<Event<D, F>>)
    requires
        replay(Session::<D, F>::Idle, evs) is Done,
    ensures
        evs.len() >= 8,
        evs[3] is DirOpened,
        evs[4] is FileOpened,
        evs[1] is CardSize,
        ({
            let dir = evs[3]->DirOpened_0;
            let file = evs[4]->FileOpened_0;
            let size = evs[1]->CardSize_0;
            let cs = commands(Session::<D, F>::Idle, evs);
            &&& evs.take(8) == success_answers(dir, file, size)
            &&& cs.len() == evs.len()
            &&& cs.take(8) == success_commands(dir, file, size)
            &&& forall|i: int| 8 <= i < evs.len() ==> #[trigger] cs[i] == idle_command::<D, F>()
            &&& forall|i: int| 0 <= i < evs.len() ==> (#[trigger] cs[i].op is CloseFile <==> i == 5)
            &&& forall|i: int| 0 <= i < evs.len() ==> (#[trigger] cs[i].op is CloseDir <==> i == 6)
        }),
{
    let s0 = Session::<D, F>::Idle;
    assert(evs.take(0) =~= Seq::<Event<D, F>>::empty());
    lemma_done_prefix(evs, 0);
    lemma_replay_prefix(s0, evs, 0);
    lemma_done_prefix(evs, 1);
    lemma_replay_prefix(s0, evs, 1);
    lemma_done_prefix(evs, 2);
    lemma_replay_prefix(s0, evs, 2);
    lemma_done_prefix(evs, 3);
    lemma_replay_prefix(s0, evs, 3);
    lemma_done_prefix(evs, 4);
    lemma_replay_prefix(s0, evs, 4);
    lemma_done_prefix(evs, 5);
    lemma_replay_prefix(s0, evs, 5);
    lemma_done_prefix(evs, 6);
    lemma_replay_prefix(s0, evs, 6);
    lemma_done_prefix(evs, 7);
    lemma_replay_prefix(s0, evs, 7);
    lemma_done_prefix(evs, 8);
    let dir = evs[3]->DirOpened_0;
    let file = evs[4]->FileOpened_0;
    let size = evs[1]->CardSize_0;
    assert(evs.take(8) =~= success_answers(dir, file, size));
    lemma_done_path(evs, dir, file, size);
    let cs = commands(s0, evs);
    lemma_commands_len(s0, evs);
    assert forall|i: int| 0 <= i < evs.len() implies #[trigger] cs[i] == (if i < 8 {
        success_commands(dir, file, size)[i]
    } else {
        idle_command::<D, F>()
    }) by {
        lemma_command_at(s0, evs, i);
        if i >= 8 {
            let mid = evs.subrange(8, i);
            assert(evs.take(i) =~= evs.take(8) + mid);
            lemma_replay_append(s0, evs.take(8), mid);
            lemma_terminal_stays(Session::<D, F>::Done, mid);
        }
    }
    assert(cs.take(8) =~= success_commands(dir, file, size));
}

} // verus!
