//! The watcher state machine: which file is polled for modification-time
//! changes, and when a poll emits a reload signal.
//!
//! The watcher thread owns a `WatcherState` and, on a fixed cadence, reads the
//! watched file's modification time and feeds it to [`WatcherState::observe`].
//! Between polls it drains the control channel and applies the retarget
//! commands with [`WatcherState::drain_retargets`]. All decisions live here;
//! the clock, the file system and the channels stay with the caller.

use vstd::prelude::*;

verus! {

/// A zero-payload token sent on the notification channel: the watched file
/// changed and the active shader should be rebuilt.
pub struct FileReloadNotification;

/// A command sent on the control channel: watch this path from now on.
pub struct FileReloadSetPath(pub String);

/// Mathematical model of the watcher's state: the path currently polled, and
/// the modification time recorded at the most recent successful poll of that
/// path (`None` means "unknown", as right after a retarget).
pub ghost struct WatcherModel {
    pub target: Option<Seq<char>>,
    pub last_mtime: Option<u128>,
}

/// The state the watcher starts in: watching nothing, no baseline.
pub open spec fn watcher_init() -> WatcherModel {
    WatcherModel { target: None, last_mtime: None }
}

/// The state after a successful poll observed modification time `mtime`:
/// the new time always becomes the baseline for the next comparison.
pub open spec fn watcher_after_observation(m: WatcherModel, mtime: u128) -> WatcherModel {
    WatcherModel { target: m.target, last_mtime: Some(mtime) }
}

/// Whether a successful poll observing `mtime` emits a reload signal: exactly
/// when a baseline exists and the observed time is strictly greater.
pub open spec fn observation_emits(m: WatcherModel, mtime: u128) -> bool {
    m.last_mtime matches Some(last) && mtime > last
}

/// The state after a failed poll (file missing or unreadable): the watcher
/// stops watching that target; the baseline is invalidated with it.
pub open spec fn watcher_after_poll_failure(m: WatcherModel) -> WatcherModel {
    WatcherModel { target: None, last_mtime: None }
}

/// The state after one retarget command: the new path replaces the target and
/// the baseline is reset to unknown, so the first poll of the new target can
/// never compare against a stale time from a previous target.
pub open spec fn watcher_after_retarget(m: WatcherModel, path: Seq<char>) -> WatcherModel {
    WatcherModel { target: Some(path), last_mtime: None }
}

/// The state after a drained batch of retarget commands, oldest first.
pub open spec fn watcher_after_drain(m: WatcherModel, cmds: Seq<Seq<char>>) -> WatcherModel
    decreases cmds.len(),
{
    if cmds.len() == 0 {
        m
    } else {
        watcher_after_drain(watcher_after_retarget(m, cmds.first()), cmds.drop_first())
    }
}

/// The watcher's private state. Owned by the watcher thread alone; everything
/// else talks to it through the two channels.
pub struct WatcherState {
    target: Option<String>,
    last_mtime: Option<u128>,
}

impl View for WatcherState {
    type V = WatcherModel;

    closed spec fn view(&self) -> WatcherModel {
        WatcherModel {
            target: if self.target is Some {
                Some(self.target->0@)
            } else {
                None
            },
            last_mtime: self.last_mtime,
        }
    }
}

impl WatcherState {
    /// A watcher that watches nothing yet.
    pub fn new() -> (r: WatcherState)
        ensures
            r@ == watcher_init(),
    {
        WatcherState { target: None, last_mtime: None }
    }

    /// The path currently being watched, if any.
    pub fn current_target(&self) -> (r: &Option<String>)
        ensures
            r is Some <==> self@.target is Some,
            r matches Some(p) ==> self@.target == Some(p@),
    {
        &self.target
    }

    /// A poll of the watched file succeeded and saw modification time `mtime`.
    /// Returns whether a reload signal must be sent: exactly when a baseline
    /// exists and `mtime` is strictly greater than it. The observed time
    /// always becomes the new baseline.
    pub fn observe(&mut self, mtime: u128) -> (emit: bool)
        requires
            old(self)@.target is Some,
        ensures
            emit == observation_emits(old(self)@, mtime),
            final(self)@ == watcher_after_observation(old(self)@, mtime),
    {
        let emit = match self.last_mtime {
            Some(last) => mtime > last,
            None => false,
        };
        self.last_mtime = Some(mtime);
        emit
    }

    /// A poll of the watched file failed (missing or unreadable): stop
    /// watching it. This is terminal for the target, not for the watcher; a
    /// later retarget starts a fresh watch.
    pub fn poll_failed(&mut self)
        requires
            old(self)@.target is Some,
        ensures
            final(self)@ == watcher_after_poll_failure(old(self)@),
    {
        self.target = None;
        self.last_mtime = None;
    }

    /// Apply one retarget command: watch the command's path and forget any
    /// baseline recorded for the previous target.
    pub fn retarget(&mut self, cmd: FileReloadSetPath)
        ensures
            final(self)@ == watcher_after_retarget(old(self)@, cmd.0@),
    {
        self.target = Some(cmd.0);
        self.last_mtime = None;
    }

    /// Apply a drained batch of retarget commands, oldest first. Only the
    /// last command matters (see [`lemma_last_retarget_wins`]); the loop
    /// applies them all, as the watcher thread would.
    pub fn drain_retargets(&mut self, cmds: Vec<FileReloadSetPath>)
        ensures
            final(self)@ == watcher_after_drain(
                old(self)@,
                cmds@.map_values(|c: FileReloadSetPath| c.0@),
            ),
    {
        let ghost all: Seq<Seq<char>> = cmds@.map_values(|c: FileReloadSetPath| c.0@);
        let mut i: usize = 0;
        proof {
            assert(all.skip(0) =~= all);
        }
        while i < cmds.len()
            invariant
                i <= cmds.len(),
                all == cmds@.map_values(|c: FileReloadSetPath| c.0@),
                watcher_after_drain(old(self)@, all) == watcher_after_drain(self@, all.skip(i as int)),
            decreases cmds.len() - i,
        {
            proof {
                assert(all.skip(i as int).len() > 0);
                assert(all.skip(i as int).first() == all[i as int]);
                assert(all.skip(i as int).drop_first() =~= all.skip(i as int + 1));
            }
            self.target = Some(cmds[i].0.clone());
            self.last_mtime = None;
            i = i + 1;
        }
        proof {
            assert(all.skip(cmds.len() as int) =~= Seq::<Seq<char>>::empty());
        }
    }
}

/// Law: the first poll after a retarget never emits a reload signal, whatever
/// modification time it observes — the comparison is against "unknown", never
/// against a time recorded for an earlier target.
pub proof fn lemma_retarget_resets_baseline(m: WatcherModel, path: Seq<char>, mtime: u128)
    ensures
        !observation_emits(watcher_after_retarget(m, path), mtime),
{
}

/// Law: for a fixed watched target, a reload signal is emitted on a
/// successful poll if and only if the observed modification time strictly
/// increased since the previous successful poll.
pub proof fn lemma_monotonic_reload(m: WatcherModel, t0: u128, t1: u128)
    ensures
        observation_emits(watcher_after_observation(m, t0), t1) <==> t1 > t0,
{
}

/// Law: after a non-empty batch of retarget commands is drained, exactly the
/// last command determines the watcher's state; the intermediate commands
/// leave no trace, so they can make no observable difference afterwards.
pub proof fn lemma_last_retarget_wins(m: WatcherModel, cmds: Seq<Seq<char>>)
    requires
        cmds.len() > 0,
    ensures
        watcher_after_drain(m, cmds) == watcher_after_retarget(m, cmds.last()),
    decreases cmds.len(),
{
    let tail = cmds.drop_first();
    assert(watcher_after_drain(m, cmds) == watcher_after_drain(
        watcher_after_retarget(m, cmds.first()),
        tail,
    ));
    if cmds.len() == 1 {
        assert(tail.len() == 0);
        assert(watcher_after_drain(watcher_after_retarget(m, cmds.first()), tail)
            == watcher_after_retarget(m, cmds.first()));
        assert(cmds.first() == cmds.last());
    } else {
        lemma_last_retarget_wins(watcher_after_retarget(m, cmds.first()), tail);
        assert(tail.last() == cmds.last());
    }
}

} // verus!
