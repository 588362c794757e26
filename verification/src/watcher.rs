//! The debounced directory watcher.
//!
//! Raw filesystem notifications arrive from outside; here they are
//! classified, coalesced by a debounce window, and turned into background
//! refresh triggers. A change event opens (or re-opens) a window of
//! `delay_ms`; the trigger fires on the first poll at or past the
//! window's deadline, so a burst of events collapses into one refresh.
//! After a refresh that reports an ambiguous outcome or a missing
//! connection, the watcher re-synchronizes the channel and resumes; any
//! other refresh error is reported and the watch goes on.

use vstd::prelude::*;

use crate::channel::ChannelError;

verus! {

/// The kinds of raw filesystem notification the watch facility delivers.
#[derive(Clone, Copy, PartialEq, Eq, Structural, Debug)]
pub enum FsEventKind {
    /// Advance notice that a write will be observed; not yet a change.
    NoticeWrite,
    /// Advance notice that a removal will be observed; not yet a change.
    NoticeRemove,
    Create,
    Write,
    Chmod,
    Remove,
    Rename,
    /// The watch facility rescanned the tree; administrative, no change.
    Rescan,
    /// The watch facility failed fatally; the watch must end.
    Error,
}

/// Which notifications mean the tree's contents changed: creation,
/// write, removal and rename do; notices, attribute changes and
/// administrative events do not.
pub open spec fn is_change_spec(k: FsEventKind) -> bool {
    k is Create || k is Write || k is Remove || k is Rename
}

/// Classify one notification kind.
pub fn is_change(k: FsEventKind) -> (b: bool)
    ensures
        b == is_change_spec(k),
{
    match k {
        FsEventKind::Create => true,
        FsEventKind::Write => true,
        FsEventKind::Remove => true,
        FsEventKind::Rename => true,
        _ => false,
    }
}

/// The debounce state after noting one event at time `now`.
pub open spec fn deb_note_spec(st: Option<u64>, delay: u64, now: u64, k: FsEventKind) -> Option<
    u64,
> {
    if is_change_spec(k) {
        Some((now + delay) as u64)
    } else {
        st
    }
}

/// The debounce state and emission of one poll at time `now`.
pub open spec fn deb_poll_spec(st: Option<u64>, now: u64) -> (Option<u64>, bool) {
    match st {
        Some(d) => if now >= d {
            (None, true)
        } else {
            (st, false)
        },
        None => (st, false),
    }
}

/// The debounce state after a whole burst of change events at the given
/// times, starting from idle.
pub open spec fn deb_after_burst(delay: u64, times: Seq<u64>) -> Option<u64>
    decreases times.len(),
{
    if times.len() == 0 {
        None
    } else {
        deb_note_spec(
            deb_after_burst(delay, times.drop_last()),
            delay,
            times[times.len() - 1],
            FsEventKind::Write,
        )
    }
}

/// Debounce law: a burst of change events coalesces into exactly one
/// emission. After the burst the single pending deadline is the last
/// event's time plus the window; every poll before that deadline emits
/// nothing and changes nothing; the first poll at or past it emits and
/// clears the state; and polls of the idle state emit nothing, so no
/// second emission follows until a new event arrives.
pub proof fn lemma_burst_emits_once(delay: u64, times: Seq<u64>, early: u64, late: u64)
    requires
        times.len() >= 1,
        early < times[times.len() - 1] + delay,
        late >= times[times.len() - 1] + delay,
        times[times.len() - 1] + delay <= u64::MAX,
    ensures
        deb_after_burst(delay, times) == Some((times[times.len() - 1] + delay) as u64),
        deb_poll_spec(deb_after_burst(delay, times), early) == (deb_after_burst(delay, times), false),
        deb_poll_spec(deb_after_burst(delay, times), late) == (None::<u64>, true),
        deb_poll_spec(None, early) == (None::<u64>, false),
        deb_poll_spec(None, late) == (None::<u64>, false),
{
}

/// Coalesces bursts of change events into single refresh triggers.
pub struct Debouncer {
    /// The configured debounce window, in milliseconds.
    pub delay_ms: u64,
    /// The pending trigger deadline, if a change is waiting.
    pub deadline: Option<u64>,
}

impl Debouncer {
    /// An idle debouncer with the given window.
    pub fn new(delay_ms: u64) -> (d: Debouncer)
        ensures
            d.delay_ms == delay_ms,
            d.deadline is None,
    {
        Debouncer { delay_ms, deadline: None }
    }

    /// Note one raw notification at time `now_ms`: a change event opens
    /// or re-opens the window; anything else changes nothing.
    pub fn note_event(&mut self, now_ms: u64, k: FsEventKind)
        requires
            now_ms + old(self).delay_ms <= u64::MAX,
        ensures
            final(self).delay_ms == old(self).delay_ms,
            final(self).deadline == deb_note_spec(
                old(self).deadline,
                old(self).delay_ms,
                now_ms,
                k,
            ),
    {
        if is_change(k) {
            self.deadline = Some(now_ms + self.delay_ms);
        }
    }

    /// Poll at time `now_ms`: emits exactly when a pending window has
    /// elapsed, and then clears it.
    pub fn poll(&mut self, now_ms: u64) -> (emit: bool)
        ensures
            final(self).delay_ms == old(self).delay_ms,
            (final(self).deadline, emit) == deb_poll_spec(old(self).deadline, now_ms),
    {
        match self.deadline {
            Some(d) => {
                if now_ms >= d {
                    self.deadline = None;
                    true
                } else {
                    false
                }
            },
            None => false,
        }
    }
}

/// What the watch loop does after a refresh attempt.
#[derive(Clone, Copy, PartialEq, Eq, Structural, Debug)]
pub enum RefreshFollowUp {
    /// Keep consuming events; a failure, if any, is only reported.
    Proceed,
    /// Wait the backoff, reconnect the channel, then resume consuming.
    Resync,
}

/// The watcher proper: the debouncer plus the policy that keeps the
/// watch loop alive across peer restarts.
pub struct Watcher {
    pub deb: Debouncer,
}

impl Watcher {
    /// A watcher with the given debounce window.
    pub fn new(delay_ms: u64) -> (w: Watcher)
        ensures
            w.deb.delay_ms == delay_ms,
            w.deb.deadline is None,
    {
        Watcher { deb: Debouncer::new(delay_ms) }
    }

    /// Feed one raw notification. Returns `false` exactly for the fatal
    /// notification-source failure, which ends the watch; everything
    /// else keeps it running.
    pub fn on_fs_event(&mut self, now_ms: u64, k: FsEventKind) -> (keep_running: bool)
        requires
            now_ms + old(self).deb.delay_ms <= u64::MAX,
        ensures
            final(self).deb.delay_ms == old(self).deb.delay_ms,
            final(self).deb.deadline == deb_note_spec(
                old(self).deb.deadline,
                old(self).deb.delay_ms,
                now_ms,
                k,
            ),
            keep_running <==> !(k is Error),
    {
        self.deb.note_event(now_ms, k);
        match k {
            FsEventKind::Error => false,
            _ => true,
        }
    }

    /// Poll the debounce window; `true` means issue one
    /// `BackgroundRefresh` through the channel now.
    pub fn poll_refresh(&mut self, now_ms: u64) -> (refresh: bool)
        ensures
            final(self).deb.delay_ms == old(self).deb.delay_ms,
            (final(self).deb.deadline, refresh) == deb_poll_spec(old(self).deb.deadline, now_ms),
    {
        self.deb.poll(now_ms)
    }

    /// Decide what follows a refresh attempt: an ambiguous outcome or a
    /// missing connection means the peer likely restarted — expected for
    /// a refresh — so the channel is re-synchronized; any other outcome,
    /// success or failure, lets consumption proceed directly.
    pub fn after_refresh(res: &Result<(), ChannelError>) -> (f: RefreshFollowUp)
        ensures
            f is Resync <==> (res matches Err(ChannelError::ProbablyRestarted) || res matches Err(
                ChannelError::NotConnected,
            )),
    {
        match res {
            Err(ChannelError::ProbablyRestarted) => RefreshFollowUp::Resync,
            Err(ChannelError::NotConnected) => RefreshFollowUp::Resync,
            _ => RefreshFollowUp::Proceed,
        }
    }
}

} // verus!
