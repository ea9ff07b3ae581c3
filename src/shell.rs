//! The main window as the event loop sees it: the window lock and the content
//! area, whose callbacks belong to the screen that registered them.
use vstd::prelude::*;
use crate::message::{Msg, is_screen};

verus! {

/// A callback registration in the content area: the screen generation that made
/// it, and its place among that screen's registrations.
#[derive(Clone, Copy, Debug, PartialEq, Eq, Structural)]
pub struct Handle {
    pub epoch: u64,
    pub index: usize,
}

/// What the host toolkit does for one message taken off the bus.
#[derive(Clone, Copy, Debug, PartialEq, Eq, Structural)]
pub enum LoopAction {
    /// Flush pending drawing.
    Flush,
    /// Enable (`true`) or disable (`false`) every top-level child of the window.
    SetActive(bool),
    /// The content area was emptied; build the screen of this message into it.
    Build(Msg),
    /// The content area was emptied and nothing is drawn into it.
    Clear,
    /// The content area was emptied; leave the event loop.
    Quit,
}

/// Abstract state of the window: lock, loop flag, screen generation, whether
/// the generations ran out, the screen shown and the messages that its
/// callbacks emit.
pub struct ShellModel {
    pub active: bool,
    pub running: bool,
    pub epoch: int,
    pub spent: bool,
    pub screen: Option<Msg>,
    pub bindings: Seq<Msg>,
}

/// Whether taking `m` off the bus tears the content area down.
pub open spec fn rebuilds(m: Msg) -> bool {
    !(m is WindUpdate || m is WindActivate || m is WindDeactivate)
}

/// The window after the event loop handles `m`.
pub open spec fn step_spec(s: ShellModel, m: Msg) -> ShellModel {
    match m {
        Msg::WindUpdate => s,
        Msg::WindActivate => ShellModel { active: true, ..s },
        Msg::WindDeactivate => ShellModel { active: false, ..s },
        _ => ShellModel {
            running: s.running && !(m is Quit),
            epoch: if s.epoch < u64::MAX { s.epoch + 1 } else { s.epoch },
            spent: s.spent || s.epoch >= u64::MAX,
            screen: if is_screen(m) { Some(m) } else { None },
            bindings: Seq::empty(),
            ..s
        },
    }
}

/// The window after the event loop handles each of `ms` in order.
pub open spec fn run_spec(s: ShellModel, ms: Seq<Msg>) -> ShellModel
    decreases ms.len(),
{
    if ms.len() == 0 {
        s
    } else {
        run_spec(step_spec(s, ms[0]), ms.drop_first())
    }
}

/// What firing the callback `h` emits in window `s`: nothing while the window
/// is locked, nor for a registration of an earlier screen, nor once the screen
/// generations ran out.
pub open spec fn fire_spec(s: ShellModel, h: Handle) -> Option<Msg> {
    if s.active && !s.spent && h.epoch as int == s.epoch && h.index < s.bindings.len() {
        Some(s.bindings[h.index as int])
    } else {
        None
    }
}

/// The action that the host performs for `m`.
pub open spec fn action_spec(m: Msg) -> LoopAction {
    match m {
        Msg::WindUpdate => LoopAction::Flush,
        Msg::WindActivate => LoopAction::SetActive(true),
        Msg::WindDeactivate => LoopAction::SetActive(false),
        Msg::Quit => LoopAction::Quit,
        _ => if is_screen(m) { LoopAction::Build(m) } else { LoopAction::Clear },
    }
}

pub struct Shell {
    pub active: bool,
    pub running: bool,
    pub epoch: u64,
    /// Set once `epoch` could not grow any more: from then on no callback
    /// fires, so that none of an earlier screen can.
    pub spent: bool,
    pub screen: Option<Msg>,
    pub bindings: Vec<Msg>,
}

impl Shell {
    pub open spec fn model(&self) -> ShellModel {
        ShellModel {
            active: self.active,
            running: self.running,
            epoch: self.epoch as int,
            spent: self.spent,
            screen: self.screen,
            bindings: self.bindings@,
        }
    }

    /// An active, running window with an empty content area.
    pub fn new() -> (r: Shell)
        ensures
            r.model() == (ShellModel {
                active: true,
                running: true,
                epoch: 0,
                spent: false,
                screen: None,
                bindings: Seq::empty(),
            }),
    {
        Shell {
            active: true,
            running: true,
            epoch: 0,
            spent: false,
            screen: None,
            bindings: Vec::new(),
        }
    }

    /// Handles one message taken off the bus.
    pub fn step(&mut self, m: Msg) -> (a: LoopAction)
        ensures
            final(self).model() == step_spec(old(self).model(), m),
            a == action_spec(m),
    {
        match m {
            Msg::WindUpdate => LoopAction::Flush,
            Msg::WindActivate => {
                self.active = true;
                LoopAction::SetActive(true)
            },
            Msg::WindDeactivate => {
                self.active = false;
                LoopAction::SetActive(false)
            },
            _ => {
                self.bindings = Vec::new();
                if self.epoch < u64::MAX {
                    self.epoch = self.epoch + 1;
                } else {
                    self.spent = true;
                }
                let shown = crate::message::title(m).is_some();
                self.screen = if shown { Some(m) } else { None };
                if let Msg::Quit = m {
                    self.running = false;
                    LoopAction::Quit
                } else if shown {
                    LoopAction::Build(m)
                } else {
                    LoopAction::Clear
                }
            },
        }
    }

    /// Registers a callback of the screen being built, which emits `m`.
    pub fn bind(&mut self, m: Msg) -> (h: Handle)
        requires
            old(self).bindings.len() < usize::MAX,
        ensures
            final(self).model() == (ShellModel {
                bindings: old(self).model().bindings.push(m),
                ..old(self).model()
            }),
            h == (Handle { epoch: old(self).epoch, index: old(self).bindings.len() }),
    {
        let h = Handle { epoch: self.epoch, index: self.bindings.len() };
        self.bindings.push(m);
        h
    }

    /// The message that firing callback `h` emits, if any.
    pub fn fire(&self, h: Handle) -> (r: Option<Msg>)
        ensures
            r == fire_spec(self.model(), h),
    {
        if self.active && !self.spent && h.epoch == self.epoch && h.index < self.bindings.len() {
            Some(self.bindings[h.index])
        } else {
            None
        }
    }
}

/// Handling messages never lowers the screen generation nor makes it usable
/// again once spent, and each message that tears the content area down raises
/// it or spends it.
pub proof fn lemma_run_epoch(s: ShellModel, ms: Seq<Msg>)
    ensures
        run_spec(s, ms).epoch >= s.epoch,
        s.spent ==> run_spec(s, ms).spent,
        (exists|i: int| 0 <= i < ms.len() && rebuilds(#[trigger] ms[i])) ==> (run_spec(s, ms).epoch
            > s.epoch || run_spec(s, ms).spent),
    decreases ms.len(),
{
    if ms.len() > 0 {
        let t = step_spec(s, ms[0]);
        lemma_run_epoch(t, ms.drop_first());
        if exists|i: int| 0 <= i < ms.len() && rebuilds(#[trigger] ms[i]) {
            let i = choose|i: int| 0 <= i < ms.len() && rebuilds(#[trigger] ms[i]);
            if i > 0 {
                assert(rebuilds(ms.drop_first()[i - 1]));
            }
        }
    }
}

/// Once any sequence of messages that holds a screen transition has been
/// handled, no callback registered before it fires again: the content area was
/// torn down and rebuilt.
pub proof fn lemma_transition_silences_old_callbacks(s: ShellModel, ms: Seq<Msg>, h: Handle)
    requires
        h.epoch as int <= s.epoch,
        exists|i: int| 0 <= i < ms.len() && rebuilds(#[trigger] ms[i]),
    ensures
        fire_spec(run_spec(s, ms), h) is None,
{
    lemma_run_epoch(s, ms);
}

/// Right after a screen transition the content area holds no callback at all.
pub proof fn lemma_transition_empties_content(s: ShellModel, m: Msg)
    requires
        rebuilds(m),
    ensures
        step_spec(s, m).bindings.len() == 0,
        s.epoch < u64::MAX ==> step_spec(s, m).epoch == s.epoch + 1,
        s.epoch >= u64::MAX ==> step_spec(s, m).spent,
        is_screen(m) ==> step_spec(s, m).screen == Some(m),
{
}

/// Only "activate" unlocks the window: while it is locked, no run of other
/// messages (heartbeats, screen transitions, "deactivate") unlocks it.
pub proof fn lemma_only_activate_unlocks(s: ShellModel, ms: Seq<Msg>)
    requires
        !s.active,
        forall|i: int| 0 <= i < ms.len() ==> !(#[trigger] ms[i] is WindActivate),
    ensures
        !run_spec(s, ms).active,
    decreases ms.len(),
{
    if ms.len() > 0 {
        assert(!(ms[0] is WindActivate));
        assert forall|i: int| 0 <= i < ms.drop_first().len() implies !(
        #[trigger] ms.drop_first()[i] is WindActivate) by {
            assert(ms.drop_first()[i] == ms[i + 1]);
        }
        lemma_only_activate_unlocks(step_spec(s, ms[0]), ms.drop_first());
    }
}

} // verus!
