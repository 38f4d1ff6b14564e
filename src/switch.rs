use vstd::prelude::*;

use crate::event::{KeyCode, KeyEvent, PRESSED, RELEASED};

verus! {

/// How one device's switch behaves: which key toggles relaying, and whether
/// relaying is on when the session starts.
#[derive(Clone, Copy, Debug, PartialEq, Eq, Structural)]
pub struct SwitchConfig {
    pub switch_key: KeyCode,
    pub start_active: bool,
}

/// The mutable state of one device's switch.
///
/// `active`: other keys are forwarded and the device is held exclusively.
/// `interrupted`: another key was seen since the switch key last went down,
/// so the switch key is being used together with it rather than tapped.
/// `hanging_switch`: a press of the switch key was held back and must still
/// be forwarded if another key follows before its release.
#[derive(Clone, Copy, Debug, PartialEq, Eq, Structural)]
pub struct SessionState {
    pub active: bool,
    pub interrupted: bool,
    pub hanging_switch: bool,
}

/// What one key event asks of the session: a held-back switch press to send
/// first, an event to send, and a change of exclusive capture.
#[derive(Clone, Copy, Debug, PartialEq, Eq, Structural)]
pub struct Action {
    pub forward_prefix: Option<KeyEvent>,
    pub forward: Option<KeyEvent>,
    pub toggle_capture: Option<bool>,
}

/// The action that does nothing.
pub open spec fn no_action() -> Action {
    Action { forward_prefix: None, forward: None, toggle_capture: None }
}

/// The state a session starts in.
pub open spec fn initial_state(cfg: SwitchConfig) -> SessionState {
    SessionState { active: cfg.start_active, interrupted: false, hanging_switch: false }
}

/// The events an action sends, in the order they go out.
pub open spec fn sent_events(a: Action) -> Seq<KeyEvent> {
    let prefix = match a.forward_prefix {
        Some(e) => seq![e],
        None => Seq::empty(),
    };
    match a.forward {
        Some(e) => prefix.push(e),
        None => prefix,
    }
}

/// The next state and the action for one key event.
pub open spec fn transition(s: SessionState, cfg: SwitchConfig, ev: KeyEvent) -> (SessionState, Action) {
    if ev.code == cfg.switch_key {
        if ev.value == PRESSED {
            if s.active {
                (SessionState { interrupted: false, hanging_switch: true, ..s }, no_action())
            } else {
                (s, no_action())
            }
        } else if ev.value == RELEASED {
            if s.interrupted && s.active {
                (
                    SessionState { hanging_switch: false, ..s },
                    Action { forward: Some(ev), ..no_action() },
                )
            } else {
                (
                    SessionState { active: !s.active, hanging_switch: false, ..s },
                    Action { toggle_capture: Some(!s.active), ..no_action() },
                )
            }
        } else {
            (s, no_action())
        }
    } else if s.active {
        let prefix = if s.hanging_switch {
            Some(KeyEvent { code: cfg.switch_key, value: PRESSED })
        } else {
            None
        };
        (
            SessionState { interrupted: true, hanging_switch: false, ..s },
            Action { forward_prefix: prefix, forward: Some(ev), toggle_capture: None },
        )
    } else {
        (s, no_action())
    }
}

/// The state after a run of key events.
pub open spec fn run(s: SessionState, cfg: SwitchConfig, evs: Seq<KeyEvent>) -> SessionState
    decreases evs.len(),
{
    if evs.len() == 0 {
        s
    } else {
        transition(run(s, cfg, evs.drop_last()), cfg, evs.last()).0
    }
}

impl Action {
    /// The action that does nothing.
    pub fn none() -> (r: Action)
        ensures
            r == no_action(),
    {
        Action { forward_prefix: None, forward: None, toggle_capture: None }
    }
}

impl SessionState {
    /// A switch key press is held back only while relaying is on.
    pub open spec fn wf(self) -> bool {
        self.hanging_switch ==> self.active
    }

    /// The state a session with `cfg` starts in.
    pub fn new(cfg: &SwitchConfig) -> (r: SessionState)
        ensures
            r == initial_state(*cfg),
            r.wf(),
    {
        SessionState { active: cfg.start_active, interrupted: false, hanging_switch: false }
    }

    /// Decides what to do with one key event and moves to the next state.
    pub fn step(&mut self, cfg: &SwitchConfig, ev: KeyEvent) -> (a: Action)
        requires
            old(self).wf(),
        ensures
            final(self).wf(),
            (*final(self), a) == transition(*old(self), *cfg, ev),
    {
        if ev.code == cfg.switch_key {
            if ev.value == PRESSED {
                if self.active {
                    self.interrupted = false;
                    self.hanging_switch = true;
                }
                Action::none()
            } else if ev.value == RELEASED {
                if self.interrupted && self.active {
                    self.hanging_switch = false;
                    Action { forward_prefix: None, forward: Some(ev), toggle_capture: None }
                } else {
                    self.active = !self.active;
                    self.hanging_switch = false;
                    Action { forward_prefix: None, forward: None, toggle_capture: Some(self.active) }
                }
            } else {
                Action::none()
            }
        } else if self.active {
            let prefix = if self.hanging_switch {
                Some(KeyEvent { code: cfg.switch_key, value: PRESSED })
            } else {
                None
            };
            self.interrupted = true;
            self.hanging_switch = false;
            Action { forward_prefix: prefix, forward: Some(ev), toggle_capture: None }
        } else {
            Action::none()
        }
    }
}

/// While relaying is off, a key other than the switch key is dropped and
/// leaves the state as it was.
pub proof fn lemma_idle_drops_other_keys(s: SessionState, cfg: SwitchConfig, ev: KeyEvent)
    requires
        !s.active,
        ev.code != cfg.switch_key,
    ensures
        transition(s, cfg, ev) == (s, no_action()),
{
}

/// Two taps of the switch key, with no other key between them, bring
/// relaying back to where it was.
pub proof fn lemma_double_tap_restores(s: SessionState, cfg: SwitchConfig)
    requires
        s.wf(),
    ensures
        ({
            let press = KeyEvent { code: cfg.switch_key, value: PRESSED };
            let release = KeyEvent { code: cfg.switch_key, value: RELEASED };
            run(s, cfg, seq![press, release, press, release]).active == s.active
        }),
{
    let press = KeyEvent { code: cfg.switch_key, value: PRESSED };
    let release = KeyEvent { code: cfg.switch_key, value: RELEASED };
    let evs = seq![press, release, press, release];
    let s1 = transition(s, cfg, press).0;
    let s2 = transition(s1, cfg, release).0;
    let s3 = transition(s2, cfg, press).0;
    let s4 = transition(s3, cfg, release).0;
    assert(seq![press].drop_last() =~= Seq::<KeyEvent>::empty());
    assert(run(s, cfg, Seq::<KeyEvent>::empty()) == s);
    assert(seq![press].last() == press);
    assert(run(s, cfg, seq![press]) == s1);
    assert(seq![press, release].drop_last() =~= seq![press]);
    assert(seq![press, release].last() == release);
    assert(run(s, cfg, seq![press, release]) == s2);
    assert(seq![press, release, press].drop_last() =~= seq![press, release]);
    assert(seq![press, release, press].last() == press);
    assert(run(s, cfg, seq![press, release, press]) == s3);
    assert(evs.drop_last() =~= seq![press, release, press]);
    assert(evs.last() == release);
    assert(run(s, cfg, evs) == s4);
}

} // verus!
