use vstd::prelude::*;

use crate::event::KeyEvent;
use crate::switch::{sent_events, transition, Action, SessionState, SwitchConfig};
use crate::wire::{encodes, try_encode, EncodeError};

verus! {

/// One event read from an input device: a key edge, or anything else
/// (synchronisation, relative or absolute axes), which is never relayed.
#[derive(Clone, Copy, Debug, PartialEq, Eq, Structural)]
pub enum InputEvent {
    Key(KeyEvent),
    Other,
}

/// What the device loop must do after one event: send each datagram in
/// order (an entry that could not be encoded is reported instead), then
/// take or release exclusive capture of the device.
pub struct Outcome {
    pub datagrams: Vec<Result<[u8; 2], EncodeError>>,
    pub capture: Option<bool>,
}

/// `r` carries out `a`: one datagram per event that `a` sends, in order,
/// and the capture change that `a` asks for.
pub open spec fn carries(r: Outcome, a: Action) -> bool {
    &&& r.datagrams@.len() == sent_events(a).len()
    &&& forall|i: int| 0 <= i < r.datagrams@.len() ==> encodes(#[trigger] r.datagrams@[i], sent_events(a)[i])
    &&& r.capture == a.toggle_capture
}

/// The decisions of one device's relay loop: its switch configuration and
/// its switch state, which no other device shares.
pub struct DeviceSession {
    pub config: SwitchConfig,
    pub state: SessionState,
}

impl DeviceSession {
    pub open spec fn wf(&self) -> bool {
        self.state.wf()
    }

    /// A session in the state that `config` starts in.
    pub fn new(config: SwitchConfig) -> (r: DeviceSession)
        ensures
            r.wf(),
            r.config == config,
            r.state == crate::switch::initial_state(config),
    {
        let state = SessionState::new(&config);
        DeviceSession { config, state }
    }

    /// Turns an action into the datagrams to send and the capture change.
    pub fn outcome_of(a: &Action) -> (r: Outcome)
        ensures
            carries(r, *a),
    {
        let mut datagrams: Vec<Result<[u8; 2], EncodeError>> = Vec::new();
        if let Some(p) = a.forward_prefix {
            datagrams.push(try_encode(p));
        }
        if let Some(f) = a.forward {
            datagrams.push(try_encode(f));
        }
        Outcome { datagrams, capture: a.toggle_capture }
    }

    /// Handles one event read from the device.
    pub fn on_event(&mut self, ev: InputEvent) -> (r: Outcome)
        requires
            old(self).wf(),
        ensures
            final(self).wf(),
            final(self).config == old(self).config,
            match ev {
                InputEvent::Key(k) => {
                    let (s, a) = transition(old(self).state, old(self).config, k);
                    final(self).state == s && carries(r, a)
                },
                InputEvent::Other => {
                    final(self).state == old(self).state && r.datagrams@.len() == 0
                        && r.capture is None
                },
            },
    {
        match ev {
            InputEvent::Key(k) => {
                let a = self.state.step(&self.config, k);
                DeviceSession::outcome_of(&a)
            },
            InputEvent::Other => Outcome { datagrams: Vec::new(), capture: None },
        }
    }
}

} // verus!
