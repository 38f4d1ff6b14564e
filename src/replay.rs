use vstd::prelude::*;

use crate::event::{KeyCode, KeyEvent, PRESSED};
use crate::session::{carries, Outcome};
use crate::switch::{initial_state, transition, SwitchConfig};
use crate::wire::{datagram_of, decode, decoded, DecodeError, KeySpace};

verus! {

/// One write to the virtual device: a key event, or the synchronisation
/// event that makes what came before it visible.
#[derive(Clone, Copy, Debug, PartialEq, Eq, Structural)]
pub enum Injection {
    Key(KeyEvent),
    Sync,
}

/// Why a received datagram was discarded.
#[derive(Clone, Copy, Debug, PartialEq, Eq, Structural)]
pub enum ReplayError {
    /// It did not hold exactly two bytes; the length it had.
    BadLength(usize),
    /// Its two bytes did not decode.
    Decode(DecodeError),
}

/// What the receiver injects for a datagram: the decoded key event followed
/// by exactly one synchronisation event, or why the datagram is discarded.
pub open spec fn replayed(keys: Set<u8>, d: Seq<u8>) -> Result<Seq<Injection>, ReplayError> {
    if d.len() != 2 {
        Err(ReplayError::BadLength(d.len() as usize))
    } else {
        match decoded(keys, d[0], d[1]) {
            Ok(e) => Ok(seq![Injection::Key(e), Injection::Sync]),
            Err(err) => Err(ReplayError::Decode(err)),
        }
    }
}

/// Decides what to inject for one received datagram.
pub fn replay(datagram: &[u8], keys: &KeySpace) -> (r: Result<Vec<Injection>, ReplayError>)
    requires
        keys.wf(),
    ensures
        match r {
            Ok(v) => replayed(keys@, datagram@) == Ok::<Seq<Injection>, ReplayError>(v@),
            Err(e) => replayed(keys@, datagram@) == Err::<Seq<Injection>, ReplayError>(e),
        },
{
    if datagram.len() != 2 {
        return Err(ReplayError::BadLength(datagram.len()));
    }
    let buf = [datagram[0], datagram[1]];
    match decode(buf, keys) {
        Ok(e) => {
            let v = vec![Injection::Key(e), Injection::Sync];
            assert(v@ =~= seq![Injection::Key(e), Injection::Sync]);
            Ok(v)
        },
        Err(err) => Err(ReplayError::Decode(err)),
    }
}

/// A sender that starts relaying and reads a press of any key other than
/// its switch key sends one datagram and changes no capture; a receiver
/// that knows the key injects that press and then exactly one
/// synchronisation event, and nothing else.
pub proof fn lemma_press_reaches_receiver(
    cfg: SwitchConfig,
    keys: Set<u8>,
    key: KeyCode,
    out: Outcome,
)
    requires
        cfg.start_active,
        key != cfg.switch_key,
        key.code < 256,
        keys.contains(key.code as u8),
        carries(out, transition(initial_state(cfg), cfg, KeyEvent { code: key, value: PRESSED }).1),
    ensures
        out.datagrams@.len() == 1,
        out.capture is None,
        out.datagrams@[0] matches Ok(b) && replayed(keys, b@) == Ok::<Seq<Injection>, ReplayError>(
            seq![Injection::Key(KeyEvent { code: key, value: PRESSED }), Injection::Sync],
        ),
{
    let ev = KeyEvent { code: key, value: PRESSED };
    crate::wire::lemma_decode_encode(keys, ev);
    assert(out.datagrams@.len() == 1);
    assert(crate::wire::encodes(out.datagrams@[0], ev));
    assert(datagram_of(ev).len() == 2);
}

} // verus!
