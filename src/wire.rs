use vstd::prelude::*;

use crate::event::{KeyCode, KeyEvent};

verus! {

/// The key numbers, each of one byte, that the receiving side's key
/// enumeration knows; a datagram naming another number is refused.
pub struct KeySpace {
    known: Vec<bool>,
}

impl View for KeySpace {
    type V = Set<u8>;

    closed spec fn view(&self) -> Set<u8> {
        Set::new(|c: u8| (c as int) < self.known@.len() && self.known@[c as int])
    }
}

impl KeySpace {
    pub closed spec fn wf(&self) -> bool {
        self.known@.len() == 256
    }

    /// A key space that knows no key yet.
    pub fn new() -> (r: KeySpace)
        ensures
            r.wf(),
            r@ == Set::<u8>::empty(),
    {
        let mut known: Vec<bool> = Vec::new();
        let mut i: usize = 0;
        while i < 256
            invariant
                i <= 256,
                known@.len() == i,
                forall|j: int| 0 <= j < i ==> !known@[j],
            decreases 256 - i,
        {
            known.push(false);
            i = i + 1;
        }
        let r = KeySpace { known };
        assert(r@ =~= Set::<u8>::empty());
        r
    }

    /// Adds the key numbered `code`.
    pub fn add(&mut self, code: u8)
        requires
            old(self).wf(),
        ensures
            final(self).wf(),
            final(self)@ == old(self)@.insert(code),
    {
        self.known.set(code as usize, true);
        assert(self@ =~= old(self)@.insert(code));
    }

    /// Whether the key numbered `code` is known.
    pub fn contains(&self, code: u8) -> (r: bool)
        requires
            self.wf(),
        ensures
            r == self@.contains(code),
    {
        self.known[code as usize]
    }
}

/// Why a key event could not be put on the wire.
#[derive(Clone, Copy, Debug, PartialEq, Eq, Structural)]
pub enum EncodeError {
    /// The key's number does not fit in the one byte the protocol gives it.
    CodeOutOfRange(KeyCode),
}

/// Why two bytes did not decode to a key event.
#[derive(Clone, Copy, Debug, PartialEq, Eq, Structural)]
pub enum DecodeError {
    /// The first byte names no key of the receiver's enumeration.
    UnknownKeyCode(u8),
}

/// The two bytes that carry `e`: the key's number, then the edge value cut
/// to its low eight bits.
pub open spec fn datagram_of(e: KeyEvent) -> Seq<u8> {
    seq![e.code.code as u8, e.value as u8]
}

/// What two bytes decode to.
pub open spec fn decoded(keys: Set<u8>, b0: u8, b1: u8) -> Result<KeyEvent, DecodeError> {
    if keys.contains(b0) {
        Ok(KeyEvent { code: KeyCode { code: b0 as u16 }, value: b1 as i32 })
    } else {
        Err(DecodeError::UnknownKeyCode(b0))
    }
}

/// Whether `e` can be put on the wire as it stands.
pub open spec fn encodable(e: KeyEvent) -> bool {
    e.code.code < 256
}

/// `r` is what `e` goes on the wire as: its two bytes where its key number
/// fits in a byte, else the error that says it does not.
pub open spec fn encodes(r: Result<[u8; 2], EncodeError>, e: KeyEvent) -> bool {
    if encodable(e) {
        r matches Ok(b) && b@ == datagram_of(e)
    } else {
        r == Err::<[u8; 2], EncodeError>(EncodeError::CodeOutOfRange(e.code))
    }
}

/// Encodes a key event whose key number fits in one byte.
pub fn encode(e: KeyEvent) -> (r: [u8; 2])
    requires
        encodable(e),
    ensures
        r@ == datagram_of(e),
{
    let r = [e.code.code as u8, e.value as u8];
    assert(r@ =~= datagram_of(e));
    r
}

/// Encodes a key event, or says that its key number does not fit in a byte.
pub fn try_encode(e: KeyEvent) -> (r: Result<[u8; 2], EncodeError>)
    ensures
        encodes(r, e),
{
    if e.code.code < 256 {
        Ok(encode(e))
    } else {
        Err(EncodeError::CodeOutOfRange(e.code))
    }
}

/// Decodes two bytes into a key event; the edge value is taken as it is.
pub fn decode(buf: [u8; 2], keys: &KeySpace) -> (r: Result<KeyEvent, DecodeError>)
    requires
        keys.wf(),
    ensures
        r == decoded(keys@, buf@[0], buf@[1]),
        r is Err <==> !keys@.contains(buf@[0]),
        r is Err ==> r == Err::<KeyEvent, DecodeError>(DecodeError::UnknownKeyCode(buf@[0])),
{
    if keys.contains(buf[0]) {
        Ok(KeyEvent { code: KeyCode { code: buf[0] as u16 }, value: buf[1] as i32 })
    } else {
        Err(DecodeError::UnknownKeyCode(buf[0]))
    }
}

/// Decoding what encoding gave back yields the same event, for every key
/// the receiver knows whose number fits in a byte and every edge value that
/// fits in a byte.
pub proof fn lemma_decode_encode(keys: Set<u8>, e: KeyEvent)
    requires
        encodable(e),
        keys.contains(e.code.code as u8),
        0 <= e.value < 256,
    ensures
        decoded(keys, datagram_of(e)[0], datagram_of(e)[1]) == Ok::<KeyEvent, DecodeError>(e),
{
    let c = e.code.code;
    let v = e.value;
    assert(c < 256 ==> (c as u8) as u16 == c) by (bit_vector);
    assert(0 <= v < 256 ==> (v as u8) as i32 == v) by (bit_vector);
}

} // verus!
