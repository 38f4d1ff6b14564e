use vstd::prelude::*;

use crate::event::KeyCode;

verus! {

/// Number of the key named `A`.
pub const KEY_A: u16 = 30;

/// Number of the right Alt key.
pub const KEY_RIGHTALT: u16 = 100;

/// Number of the Compose key.
pub const KEY_COMPOSE: u16 = 127;

/// The key that a name given for the switch key stands for, if any.
pub open spec fn key_named(name: Seq<char>) -> Option<u16> {
    if name == "A"@ {
        Some(KEY_A)
    } else if name == "KEY_COMPOSE"@ {
        Some(KEY_COMPOSE)
    } else if name == "KEY_RIGHTALT"@ {
        Some(KEY_RIGHTALT)
    } else {
        None
    }
}

/// A switch key read from its name.
#[derive(Clone, Copy, Debug, PartialEq, Eq, Structural)]
pub struct KeyWrapped {
    pub key: KeyCode,
}

/// Whether two strings hold the same characters.
fn same_text(a: &str, b: &str) -> (r: bool)
    ensures
        r == (a@ == b@),
{
    let n = a.unicode_len();
    if n != b.unicode_len() {
        return false;
    }
    let mut i: usize = 0;
    while i < n
        invariant
            n == a@.len(),
            n == b@.len(),
            i <= n,
            forall|j: int| 0 <= j < i ==> a@[j] == b@[j],
        decreases n - i,
    {
        if a.get_char(i) != b.get_char(i) {
            return false;
        }
        i = i + 1;
    }
    assert(a@ =~= b@);
    true
}

impl KeyWrapped {
    /// Reads a switch key from its name; an unknown name gives a message
    /// that quotes it.
    pub fn parse(s: &str) -> (r: Result<KeyWrapped, String>)
        ensures
            match key_named(s@) {
                Some(c) => r == Ok::<KeyWrapped, String>(KeyWrapped { key: KeyCode { code: c } }),
                None => r matches Err(m) && m@ == "Unrecognised key: "@ + s@,
            },
    {
        let code = if same_text(s, "A") {
            Some(KEY_A)
        } else if same_text(s, "KEY_COMPOSE") {
            Some(KEY_COMPOSE)
        } else if same_text(s, "KEY_RIGHTALT") {
            Some(KEY_RIGHTALT)
        } else {
            None
        };
        match code {
            Some(c) => Ok(KeyWrapped { key: KeyCode { code: c } }),
            None => Err(String::from_str("Unrecognised key: ").concat(s)),
        }
    }
}

impl std::str::FromStr for KeyWrapped {
    type Err = String;

    /// Reads a switch key from its name, as `KeyWrapped::parse` does.
    fn from_str(s: &str) -> (r: Result<KeyWrapped, String>)
        ensures
            match key_named(s@) {
                Some(c) => r == Ok::<KeyWrapped, String>(KeyWrapped { key: KeyCode { code: c } }),
                None => r matches Err(m) && m@ == "Unrecognised key: "@ + s@,
            },
    {
        KeyWrapped::parse(s)
    }
}

/// Every key that a name stands for has a number that fits in one byte, so
/// a switch key read from its name can always be put on the wire.
pub proof fn lemma_named_keys_fit_a_byte(name: Seq<char>)
    ensures
        key_named(name) matches Some(c) ==> c < 256,
{
}

} // verus!
