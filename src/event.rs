use vstd::prelude::*;

verus! {

/// Edge value of a key that went up.
pub const RELEASED: i32 = 0;

/// Edge value of a key that went down.
pub const PRESSED: i32 = 1;

/// Edge value of a key held down long enough to auto-repeat.
pub const REPEATED: i32 = 2;

/// A key of the operating system's key-code enumeration, by its number.
#[derive(Clone, Copy, Debug, PartialEq, Eq, Structural)]
pub struct KeyCode {
    pub code: u16,
}

/// One edge of one key: which key, and its edge value (`RELEASED`,
/// `PRESSED`, `REPEATED`, or whatever the device or the wire carried).
#[derive(Clone, Copy, Debug, PartialEq, Eq, Structural)]
pub struct KeyEvent {
    pub code: KeyCode,
    pub value: i32,
}

impl KeyCode {
    pub fn new(code: u16) -> (r: KeyCode)
        ensures
            r.code == code,
    {
        KeyCode { code }
    }
}

impl KeyEvent {
    pub fn new(code: KeyCode, value: i32) -> (r: KeyEvent)
        ensures
            r.code == code,
            r.value == value,
    {
        KeyEvent { code, value }
    }
}

} // verus!
