use vstd::prelude::*;
use vstd::string::StrSliceExecFns;

verus! {

/// One physical garage door bay.
#[derive(Clone, Copy, Debug, PartialEq, Eq, Structural, Hash)]
pub enum DoorId {
    Left,
    Middle,
    Right,
}

/// A door identifier that names none of the known doors.
#[derive(Clone, Copy, Debug, PartialEq, Eq, Structural)]
pub enum DoorError {
    UnknownDoorId,
}

/// The identifier of a door as it appears in requests and reports.
pub open spec fn door_name(d: DoorId) -> Seq<char> {
    match d {
        DoorId::Left => seq!['l', 'e', 'f', 't'],
        DoorId::Middle => seq!['m', 'i', 'd', 'd', 'l', 'e'],
        DoorId::Right => seq!['r', 'i', 'g', 'h', 't'],
    }
}

/// The door whose identifier is `s`, if any.
pub open spec fn door_named(s: Seq<char>) -> Option<DoorId> {
    if s == door_name(DoorId::Left) {
        Some(DoorId::Left)
    } else if s == door_name(DoorId::Middle) {
        Some(DoorId::Middle)
    } else if s == door_name(DoorId::Right) {
        Some(DoorId::Right)
    } else {
        None
    }
}

/// Character-wise equality of two strings.
pub fn str_equal(a: &str, b: &str) -> (r: bool)
    ensures
        r == (a@ == b@),
{
    let n = a.unicode_len();
    if n != b.unicode_len() {
        return false;
    }
    let mut i: usize = 0;
    while i < n
        invariant
            n == a@.len(),
            n == b@.len(),
            i <= n,
            forall|k: int| 0 <= k < i ==> a@[k] == b@[k],
        decreases n - i,
    {
        if a.get_char(i) != b.get_char(i) {
            return false;
        }
        i = i + 1;
    }
    assert(a@ =~= b@);
    true
}

impl DoorId {
    /// The identifier of this door.
    pub fn name(&self) -> (r: &'static str)
        ensures
            r@ == door_name(*self),
    {
        proof {
            reveal_strlit("left");
            reveal_strlit("middle");
            reveal_strlit("right");
        }
        match self {
            DoorId::Left => "left",
            DoorId::Middle => "middle",
            DoorId::Right => "right",
        }
    }

    /// Reads a door identifier; anything outside the known set is refused.
    pub fn parse(s: &str) -> (r: Result<DoorId, DoorError>)
        ensures
            r == (match door_named(s@) {
                Some(d) => Ok::<DoorId, DoorError>(d),
                None => Err(DoorError::UnknownDoorId),
            }),
    {
        if str_equal(s, DoorId::Left.name()) {
            Ok(DoorId::Left)
        } else if str_equal(s, DoorId::Middle.name()) {
            Ok(DoorId::Middle)
        } else if str_equal(s, DoorId::Right.name()) {
            Ok(DoorId::Right)
        } else {
            Err(DoorError::UnknownDoorId)
        }
    }
}

} // verus!
