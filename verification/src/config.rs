//! Device-level settings of a macropad.

use crate::text::str_eq;
use vstd::prelude::*;

verus! {

/// How the pad lies on the desk.
#[derive(Clone, Copy, Debug, PartialEq, Eq, Structural)]
pub enum Orientation {
    Normal,
    UpsideDown,
    Clockwise,
    CounterClockwise,
}

impl Orientation {
    /// The canonical name of this orientation.
    pub open spec fn spec_name(self) -> Seq<char> {
        match self {
            Orientation::Normal => "Normal"@,
            Orientation::UpsideDown => "UpsideDown"@,
            Orientation::Clockwise => "Clockwise"@,
            Orientation::CounterClockwise => "CounterClockwise"@,
        }
    }

    /// The orientation whose canonical name is exactly `name`, if there is one.
    pub open spec fn spec_from_name(name: Seq<char>) -> Option<Orientation> {
        if name == Orientation::Normal.spec_name() {
            Some(Orientation::Normal)
        } else if name == Orientation::UpsideDown.spec_name() {
            Some(Orientation::UpsideDown)
        } else if name == Orientation::Clockwise.spec_name() {
            Some(Orientation::Clockwise)
        } else if name == Orientation::CounterClockwise.spec_name() {
            Some(Orientation::CounterClockwise)
        } else {
            None
        }
    }

    /// The canonical name of this orientation.
    pub fn name(self) -> (r: &'static str)
        ensures
            r@ == self.spec_name(),
    {
        match self {
            Orientation::Normal => "Normal",
            Orientation::UpsideDown => "UpsideDown",
            Orientation::Clockwise => "Clockwise",
            Orientation::CounterClockwise => "CounterClockwise",
        }
    }

    /// Looks up an orientation by its canonical name. The match is exact,
    /// case included.
    pub fn from_name(name: &str) -> (r: Option<Orientation>)
        ensures
            r == Self::spec_from_name(name@),
    {
        if str_eq(name, "Normal") {
            return Some(Orientation::Normal);
        }
        if str_eq(name, "UpsideDown") {
            return Some(Orientation::UpsideDown);
        }
        if str_eq(name, "Clockwise") {
            return Some(Orientation::Clockwise);
        }
        if str_eq(name, "CounterClockwise") {
            return Some(Orientation::CounterClockwise);
        }
        None
    }

    /// What a lookup finds has the name that was looked up.
    pub proof fn lemma_name_of_from_name(name: Seq<char>)
        ensures
            Self::spec_from_name(name) matches Some(found) ==> found.spec_name() == name,
    {
    }

    /// Canonical names are pairwise distinct: looking up the name of an
    /// orientation finds that orientation.
    pub proof fn lemma_from_name_of_name(self)
        ensures
            Self::spec_from_name(self.spec_name()) == Some(self),
    {
        reveal_strlit("Normal");
        assert("Normal"@.len() == 6 && "Normal"@[0] == 'N' && "Normal"@[1] == 'o'
            && "Normal"@[2] == 'r' && "Normal"@[3] == 'm' && "Normal"@[4] == 'a'
            && "Normal"@[5] == 'l');
        reveal_strlit("UpsideDown");
        assert("UpsideDown"@.len() == 10 && "UpsideDown"@[0] == 'U' && "UpsideDown"@[1] == 'p'
            && "UpsideDown"@[2] == 's' && "UpsideDown"@[3] == 'i' && "UpsideDown"@[4] == 'd'
            && "UpsideDown"@[5] == 'e' && "UpsideDown"@[6] == 'D' && "UpsideDown"@[7] == 'o'
            && "UpsideDown"@[8] == 'w' && "UpsideDown"@[9] == 'n');
        reveal_strlit("Clockwise");
        assert("Clockwise"@.len() == 9 && "Clockwise"@[0] == 'C' && "Clockwise"@[1] == 'l'
            && "Clockwise"@[2] == 'o' && "Clockwise"@[3] == 'c' && "Clockwise"@[4] == 'k'
            && "Clockwise"@[5] == 'w' && "Clockwise"@[6] == 'i' && "Clockwise"@[7] == 's'
            && "Clockwise"@[8] == 'e');
        reveal_strlit("CounterClockwise");
        assert("CounterClockwise"@.len() == 16 && "CounterClockwise"@[0] == 'C'
            && "CounterClockwise"@[1] == 'o' && "CounterClockwise"@[2] == 'u'
            && "CounterClockwise"@[3] == 'n' && "CounterClockwise"@[4] == 't'
            && "CounterClockwise"@[5] == 'e' && "CounterClockwise"@[6] == 'r'
            && "CounterClockwise"@[7] == 'C' && "CounterClockwise"@[8] == 'l'
            && "CounterClockwise"@[9] == 'o' && "CounterClockwise"@[10] == 'c'
            && "CounterClockwise"@[11] == 'k' && "CounterClockwise"@[12] == 'w'
            && "CounterClockwise"@[13] == 'i' && "CounterClockwise"@[14] == 's'
            && "CounterClockwise"@[15] == 'e');
    }
}
} // verus!
