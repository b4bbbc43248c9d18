use vstd::prelude::*;

verus! {

/// Development class of a star system, from Class I (cosmopolitan) down to
/// Class IV (frontier).
#[derive(Debug, Clone, Copy, PartialEq, Eq, Structural)]
pub enum StarClass {
    I,
    II,
    III,
    IV,
}

/// The class that a (rounded) development score earns.
pub open spec fn class_for_score(score: int) -> StarClass {
    if score >= 15 {
        StarClass::I
    } else if score >= 10 {
        StarClass::II
    } else if score >= 5 {
        StarClass::III
    } else {
        StarClass::IV
    }
}

impl StarClass {
    pub open spec fn score_of(self) -> int {
        match self {
            StarClass::I => 15,
            StarClass::II => 10,
            StarClass::III => 5,
            StarClass::IV => 0,
        }
    }

    pub open spec fn label_text(self) -> Seq<char> {
        match self {
            StarClass::I => "Class I (Cosmopolitan)"@,
            StarClass::II => "Class II (Developed)"@,
            StarClass::III => "Class III (Underdeveloped)"@,
            StarClass::IV => "Class IV (Frontier)"@,
        }
    }

    /// Only Class I and Class II systems have a bank.
    pub open spec fn banks(self) -> bool {
        self == StarClass::I || self == StarClass::II
    }

    /// Class for a development score: 15 and up is Class I, 10 and up
    /// Class II, 5 and up Class III, anything lower Class IV.
    pub fn from_score(score: i16) -> (r: StarClass)
        ensures
            r == class_for_score(score as int),
    {
        if score >= 15 {
            StarClass::I
        } else if score >= 10 {
            StarClass::II
        } else if score >= 5 {
            StarClass::III
        } else {
            StarClass::IV
        }
    }

    /// The raw score that stands for the class (15, 10, 5 or 0).
    pub fn raw_score(self) -> (r: i16)
        ensures
            r as int == self.score_of(),
    {
        match self {
            StarClass::I => 15,
            StarClass::II => 10,
            StarClass::III => 5,
            StarClass::IV => 0,
        }
    }

    pub fn label(self) -> (r: &'static str)
        ensures
            r@ == self.label_text(),
    {
        match self {
            StarClass::I => "Class I (Cosmopolitan)",
            StarClass::II => "Class II (Developed)",
            StarClass::III => "Class III (Underdeveloped)",
            StarClass::IV => "Class IV (Frontier)",
        }
    }

    /// Whether a system of this class has a bank.
    pub fn has_bank(self) -> (r: bool)
        ensures
            r == self.banks(),
    {
        match self {
            StarClass::I | StarClass::II => true,
            _ => false,
        }
    }
}

/// A class's raw score maps back to the same class.
pub proof fn law_score_round_trip(c: StarClass)
    ensures
        class_for_score(c.score_of()) == c,
{
}

/// A higher score never earns a lower class.
pub proof fn law_class_monotone(a: int, b: int)
    requires
        a <= b,
    ensures
        class_for_score(a).score_of() <= class_for_score(b).score_of(),
        class_for_score(a).score_of() <= a || a < 0,
{
}

} // verus!
