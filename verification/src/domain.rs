//! The two closed classifications of a radar entry: the maturity ring and
//! the topical quadrant.  Each has a stored lower-case form (`as_str`), a
//! display form (`label`), a picker index, and a parser for the stored form.

use vstd::prelude::*;

use crate::strutil::{lower_of, lowercase, str_eq, trim_of, trimmed};

verus! {

#[derive(Debug, Clone, Copy, PartialEq, Eq, Structural)]
pub enum Quadrant {
    Platforms,
    Languages,
    Tools,
    Techniques,
}

/// The stored (lower-case) form of a quadrant.
pub open spec fn quadrant_str(q: Quadrant) -> Seq<char> {
    match q {
        Quadrant::Platforms => "platforms"@,
        Quadrant::Languages => "languages"@,
        Quadrant::Tools => "tools"@,
        Quadrant::Techniques => "techniques"@,
    }
}

/// The display form of a quadrant.
pub open spec fn quadrant_label(q: Quadrant) -> Seq<char> {
    match q {
        Quadrant::Platforms => "Platforms"@,
        Quadrant::Languages => "Languages"@,
        Quadrant::Tools => "Tools"@,
        Quadrant::Techniques => "Techniques"@,
    }
}

/// The picker position of a quadrant.
pub open spec fn quadrant_index(q: Quadrant) -> int {
    match q {
        Quadrant::Platforms => 0,
        Quadrant::Languages => 1,
        Quadrant::Tools => 2,
        Quadrant::Techniques => 3,
    }
}

/// The quadrant at a picker position, if the position is in range.
pub open spec fn quadrant_of_index(i: int) -> Option<Quadrant> {
    if i == 0 {
        Some(Quadrant::Platforms)
    } else if i == 1 {
        Some(Quadrant::Languages)
    } else if i == 2 {
        Some(Quadrant::Tools)
    } else if i == 3 {
        Some(Quadrant::Techniques)
    } else {
        None
    }
}

/// The quadrant whose stored form is `s`, if any.
pub open spec fn quadrant_of_str(s: Seq<char>) -> Option<Quadrant> {
    if s == "platforms"@ {
        Some(Quadrant::Platforms)
    } else if s == "languages"@ {
        Some(Quadrant::Languages)
    } else if s == "tools"@ {
        Some(Quadrant::Tools)
    } else if s == "techniques"@ {
        Some(Quadrant::Techniques)
    } else {
        None
    }
}

impl Quadrant {
    pub fn as_str(self) -> (r: &'static str)
        ensures
            r@ == quadrant_str(self),
    {
        match self {
            Self::Platforms => "platforms",
            Self::Languages => "languages",
            Self::Tools => "tools",
            Self::Techniques => "techniques",
        }
    }

    pub fn from_index(index: usize) -> (r: Option<Self>)
        ensures
            r == quadrant_of_index(index as int),
    {
        match index {
            0 => Some(Self::Platforms),
            1 => Some(Self::Languages),
            2 => Some(Self::Tools),
            3 => Some(Self::Techniques),
            _ => None,
        }
    }

    /// Parses the stored form, ignoring case and surrounding whitespace.
    pub fn parse(value: &str) -> (r: Option<Self>)
        ensures
            r == quadrant_of_str(lower_of(trim_of(value@))),
    {
        let folded = lowercase(trimmed(value).as_str());
        Self::parse_folded(folded.as_str())
    }

    /// Parses the already trimmed and lower-cased stored form.
    pub fn parse_folded(value: &str) -> (r: Option<Self>)
        ensures
            r == quadrant_of_str(value@),
    {
        if str_eq(value, "platforms") {
            Some(Self::Platforms)
        } else if str_eq(value, "languages") {
            Some(Self::Languages)
        } else if str_eq(value, "tools") {
            Some(Self::Tools)
        } else if str_eq(value, "techniques") {
            Some(Self::Techniques)
        } else {
            None
        }
    }

    pub fn label(self) -> (r: &'static str)
        ensures
            r@ == quadrant_label(self),
    {
        match self {
            Self::Platforms => "Platforms",
            Self::Languages => "Languages",
            Self::Tools => "Tools",
            Self::Techniques => "Techniques",
        }
    }
}

#[derive(Debug, Clone, Copy, PartialEq, Eq, Structural)]
pub enum Ring {
    Hold,
    Assess,
    Trial,
    Adopt,
}

/// The stored (lower-case) form of a ring.
pub open spec fn ring_str(r: Ring) -> Seq<char> {
    match r {
        Ring::Hold => "hold"@,
        Ring::Assess => "assess"@,
        Ring::Trial => "trial"@,
        Ring::Adopt => "adopt"@,
    }
}

/// The display form of a ring.
pub open spec fn ring_label(r: Ring) -> Seq<char> {
    match r {
        Ring::Hold => "Hold"@,
        Ring::Assess => "Assess"@,
        Ring::Trial => "Trial"@,
        Ring::Adopt => "Adopt"@,
    }
}

/// The picker position of a ring.
pub open spec fn ring_index(r: Ring) -> int {
    match r {
        Ring::Hold => 0,
        Ring::Assess => 1,
        Ring::Trial => 2,
        Ring::Adopt => 3,
    }
}

/// The ring at a picker position, if the position is in range.
pub open spec fn ring_of_index(i: int) -> Option<Ring> {
    if i == 0 {
        Some(Ring::Hold)
    } else if i == 1 {
        Some(Ring::Assess)
    } else if i == 2 {
        Some(Ring::Trial)
    } else if i == 3 {
        Some(Ring::Adopt)
    } else {
        None
    }
}

/// The ring whose stored form is `s`, if any.
pub open spec fn ring_of_str(s: Seq<char>) -> Option<Ring> {
    if s == "hold"@ {
        Some(Ring::Hold)
    } else if s == "assess"@ {
        Some(Ring::Assess)
    } else if s == "trial"@ {
        Some(Ring::Trial)
    } else if s == "adopt"@ {
        Some(Ring::Adopt)
    } else {
        None
    }
}

impl Ring {
    pub fn as_str(self) -> (r: &'static str)
        ensures
            r@ == ring_str(self),
    {
        match self {
            Self::Hold => "hold",
            Self::Assess => "assess",
            Self::Trial => "trial",
            Self::Adopt => "adopt",
        }
    }

    pub fn from_index(index: usize) -> (r: Option<Self>)
        ensures
            r == ring_of_index(index as int),
    {
        match index {
            0 => Some(Self::Hold),
            1 => Some(Self::Assess),
            2 => Some(Self::Trial),
            3 => Some(Self::Adopt),
            _ => None,
        }
    }

    /// Parses the stored form, ignoring case and surrounding whitespace.
    pub fn parse(value: &str) -> (r: Option<Self>)
        ensures
            r == ring_of_str(lower_of(trim_of(value@))),
    {
        let folded = lowercase(trimmed(value).as_str());
        Self::parse_folded(folded.as_str())
    }

    /// Parses the already trimmed and lower-cased stored form.
    pub fn parse_folded(value: &str) -> (r: Option<Self>)
        ensures
            r == ring_of_str(value@),
    {
        if str_eq(value, "hold") {
            Some(Self::Hold)
        } else if str_eq(value, "assess") {
            Some(Self::Assess)
        } else if str_eq(value, "trial") {
            Some(Self::Trial)
        } else if str_eq(value, "adopt") {
            Some(Self::Adopt)
        } else {
            None
        }
    }

    pub fn label(self) -> (r: &'static str)
        ensures
            r@ == ring_label(self),
    {
        match self {
            Self::Hold => "Hold",
            Self::Assess => "Assess",
            Self::Trial => "Trial",
            Self::Adopt => "Adopt",
        }
    }
}

} // verus!
