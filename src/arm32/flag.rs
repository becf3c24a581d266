use vstd::prelude::*;

verus! {

/// The S flag: the instruction sets the status register.
#[derive(Clone, Copy, Debug, PartialEq, Eq, Hash, Structural)]
pub enum Sflag {
    Off,
    On,
}

/// The B flag: a memory instruction moves a single byte.
#[derive(Clone, Copy, Debug, PartialEq, Eq, Hash, Structural)]
pub enum Bflag {
    Off,
    On,
}

/// The T flag: a memory instruction uses translation.
#[derive(Clone, Copy, Debug, PartialEq, Eq, Hash, Structural)]
pub enum Tflag {
    Off,
    On,
}

impl Sflag {
    /// Whether the flag is on.
    pub fn is_on(self) -> (r: bool)
        ensures
            r == (self == Sflag::On),
    {
        match self {
            Sflag::On => true,
            Sflag::Off => false,
        }
    }

    /// Whether the flag is off.
    pub fn is_off(self) -> (r: bool)
        ensures
            r == (self == Sflag::Off),
    {
        match self {
            Sflag::On => false,
            Sflag::Off => true,
        }
    }

    /// The flag that is on exactly when `value` holds.
    pub fn from_bool(value: bool) -> (r: Sflag)
        ensures
            (r == Sflag::On) == value,
    {
        if value { Sflag::On } else { Sflag::Off }
    }

    /// The flag's suffix in assembly text: `S` when on, nothing when off.
    pub open spec fn spec_suffix(self) -> Seq<char> {
        match self {
            Sflag::On => "S"@,
            Sflag::Off => ""@,
        }
    }

    /// The flag's suffix in assembly text: `S` when on, nothing when off.
    pub fn suffix(self) -> (r: &'static str)
        ensures
            r@ == self.spec_suffix(),
    {
        match self {
            Sflag::On => "S",
            Sflag::Off => "",
        }
    }
}

impl Bflag {
    /// Whether the flag is on.
    pub fn is_on(self) -> (r: bool)
        ensures
            r == (self == Bflag::On),
    {
        match self {
            Bflag::On => true,
            Bflag::Off => false,
        }
    }

    /// Whether the flag is off.
    pub fn is_off(self) -> (r: bool)
        ensures
            r == (self == Bflag::Off),
    {
        match self {
            Bflag::On => false,
            Bflag::Off => true,
        }
    }

    /// The flag that is on exactly when `value` holds.
    pub fn from_bool(value: bool) -> (r: Bflag)
        ensures
            (r == Bflag::On) == value,
    {
        if value { Bflag::On } else { Bflag::Off }
    }

    /// The flag's suffix in assembly text: `B` when on, nothing when off.
    pub open spec fn spec_suffix(self) -> Seq<char> {
        match self {
            Bflag::On => "B"@,
            Bflag::Off => ""@,
        }
    }

    /// The flag's suffix in assembly text: `B` when on, nothing when off.
    pub fn suffix(self) -> (r: &'static str)
        ensures
            r@ == self.spec_suffix(),
    {
        match self {
            Bflag::On => "B",
            Bflag::Off => "",
        }
    }
}

impl Tflag {
    /// Whether the flag is on.
    pub fn is_on(self) -> (r: bool)
        ensures
            r == (self == Tflag::On),
    {
        match self {
            Tflag::On => true,
            Tflag::Off => false,
        }
    }

    /// Whether the flag is off.
    pub fn is_off(self) -> (r: bool)
        ensures
            r == (self == Tflag::Off),
    {
        match self {
            Tflag::On => false,
            Tflag::Off => true,
        }
    }

    /// The flag that is on exactly when `value` holds.
    pub fn from_bool(value: bool) -> (r: Tflag)
        ensures
            (r == Tflag::On) == value,
    {
        if value { Tflag::On } else { Tflag::Off }
    }

    /// The flag's suffix in assembly text: `T` when on, nothing when off.
    pub open spec fn spec_suffix(self) -> Seq<char> {
        match self {
            Tflag::On => "T"@,
            Tflag::Off => ""@,
        }
    }

    /// The flag's suffix in assembly text: `T` when on, nothing when off.
    pub fn suffix(self) -> (r: &'static str)
        ensures
            r@ == self.spec_suffix(),
    {
        match self {
            Tflag::On => "T",
            Tflag::Off => "",
        }
    }
}

} // verus!
