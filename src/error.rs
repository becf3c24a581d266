use vstd::prelude::*;
use vstd::string::StringExecFns;

verus! {

/// The ways in which encoding, decoding or parsing can fail.
///
/// Every kind carries a short explanation of what was refused.
#[derive(Clone, Debug)]
pub enum Error {
    /// An instruction flag has a value that the target encoding does not permit.
    IllegalFlag { reason: &'static str },
    /// An immediate does not fit the encoding's range, granularity or rotation.
    IllegalImmediate { reason: &'static str },
    /// The instruction has no encoding in the requested instruction set.
    IllegalInstruction { reason: &'static str },
    /// The predicate is not permitted here.
    IllegalPredicate { reason: &'static str },
    /// The register is not permitted here.
    IllegalRegister { reason: &'static str },
    /// The shifter operand is not permitted here.
    IllegalShifter { reason: &'static str },
    /// The opcode does not match any known instruction.
    InvalidOpcode,
    /// The mnemonic is not known.
    UnknownMnemonic(String),
    /// The register name is not known.
    UnknownRegister(String),
}

/// The kind of an [`Error`], without its explanation.
#[derive(Clone, Copy, Debug, PartialEq, Eq, Structural)]
pub enum ErrorKind {
    IllegalFlag,
    IllegalImmediate,
    IllegalInstruction,
    IllegalPredicate,
    IllegalRegister,
    IllegalShifter,
    InvalidOpcode,
    UnknownMnemonic,
    UnknownRegister,
}

impl Error {
    /// The kind of this error.
    pub open spec fn spec_kind(&self) -> ErrorKind {
        match self {
            Error::IllegalFlag { .. } => ErrorKind::IllegalFlag,
            Error::IllegalImmediate { .. } => ErrorKind::IllegalImmediate,
            Error::IllegalInstruction { .. } => ErrorKind::IllegalInstruction,
            Error::IllegalPredicate { .. } => ErrorKind::IllegalPredicate,
            Error::IllegalRegister { .. } => ErrorKind::IllegalRegister,
            Error::IllegalShifter { .. } => ErrorKind::IllegalShifter,
            Error::InvalidOpcode => ErrorKind::InvalidOpcode,
            Error::UnknownMnemonic(_) => ErrorKind::UnknownMnemonic,
            Error::UnknownRegister(_) => ErrorKind::UnknownRegister,
        }
    }

    /// The kind of this error.
    #[verifier::when_used_as_spec(spec_kind)]
    pub fn kind(&self) -> (r: ErrorKind)
        ensures
            r == self.spec_kind(),
    {
        match self {
            Error::IllegalFlag { .. } => ErrorKind::IllegalFlag,
            Error::IllegalImmediate { .. } => ErrorKind::IllegalImmediate,
            Error::IllegalInstruction { .. } => ErrorKind::IllegalInstruction,
            Error::IllegalPredicate { .. } => ErrorKind::IllegalPredicate,
            Error::IllegalRegister { .. } => ErrorKind::IllegalRegister,
            Error::IllegalShifter { .. } => ErrorKind::IllegalShifter,
            Error::InvalidOpcode => ErrorKind::InvalidOpcode,
            Error::UnknownMnemonic(_) => ErrorKind::UnknownMnemonic,
            Error::UnknownRegister(_) => ErrorKind::UnknownRegister,
        }
    }
}

impl Error {
    /// The error as a sentence of text.
    pub open spec fn spec_message(&self) -> Seq<char> {
        match self {
            Error::IllegalFlag { reason } => "illegal flag value: "@ + reason@,
            Error::IllegalImmediate { reason } => "illegal immediate value: "@ + reason@,
            Error::IllegalInstruction { reason } => "illegal instruction: "@ + reason@,
            Error::IllegalPredicate { reason } => "illegal instruction predicate: "@ + reason@,
            Error::IllegalRegister { reason } => "register not permitted here: "@ + reason@,
            Error::IllegalShifter { reason } => "shifter operand not permitted here: "@ + reason@,
            Error::InvalidOpcode => "invalid opcode"@,
            Error::UnknownMnemonic(s) => "unknown mnemonic `"@ + s@ + "`"@,
            Error::UnknownRegister(s) => "unknown register `"@ + s@ + "`"@,
        }
    }

    /// The error as a sentence of text, such as
    /// ``unknown register `r16` ``.
    pub fn to_string(&self) -> (r: String)
        ensures
            r@ == self.spec_message(),
    {
        let mut s = String::new();
        match self {
            Error::IllegalFlag { reason } => {
                s.append("illegal flag value: ");
                s.append(reason);
            },
            Error::IllegalImmediate { reason } => {
                s.append("illegal immediate value: ");
                s.append(reason);
            },
            Error::IllegalInstruction { reason } => {
                s.append("illegal instruction: ");
                s.append(reason);
            },
            Error::IllegalPredicate { reason } => {
                s.append("illegal instruction predicate: ");
                s.append(reason);
            },
            Error::IllegalRegister { reason } => {
                s.append("register not permitted here: ");
                s.append(reason);
            },
            Error::IllegalShifter { reason } => {
                s.append("shifter operand not permitted here: ");
                s.append(reason);
            },
            Error::InvalidOpcode => {
                s.append("invalid opcode");
            },
            Error::UnknownMnemonic(name) => {
                s.append("unknown mnemonic `");
                s.append(name.as_str());
                s.append("`");
            },
            Error::UnknownRegister(name) => {
                s.append("unknown register `");
                s.append(name.as_str());
                s.append("`");
            },
        }
        proof {
            reveal_strlit("");
            assert(s@ =~= self.spec_message());
        }
        s
    }
}

/// A result with its error reduced to the error's kind.
pub open spec fn outcome<T>(r: Result<T, Error>) -> Result<T, ErrorKind> {
    match r {
        Ok(v) => Ok(v),
        Err(e) => Err(e.spec_kind()),
    }
}

} // verus!
