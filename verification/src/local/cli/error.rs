//! The failure of argument parsing: which argument offends, and why.

use vstd::prelude::*;
use vstd::string::*;

verus! {

/// Why a command line is refused.
#[derive(Debug, Clone, Copy, PartialEq, Eq, Structural)]
pub enum ArgumentErrorKind {
    /// An option that the command line does not know, or an argument where
    /// none is expected.
    UnknownArgument,
    /// An option that takes a value stands without one.
    MissingValue,
    /// The value is not of the option's type, or outside its range.
    InvalidValue,
    /// An option that takes no value was given one.
    UnexpectedValue,
    /// An option that may be given once was given again.
    Repeated,
}

/// A refused command line.
#[derive(Debug, Clone, PartialEq, Eq)]
pub struct ArgumentError {
    /// The reason.
    pub kind: ArgumentErrorKind,
    /// The offending argument: an unknown argument as it was given, a known
    /// option by its long name after two hyphens.
    pub argument: String,
}

/// What an `ArgumentError` says.
pub ghost struct Fault {
    pub kind: ArgumentErrorKind,
    pub argument: Seq<char>,
}

impl View for ArgumentError {
    type V = Fault;

    open spec fn view(&self) -> Fault {
        Fault { kind: self.kind, argument: self.argument@ }
    }
}

/// The sentence that tells the user of a fault.
pub open spec fn sentence(fault: Fault) -> Seq<char> {
    match fault.kind {
        ArgumentErrorKind::UnknownArgument => "unexpected argument '"@ + fault.argument
            + "' found"@,
        ArgumentErrorKind::MissingValue => "a value is required for '"@ + fault.argument
            + "' but none was supplied"@,
        ArgumentErrorKind::InvalidValue => "invalid value for '"@ + fault.argument + "'"@,
        ArgumentErrorKind::UnexpectedValue => "unexpected value for '"@ + fault.argument + "'"@,
        ArgumentErrorKind::Repeated => "the argument '"@ + fault.argument
            + "' cannot be used multiple times"@,
    }
}

impl ArgumentError {
    /// The sentence that tells the user of this failure.
    pub fn message(&self) -> (text: String)
        ensures
            text@ == sentence(self@),
    {
        let (before, after) = match self.kind {
            ArgumentErrorKind::UnknownArgument => ("unexpected argument '", "' found"),
            ArgumentErrorKind::MissingValue => (
                "a value is required for '",
                "' but none was supplied",
            ),
            ArgumentErrorKind::InvalidValue => ("invalid value for '", "'"),
            ArgumentErrorKind::UnexpectedValue => ("unexpected value for '", "'"),
            ArgumentErrorKind::Repeated => ("the argument '", "' cannot be used multiple times"),
        };
        let mut text = String::from_str(before);
        text.append(self.argument.as_str());
        text.append(after);
        text
    }
}

} // verus!
