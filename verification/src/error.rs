//! The failures that an operation on the panel can report.

use vstd::prelude::*;

verus! {

/// Why an operation did not succeed.  A value carries nothing but its kind.
#[derive(Debug, Clone, Copy, PartialEq, Eq, Structural)]
pub enum LcdError {
    /// No device of the requested kind is attached.
    NotConnected,
    /// The SDK refused to start a session.
    Initialization,
    /// The SDK refused a monochrome background.
    MonoBackground,
    /// The SDK refused a line of monochrome text.
    MonoText,
    /// The SDK refused a color background.
    ColorBackground,
    /// The SDK refused a color title.
    ColorTitle,
    /// The SDK refused a line of color text.
    ColorText,
    /// A text held U+0000, which the wire form cannot carry.
    NullCharacter,
}

impl LcdError {
    /// The sentence that describes this kind of failure.
    pub open spec fn description_text(self) -> Seq<char> {
        match self {
            LcdError::NotConnected => "LCD is not connected"@,
            LcdError::Initialization => "A FFI call to LogiLcdInit() has failed"@,
            LcdError::MonoBackground => "A FFI call to LogiLcdMonoSetBackground() has failed"@,
            LcdError::MonoText => "A FFI call to LogiLcdMonoSetText() has failed"@,
            LcdError::ColorBackground => "A FFI call to LogiLcdColorSetBackground() has failed"@,
            LcdError::ColorTitle => "A FFI call to LogiLcdColorSetTitle() has failed"@,
            LcdError::ColorText => "A FFI call to LogiLcdColorSetText() has failed"@,
            LcdError::NullCharacter => "Unexpected NULL character"@,
        }
    }

    /// What a rendered error reads: a fixed prefix, then the description.
    pub open spec fn message_text(self) -> Seq<char> {
        "LcdError: "@ + self.description_text()
    }

    /// Describes the failure in a sentence.
    pub fn description(&self) -> (text: &'static str)
        ensures
            text@ == self.description_text(),
    {
        match self {
            LcdError::NotConnected => "LCD is not connected",
            LcdError::Initialization => "A FFI call to LogiLcdInit() has failed",
            LcdError::MonoBackground => "A FFI call to LogiLcdMonoSetBackground() has failed",
            LcdError::MonoText => "A FFI call to LogiLcdMonoSetText() has failed",
            LcdError::ColorBackground => "A FFI call to LogiLcdColorSetBackground() has failed",
            LcdError::ColorTitle => "A FFI call to LogiLcdColorSetTitle() has failed",
            LcdError::ColorText => "A FFI call to LogiLcdColorSetText() has failed",
            LcdError::NullCharacter => "Unexpected NULL character",
        }
    }

    /// Renders the error for a human reader.
    pub fn message(&self) -> (text: String)
        ensures
            text@ == self.message_text(),
    {
        String::from_str("LcdError: ").concat(self.description())
    }
}

} // verus!
