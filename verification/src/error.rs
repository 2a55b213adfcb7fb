use vstd::prelude::*;
use vstd::string::StringExecFns;

verus! {

/// What is wrong with a beacon string.
#[derive(Clone, Copy, Debug, PartialEq, Eq, Structural)]
pub enum FormatFault {
    /// The text is not an even number of hexadecimal digits.
    NotHexadecimal,
    /// The text is hexadecimal but does not stand for exactly 32 bytes.
    WrongLength,
}

/// Every way in which a run can fail. The first failure ends the run.
#[derive(Clone, Copy, Debug, PartialEq, Eq, Structural)]
pub enum BeaconError {
    /// The file of parameters could not be opened or read.
    InputOpen,
    /// The parameters are malformed or fail their structural checks.
    ParameterFormat,
    /// The beacon is not 32 bytes of hexadecimal text.
    BeaconFormat(FormatFault),
    /// The exponent of the chain length lies outside `[10, 63]`.
    IterationRange,
    /// The output file could not be created.
    OutputCreate,
    /// The updated parameters could not be written out.
    SerializationWrite,
    /// The seed makes the generator draw zero as the secret of the
    /// contribution, with which nothing can be contributed.
    ZeroSecret,
}

impl BeaconError {
    /// The fixed part of the message for this error.
    pub open spec fn description(self) -> Seq<char> {
        match self {
            BeaconError::InputOpen => "Could not open"@,
            BeaconError::ParameterFormat => "Could not read"@,
            BeaconError::BeaconFormat(FormatFault::NotHexadecimal) =>
                "Beacon hash should be in hexadecimal format"@,
            BeaconError::BeaconFormat(FormatFault::WrongLength) =>
                "Beacon hash should be 32 bytes long"@,
            BeaconError::IterationRange =>
                "Number of hash iterations should be in the [10, 63] range"@,
            BeaconError::OutputCreate => "Could not create"@,
            BeaconError::SerializationWrite => "Could not write"@,
            BeaconError::ZeroSecret => "Beacon hash yields a zero secret for the contribution"@,
        }
    }

    /// The fixed part, then the path between backquotes, then the cause.
    pub open spec fn with_path(self, path: Seq<char>, cause: Seq<char>) -> Seq<char> {
        self.description() + " `"@ + path + "`: "@ + cause
    }

    /// The whole message for this error. A failure on the input names the
    /// input path and the cause, one in creating the output names the
    /// output path and the cause, one in writing is the cause alone, and a
    /// rejected exponent, beacon or seed has its fixed text.
    pub open spec fn message_text(
        self,
        input: Seq<char>,
        output: Seq<char>,
        cause: Seq<char>,
    ) -> Seq<char> {
        match self {
            BeaconError::InputOpen => self.with_path(input, cause),
            BeaconError::ParameterFormat => self.with_path(input, cause),
            BeaconError::OutputCreate => self.with_path(output, cause),
            BeaconError::SerializationWrite => cause,
            BeaconError::BeaconFormat(_) => self.description(),
            BeaconError::IterationRange => self.description(),
            BeaconError::ZeroSecret => self.description(),
        }
    }

    /// The fixed part of the message shown for this error. For the failures
    /// that concern a file, `message` adds the path and the cause.
    pub fn describe(&self) -> (text: &'static str)
        ensures
            text@ == self.description(),
    {
        match self {
            BeaconError::InputOpen => "Could not open",
            BeaconError::ParameterFormat => "Could not read",
            BeaconError::BeaconFormat(FormatFault::NotHexadecimal) =>
                "Beacon hash should be in hexadecimal format",
            BeaconError::BeaconFormat(FormatFault::WrongLength) =>
                "Beacon hash should be 32 bytes long",
            BeaconError::IterationRange =>
                "Number of hash iterations should be in the [10, 63] range",
            BeaconError::OutputCreate => "Could not create",
            BeaconError::SerializationWrite => "Could not write",
            BeaconError::ZeroSecret => "Beacon hash yields a zero secret for the contribution",
        }
    }

    /// The whole message shown for this error, given the paths of the run
    /// and the text of the cause that came with the failure.
    pub fn message(&self, input: &str, output: &str, cause: &str) -> (text: String)
        ensures
            text@ == self.message_text(input@, output@, cause@),
    {
        let mut text = String::new();
        match self {
            BeaconError::InputOpen | BeaconError::ParameterFormat => {
                self.push_with_path(&mut text, input, cause);
            },
            BeaconError::OutputCreate => {
                self.push_with_path(&mut text, output, cause);
            },
            BeaconError::SerializationWrite => {
                text.append(cause);
            },
            BeaconError::BeaconFormat(_) | BeaconError::IterationRange | BeaconError::ZeroSecret => {
                text.append(self.describe());
            },
        }
        text
    }

    /// Appends the fixed part, the path between backquotes, and the cause.
    fn push_with_path(&self, text: &mut String, path: &str, cause: &str)
        ensures
            final(text)@ == old(text)@ + self.with_path(path@, cause@),
    {
        text.append(self.describe());
        text.append(" `");
        text.append(path);
        text.append("`: ");
        text.append(cause);
    }
}

} // verus!
