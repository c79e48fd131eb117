//! Status codes of the encoder engine as structured errors.
//!
//! The engine reports failure through negative integers, and it uses two
//! unrelated numberings: one for the configuration and lifecycle calls,
//! one for the encode call. The same number means different things in
//! each, so each numbering has an error type of its own.

use vstd::prelude::*;

verus! {

/// Outcome of a configuration or lifecycle call.
///
/// `Okay` is the engine's success sentinel. It is part of the numbering, but
/// [`handle_simple_error`] never hands it out as an error.
#[derive(Debug, Clone, Copy, PartialEq, Eq, Structural)]
pub enum Error {
    Okay,
    GenericError,
    NoMem,
    BadBitRate,
    BadSampleFreq,
    InternalError,
    Unknown(i32),
}

impl Error {
    /// The variant that stands for a status code: the documented sentinels
    /// map to their own variant, every other integer to `Unknown`.
    pub open spec fn of_code(code: i32) -> Error {
        if code == 0 {
            Error::Okay
        } else if code == -1 {
            Error::GenericError
        } else if code == -10 {
            Error::NoMem
        } else if code == -11 {
            Error::BadBitRate
        } else if code == -12 {
            Error::BadSampleFreq
        } else if code == -13 {
            Error::InternalError
        } else {
            Error::Unknown(code)
        }
    }

    /// The text of [`Error::description`], as a sequence of characters.
    pub open spec fn description_text(self) -> Seq<char> {
        match self {
            Error::Okay => "No problem"@,
            Error::GenericError => "Generic error"@,
            Error::NoMem => "No memory"@,
            Error::BadBitRate => "Bad bitrate"@,
            Error::BadSampleFreq => "Bad sample frequency"@,
            Error::InternalError => "Internal error"@,
            Error::Unknown(_) => "Unknown error"@,
        }
    }

    /// A short description of the error, fit for a message to a person.
    pub fn description(&self) -> (text: &'static str)
        ensures
            text@ == self.description_text(),
    {
        match *self {
            Error::Okay => "No problem",
            Error::GenericError => "Generic error",
            Error::NoMem => "No memory",
            Error::BadBitRate => "Bad bitrate",
            Error::BadSampleFreq => "Bad sample frequency",
            Error::InternalError => "Internal error",
            Error::Unknown(_) => "Unknown error",
        }
    }
}

impl vstd::std_specs::convert::FromSpecImpl<i32> for Error {
    open spec fn obeys_from_spec() -> bool {
        true
    }

    open spec fn from_spec(errcode: i32) -> Error {
        Error::of_code(errcode)
    }
}

impl From<i32> for Error {
    fn from(errcode: i32) -> (err: Error) {
        match errcode {
            0 => Error::Okay,
            -1 => Error::GenericError,
            -10 => Error::NoMem,
            -11 => Error::BadBitRate,
            -12 => Error::BadSampleFreq,
            -13 => Error::InternalError,
            _ => Error::Unknown(errcode),
        }
    }
}

/// Turns the status code of a configuration or lifecycle call into a
/// result: success for code 0, the matching error for anything else.
pub open spec fn simple_result(retn: i32) -> Result<(), Error> {
    if retn == 0 {
        Ok(())
    } else {
        Err(Error::of_code(retn))
    }
}

/// Whether a status code of a configuration or lifecycle call is one of
/// the documented sentinels.
pub open spec fn is_documented_status(code: i32) -> bool {
    code == 0 || code == -1 || code == -10 || code == -11 || code == -12 || code == -13
}

/// The reading of a status code is total and exact: success for code 0
/// and for no other, `Unknown` carrying the code for every code that is
/// not documented and for no other, and never the success sentinel as an
/// error.
pub proof fn lemma_simple_result_exact(retn: i32)
    ensures
        simple_result(retn) is Ok <==> retn == 0,
        simple_result(retn) == Err::<(), Error>(Error::Unknown(retn)) <==> !is_documented_status(
            retn,
        ),
        simple_result(retn) != Err::<(), Error>(Error::Okay),
        forall|code: i32|
            simple_result(retn) == Err::<(), Error>(Error::Unknown(code)) ==> code == retn,
{
}

/// Two status codes with the same reading are the same code: no two
/// failures are merged into one.
pub proof fn lemma_simple_result_injective(a: i32, b: i32)
    requires
        simple_result(a) == simple_result(b),
    ensures
        a == b,
{
}

/// Reads the status code of a configuration or lifecycle call.
pub fn handle_simple_error(retn: i32) -> (res: Result<(), Error>)
    ensures
        res == simple_result(retn),
        res is Ok <==> retn == 0,
{
    match Error::from(retn) {
        Error::Okay => Ok(()),
        err => Err(err),
    }
}

/// Failure of an encode call.
///
/// The encode call answers with a byte count or with a small negative
/// ordinal. These ordinals are not the status codes of [`Error`]: -1 is a
/// full output buffer here and a generic failure there.
#[derive(Debug, Clone, Copy, PartialEq, Eq, Structural)]
pub enum EncodeError {
    OutputBufferTooSmall,
    NoMem,
    InitParamsNotCalled,
    PsychoAcousticError,
    Unknown(i32),
}

impl EncodeError {
    /// The variant that stands for a negative answer of the encode call.
    pub open spec fn of_code(code: i32) -> EncodeError
        recommends
            code < 0,
    {
        if code == -1 {
            EncodeError::OutputBufferTooSmall
        } else if code == -2 {
            EncodeError::NoMem
        } else if code == -3 {
            EncodeError::InitParamsNotCalled
        } else if code == -4 {
            EncodeError::PsychoAcousticError
        } else {
            EncodeError::Unknown(code)
        }
    }

    /// The text of [`EncodeError::description`], as a sequence of
    /// characters.
    pub open spec fn description_text(self) -> Seq<char> {
        match self {
            EncodeError::OutputBufferTooSmall => "Output buffer too small"@,
            EncodeError::NoMem => "No memory"@,
            EncodeError::InitParamsNotCalled => "Init params not called"@,
            EncodeError::PsychoAcousticError => "Psycho acoustic error"@,
            EncodeError::Unknown(_) => "Unknown"@,
        }
    }

    /// A short description of the error, fit for a message to a person.
    pub fn description(&self) -> (text: &'static str)
        ensures
            text@ == self.description_text(),
    {
        match *self {
            EncodeError::OutputBufferTooSmall => "Output buffer too small",
            EncodeError::NoMem => "No memory",
            EncodeError::InitParamsNotCalled => "Init params not called",
            EncodeError::PsychoAcousticError => "Psycho acoustic error",
            EncodeError::Unknown(_) => "Unknown",
        }
    }
}

/// Turns the answer of an encode call into a result: a non-negative answer
/// is the number of bytes written, a negative one is an error.
pub open spec fn encode_result(retn: i32) -> Result<usize, EncodeError> {
    if retn >= 0 {
        Ok(retn as usize)
    } else {
        Err(EncodeError::of_code(retn))
    }
}

/// Whether a negative answer of the encode call is one of the documented
/// ordinals.
pub open spec fn is_documented_ordinal(code: i32) -> bool {
    -4 <= code <= -1
}

/// The reading of an encode answer is total and exact: a byte count, the
/// answer itself, for every non-negative answer and for no other, and
/// `Unknown` carrying the answer for every negative answer that is not
/// documented and for no other.
pub proof fn lemma_encode_result_exact(retn: i32)
    ensures
        encode_result(retn) is Ok <==> retn >= 0,
        retn >= 0 ==> encode_result(retn) == Ok::<usize, EncodeError>(retn as usize),
        encode_result(retn) == Err::<usize, EncodeError>(EncodeError::Unknown(retn)) <==> retn < 0
            && !is_documented_ordinal(retn),
        forall|code: i32|
            encode_result(retn) == Err::<usize, EncodeError>(EncodeError::Unknown(code)) ==> code
                == retn && code < -4,
{
}

/// Two encode answers with the same reading are the same answer.
pub proof fn lemma_encode_result_injective(a: i32, b: i32)
    requires
        encode_result(a) == encode_result(b),
    ensures
        a == b,
{
}

/// Reads the answer of an encode call.
pub fn handle_encode_result(retn: i32) -> (res: Result<usize, EncodeError>)
    ensures
        res == encode_result(retn),
        res is Ok <==> retn >= 0,
{
    match retn {
        -1 => Err(EncodeError::OutputBufferTooSmall),
        -2 => Err(EncodeError::NoMem),
        -3 => Err(EncodeError::InitParamsNotCalled),
        -4 => Err(EncodeError::PsychoAcousticError),
        _ => {
            if retn < 0 {
                Err(EncodeError::Unknown(retn))
            } else {
                Ok(retn as usize)
            }
        },
    }
}

} // verus!
