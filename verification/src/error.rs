//! The error taxonomy of the two operations, and how each error is rendered
//! for the caller as a human-readable line.

use vstd::prelude::*;
use vstd::string::*;

verus! {

/// How a synthesis or save operation failed. Every failure is terminal:
/// the operation that hit it returns at once, and the caller sees the
/// rendering of [`TtsError::message`].
#[derive(Debug, Clone, PartialEq, Eq)]
pub enum TtsError {
    /// The synthesis request could not complete at the transport level.
    NetworkFailure { detail: String },
    /// The synthesis response body was not valid JSON.
    ResponseParseFailure { detail: String },
    /// The remote API answered with a logical code other than 200; `msg` is
    /// the API's own message, or the fallback text when it gave none.
    ApiError { status: u16, msg: String },
    /// A field required on a successful envelope was absent or of the wrong
    /// JSON type.
    MissingField { field: String },
    /// Fetching the audio bytes failed at the transport level.
    DownloadFailure { detail: String },
    /// The audio response arrived but reading its body failed.
    ReadFailure { detail: String },
    /// Writing the audio bytes to the chosen path failed.
    WriteFailure { detail: String },
}

/// The character of a single decimal digit.
pub open spec fn digit_char(d: nat) -> char {
    if d == 0 {
        '0'
    } else if d == 1 {
        '1'
    } else if d == 2 {
        '2'
    } else if d == 3 {
        '3'
    } else if d == 4 {
        '4'
    } else if d == 5 {
        '5'
    } else if d == 6 {
        '6'
    } else if d == 7 {
        '7'
    } else if d == 8 {
        '8'
    } else {
        '9'
    }
}

/// The decimal numeral of `n`, most significant digit first, no sign and no
/// leading zeros (except for `n == 0` itself).
pub open spec fn spec_decimal(n: nat) -> Seq<char>
    decreases n,
{
    if n < 10 {
        seq![digit_char(n)]
    } else {
        spec_decimal(n / 10).push(digit_char(n % 10))
    }
}

fn digit_str(d: u8) -> (r: &'static str)
    requires
        d < 10,
    ensures
        r@ == seq![digit_char(d as nat)],
{
    proof {
        reveal_strlit("0");
        reveal_strlit("1");
        reveal_strlit("2");
        reveal_strlit("3");
        reveal_strlit("4");
        reveal_strlit("5");
        reveal_strlit("6");
        reveal_strlit("7");
        reveal_strlit("8");
        reveal_strlit("9");
    }
    let r: &'static str = match d {
        0 => "0",
        1 => "1",
        2 => "2",
        3 => "3",
        4 => "4",
        5 => "5",
        6 => "6",
        7 => "7",
        8 => "8",
        _ => "9",
    };
    proof {
        assert(r@ =~= seq![digit_char(d as nat)]);
    }
    r
}

/// The decimal numeral of `n` as a string, exactly [`spec_decimal`].
pub fn u16_decimal(n: u16) -> (r: String)
    ensures
        r@ == spec_decimal(n as nat),
    decreases n,
{
    if n < 10 {
        digit_str(n as u8).to_owned()
    } else {
        let mut s = u16_decimal(n / 10);
        s.append(digit_str((n % 10) as u8));
        proof {
            assert(s@ =~= spec_decimal(n as nat));
        }
        s
    }
}

/// The line shown to the caller for each error.
pub open spec fn spec_message(e: TtsError) -> Seq<char> {
    match e {
        TtsError::NetworkFailure { detail } => "network request failed: "@ + detail@,
        TtsError::ResponseParseFailure { detail } => "failed to parse the response: "@ + detail@,
        TtsError::ApiError { status, msg } => "API error "@ + spec_decimal(status as nat) + ": "@
            + msg@,
        TtsError::MissingField { field } => "the response is missing the "@ + field@ + " field"@,
        TtsError::DownloadFailure { detail } => "download failed: "@ + detail@,
        TtsError::ReadFailure { detail } => "failed to read the audio bytes: "@ + detail@,
        TtsError::WriteFailure { detail } => "failed to write the file: "@ + detail@,
    }
}

impl TtsError {
    /// Render the error as the human-readable line the caller receives.
    pub fn message(&self) -> (r: String)
        ensures
            r@ == spec_message(*self),
    {
        match self {
            TtsError::NetworkFailure { detail } => {
                let mut s = "network request failed: ".to_owned();
                s.append(detail.as_str());
                s
            },
            TtsError::ResponseParseFailure { detail } => {
                let mut s = "failed to parse the response: ".to_owned();
                s.append(detail.as_str());
                s
            },
            TtsError::ApiError { status, msg } => {
                let mut s = "API error ".to_owned();
                let num = u16_decimal(*status);
                s.append(num.as_str());
                s.append(": ");
                s.append(msg.as_str());
                proof {
                    assert(s@ =~= spec_message(*self));
                }
                s
            },
            TtsError::MissingField { field } => {
                let mut s = "the response is missing the ".to_owned();
                s.append(field.as_str());
                s.append(" field");
                proof {
                    assert(s@ =~= spec_message(*self));
                }
                s
            },
            TtsError::DownloadFailure { detail } => {
                let mut s = "download failed: ".to_owned();
                s.append(detail.as_str());
                s
            },
            TtsError::ReadFailure { detail } => {
                let mut s = "failed to read the audio bytes: ".to_owned();
                s.append(detail.as_str());
                s
            },
            TtsError::WriteFailure { detail } => {
                let mut s = "failed to write the file: ".to_owned();
                s.append(detail.as_str());
                s
            },
        }
    }
}

/// Law: the rendered message of an API error ends with the API's own message
/// text, so the caller always sees what the remote side reported.
pub proof fn lemma_api_error_message_carries_msg(status: u16, msg: String)
    ensures
        ({
            let full = spec_message(TtsError::ApiError { status, msg });
            &&& full.len() >= msg@.len()
            &&& full.subrange(full.len() - msg@.len(), full.len() as int) == msg@
        }),
{
    let prefix = "API error "@ + spec_decimal(status as nat) + ": "@;
    let full = spec_message(TtsError::ApiError { status, msg });
    assert(full =~= prefix + msg@);
    assert(full.subrange(full.len() - msg@.len(), full.len() as int) =~= msg@);
}

} // verus!
