use vstd::prelude::*;
use crate::text::starts_with;

verus! {

/// The reason `rusoto_core` gives when a string names no AWS region.
#[verifier::external_type_specification]
#[verifier::external_body]
pub struct ExParseRegionError(rusoto_core::region::ParseRegionError);

/// The reason the standard library gives when bytes are not UTF-8.
#[verifier::external_type_specification]
#[verifier::external_body]
pub struct ExFromUtf8Error(std::string::FromUtf8Error);

/// Why a string is no unsigned number: what goes wrong first when it is read
/// from the left.
#[derive(Debug, Clone, Copy, PartialEq, Eq, Structural)]
pub enum IntErrorKind {
    /// There is nothing to read.
    Empty,
    /// A character is no digit, or a sign stands alone.
    InvalidDigit,
    /// The digits read so far are worth more than 64 bits hold.
    PosOverflow,
}

impl IntErrorKind {
    /// The words for each reason.
    pub open spec fn words(self) -> Seq<char> {
        match self {
            IntErrorKind::Empty => "cannot parse integer from empty string"@,
            IntErrorKind::InvalidDigit => "invalid digit found in string"@,
            IntErrorKind::PosOverflow => "number too large to fit in target type"@,
        }
    }

    /// The words for the reason.
    pub fn message(&self) -> (text: String)
        ensures
            text@ == self.words(),
    {
        match self {
            IntErrorKind::Empty => "cannot parse integer from empty string".to_owned(),
            IntErrorKind::InvalidDigit => "invalid digit found in string".to_owned(),
            IntErrorKind::PosOverflow => "number too large to fit in target type".to_owned(),
        }
    }
}

/// Everything that can go wrong while a credential is validated, minted or
/// normalised.
#[derive(Debug)]
pub enum Error {
    /// A duration was not an unsigned decimal number that fits 64 bits.
    ParseIntError(IntErrorKind),
    /// A token file did not hold UTF-8.
    Utf8Error(std::string::FromUtf8Error),
    /// The credential type was none of `gke`, `eks` and `gcp`.
    InvalidCredentialType,
    /// The lease path was not `<mount>/creds/<role>`.
    InvalidVaultPath,
    /// The region string names no AWS region.
    InvalidAwsRegion(rusoto_core::region::ParseRegionError),
    /// An instant lies outside what can be counted or written as a date.
    TimestampOutOfRange,
}

/// How the region parser begins what it says of a string it refused.
pub open spec fn region_cause_start() -> Seq<char> {
    "Not a valid AWS region: "@
}

/// What the region parser says of a string it refused.
///
/// Trusted: this is the `Display` text of `rusoto_core`'s `ParseRegionError`.
/// The crate makes such an error in one place only, with a message that
/// begins `Not a valid AWS region: ` and goes on with the string; nothing is
/// claimed of how it goes on.
#[verifier::external_body]
fn region_error_text(cause: &rusoto_core::region::ParseRegionError) -> (text: String)
    ensures
        starts_with(text@, region_cause_start()),
{
    format!("{}", cause)
}

/// What the standard library says of bytes that are not UTF-8.
///
/// Trusted: this is the `Display` text of `FromUtf8Error`. Nothing is claimed
/// of the text.
#[verifier::external_body]
fn utf8_error_text(cause: &std::string::FromUtf8Error) -> (text: String) {
    format!("{}", cause)
}

impl Error {
    /// What is known of the message of each error: all of it, or, where it
    /// ends with words of the standard library or of the region parser, its
    /// beginning.
    pub open spec fn headline(self) -> Seq<char> {
        match self {
            Error::ParseIntError(kind) => "Error parsing integer: "@ + kind.words(),
            Error::Utf8Error(_) => "Error converting bytes to UTF-8: "@,
            Error::InvalidCredentialType => "Invalid Credential Type"@,
            Error::InvalidVaultPath => "Vault credentials path is invalid"@,
            Error::InvalidAwsRegion(_) => "Invalid AWS Region: "@ + region_cause_start(),
            Error::TimestampOutOfRange => "Timestamp is out of range"@,
        }
    }

    /// Whether the message ends with words that are not the library's own.
    pub open spec fn has_cause(self) -> bool {
        self is Utf8Error || self is InvalidAwsRegion
    }

    /// The message shown to the user: the headline, followed by the cause's
    /// own words where there is a cause.
    pub fn message(&self) -> (text: String)
        ensures
            !self.has_cause() ==> text@ == self.headline(),
            self.has_cause() ==> starts_with(text@, self.headline()),
    {
        match self {
            Error::ParseIntError(kind) => {
                let mut text = "Error parsing integer: ".to_owned();
                let tail = kind.message();
                text.append(tail.as_str());
                text
            },
            Error::Utf8Error(cause) => {
                let mut text = "Error converting bytes to UTF-8: ".to_owned();
                let tail = utf8_error_text(cause);
                text.append(tail.as_str());
                assert(text@.take("Error converting bytes to UTF-8: "@.len() as int)
                    =~= "Error converting bytes to UTF-8: "@);
                text
            },
            Error::InvalidCredentialType => "Invalid Credential Type".to_owned(),
            Error::InvalidVaultPath => "Vault credentials path is invalid".to_owned(),
            Error::InvalidAwsRegion(cause) => {
                let mut text = "Invalid AWS Region: ".to_owned();
                let tail = region_error_text(cause);
                text.append(tail.as_str());
                proof {
                    let start = "Invalid AWS Region: "@;
                    let known = start + region_cause_start();
                    assert(tail@.take(region_cause_start().len() as int) == region_cause_start());
                    assert(text@.take(known.len() as int) =~= known);
                }
                text
            },
            Error::TimestampOutOfRange => "Timestamp is out of range".to_owned(),
        }
    }
}

} // verus!
