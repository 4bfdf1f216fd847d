use vstd::prelude::*;
use crate::error::Error;
use crate::text::str_eq;

verus! {

/// The backend that a credential comes from.
#[derive(Debug, Clone, Copy, PartialEq, Eq, Structural)]
pub enum CredentialType {
    /// A broker-issued OAuth token for Google Kubernetes Engine.
    Gke,
    /// A token for Amazon EKS, minted from leased AWS credentials.
    Eks,
    /// A token that the Google Cloud SDK hands out itself.
    Gcp,
}

/// A string in lower case, as the standard library's `str::to_lowercase`
/// gives it.
pub uninterp spec fn lowercase_of(s: Seq<char>) -> Seq<char>;

/// Puts a string into lower case.
///
/// Trusted: this is `str::to_lowercase` of the standard library. The result
/// depends on the string alone; nothing else is claimed of it.
#[verifier::external_body]
fn to_lowercase(s: &str) -> (lower: String)
    ensures
        lower@ == lowercase_of(s@),
{
    s.to_lowercase()
}

/// The credential type that a name in lower case stands for.
pub open spec fn credential_type_named(name: Seq<char>) -> Option<CredentialType> {
    if name == "gke"@ {
        Some(CredentialType::Gke)
    } else if name == "eks"@ {
        Some(CredentialType::Eks)
    } else if name == "gcp"@ {
        Some(CredentialType::Gcp)
    } else {
        None
    }
}

/// Whether an outcome is the one owed to a name: its credential type, or
/// `InvalidCredentialType` for a name that stands for none.
pub open spec fn credential_type_outcome(
    expected: Option<CredentialType>,
    parsed: Result<CredentialType, Error>,
) -> bool {
    match expected {
        Some(kind) => parsed matches Ok(k) && k == kind,
        None => parsed matches Err(Error::InvalidCredentialType),
    }
}

impl CredentialType {
    /// Reads a credential type from its name in lower case: `gke`, `eks` or
    /// `gcp`.
    pub fn from_lowercase(name: &str) -> (parsed: Result<CredentialType, Error>)
        ensures
            credential_type_outcome(credential_type_named(name@), parsed),
    {
        if str_eq(name, "gke") {
            Ok(CredentialType::Gke)
        } else if str_eq(name, "eks") {
            Ok(CredentialType::Eks)
        } else if str_eq(name, "gcp") {
            Ok(CredentialType::Gcp)
        } else {
            Err(Error::InvalidCredentialType)
        }
    }

    /// Reads a credential type from its name, whatever the case of its
    /// letters.
    pub fn from_str(s: &str) -> (parsed: Result<CredentialType, Error>)
        ensures
            credential_type_outcome(credential_type_named(lowercase_of(s@)), parsed),
    {
        let lower = to_lowercase(s);
        CredentialType::from_lowercase(lower.as_str())
    }

    /// Whether credentials of this type are read from the secret backend, at a
    /// path that the caller has to give.
    pub open spec fn needs_path_spec(self) -> bool {
        self is Gke || self is Eks
    }

    /// Whether credentials of this type are read from the secret backend, at a
    /// path that the caller has to give.
    #[verifier::when_used_as_spec(needs_path_spec)]
    pub fn needs_path(self) -> (needed: bool)
        ensures
            needed == self.needs_path_spec(),
    {
        match self {
            CredentialType::Gke => true,
            CredentialType::Eks => true,
            CredentialType::Gcp => false,
        }
    }
}

} // verus!
