use vstd::prelude::*;
use crate::aws::{
    credentials_from_lease_at, credentials_of_lease, get_eks_token, minted_for, option_str_view,
    option_view, presign_outcome, requested_validity, AwsLeaseCredentials, EksCredential,
};
use crate::credential::CredentialType;
use crate::error::Error;
use crate::gcp::{
    broker_token, sdk_expiry_in_calendar, sdk_token, GcpAccessToken, GcpAccessTokenView, SdkToken,
    WireInteger,
};
use crate::lease_path::{lease_path_of, validate, LeasePath};
use crate::time::{clock_range, in_calendar, Instant};

verus! {

/// What is sent along when dynamic AWS credentials are asked for.
#[derive(Debug, Clone)]
pub struct CredentialsRequest {
    /// The role to assume, where the backend's role allows several.
    pub role_arn: Option<String>,
    /// How long the credentials are to live, as the backend writes durations.
    pub ttl: Option<String>,
}

/// The one thing to fetch for a credential: each type of credential has its
/// own backend, and no other is tried when it fails.
#[derive(Debug)]
pub enum Action {
    /// Ask the secret backend to generate AWS credentials for a role.
    GenerateAwsCredentials { lease_path: LeasePath, request: CredentialsRequest },
    /// Read the secret at a path of the secret backend, as it is given.
    ReadSecret { path: String },
    /// Ask the cloud SDK for a token with one scope.
    RequestSdkToken { scope: String },
}

/// The scope that tokens of the cloud SDK are asked for.
pub open spec fn sdk_scope() -> Seq<char> {
    "https://www.googleapis.com/auth/cloud-platform"@
}

/// Whether an outcome is the one owed to a request for credentials of a type,
/// at a path: for EKS the path has to be a lease path and is taken apart, for
/// GKE the path is read as it stands, and for GCP no path is looked at.
pub open spec fn plan_outcome(
    kind: CredentialType,
    path: Option<Seq<char>>,
    request: CredentialsRequest,
    planned: Result<Action, Error>,
) -> bool {
    match kind {
        CredentialType::Eks => match lease_path_of(path->0) {
            Some(parts) => planned matches Ok(
                Action::GenerateAwsCredentials { lease_path: p, request: r },
            ) && p@ == parts && r == request,
            None => planned matches Err(Error::InvalidVaultPath),
        },
        CredentialType::Gke => planned matches Ok(Action::ReadSecret { path: p }) && p@ == path->0,
        CredentialType::Gcp => planned matches Ok(Action::RequestSdkToken { scope: s }) && s@
            == sdk_scope(),
    }
}

/// Decides what to fetch for a credential of a type. Credentials that come
/// from the secret backend need a path.
pub fn plan(kind: CredentialType, path: Option<&str>, request: CredentialsRequest) -> (planned:
    Result<Action, Error>)
    requires
        kind.needs_path() ==> path is Some,
    ensures
        plan_outcome(kind, option_str_view(path), request, planned),
{
    match kind {
        CredentialType::Eks => match path {
            Some(path) => match validate(path) {
                Ok(lease_path) => Ok(Action::GenerateAwsCredentials { lease_path, request }),
                Err(e) => Err(e),
            },
            None => Err(Error::InvalidVaultPath),
        },
        CredentialType::Gke => match path {
            Some(path) => Ok(Action::ReadSecret { path: path.to_owned() }),
            None => Err(Error::InvalidVaultPath),
        },
        CredentialType::Gcp => Ok(
            Action::RequestSdkToken {
                scope: "https://www.googleapis.com/auth/cloud-platform".to_owned(),
            },
        ),
    }
}

/// What came back from the one backend that was asked.
#[derive(Debug)]
pub enum Answer {
    /// A lease on AWS credentials, with what the token is to be minted for.
    AwsLease {
        lease: AwsLeaseCredentials,
        cluster: String,
        region: Option<String>,
        expires_in: Option<String>,
    },
    /// A broker's token: its expiry in seconds since the epoch, the token and
    /// its time to live.
    BrokerToken { expires_at_seconds: WireInteger, token: String, token_ttl: u64 },
    /// A token of the cloud SDK.
    SdkToken(SdkToken),
}

impl Answer {
    /// A token of the SDK is well formed.
    pub open spec fn wf(&self) -> bool {
        self matches Answer::SdkToken(token) ==> token.wf()
    }
}

/// The document that goes to the Kubernetes client.
#[derive(Debug)]
pub enum Document {
    Eks(EksCredential),
    Gcp(GcpAccessToken),
}

/// Whether an outcome is the one owed to an access token that may not exist:
/// the token as the document, or `TimestampOutOfRange`.
pub open spec fn gcp_document_outcome(
    expected: Option<GcpAccessTokenView>,
    produced: Result<Document, Error>,
) -> bool {
    match expected {
        Some(expected) => produced matches Ok(Document::Gcp(t)) && t@ == expected,
        None => produced matches Err(Error::TimestampOutOfRange),
    }
}

/// Whether an outcome is the one owed to an answer that was read at `now`.
///
/// A broker's token becomes an access token as it stands. A token of the SDK
/// becomes an access token that counts from `now`. Both succeed where the
/// expiry lies inside the calendar. A lease becomes an exec
/// credential, unless it would end beyond the last countable second, the
/// region is none or the validity is no number; its token encodes a URL that
/// the signer gives for the validity that was asked.
pub open spec fn produce_outcome(answer: Answer, now: Instant, produced: Result<Document, Error>) -> bool {
    match answer {
        Answer::BrokerToken { expires_at_seconds, token, token_ttl } => {
            &&& gcp_document_outcome(broker_token(expires_at_seconds, token@, token_ttl), produced)
            &&& in_calendar(expires_at_seconds.value()) ==> produced is Ok
        },
        Answer::SdkToken(token) => {
            &&& gcp_document_outcome(sdk_token(token.token@, token.expires_at, now), produced)
            &&& sdk_expiry_in_calendar(token.expires_at, now) ==> produced is Ok
        },
        Answer::AwsLease { lease, cluster, region, expires_in } => match credentials_of_lease(
            lease@,
            now,
        ) {
            Some(_) => {
                &&& presign_outcome(option_view(region), option_view(expires_in), produced)
                &&& produced matches Ok(document) ==> document matches Document::Eks(credential)
                    && minted_for(credential, requested_validity(option_view(expires_in)))
            },
            None => produced matches Err(Error::TimestampOutOfRange),
        },
    }
}

/// Borrows a string that may be absent.
fn as_option_str(s: &Option<String>) -> (borrowed: Option<&str>)
    ensures
        option_str_view(borrowed) == option_view(*s),
{
    match s {
        Some(s) => Some(s.as_str()),
        None => None,
    }
}

/// Turns an answer that was read at `now` into the document.
pub fn produce_at(answer: Answer, now: Instant) -> (produced: Result<Document, Error>)
    requires
        answer.wf(),
        now.wf(),
    ensures
        produce_outcome(answer, now, produced),
{
    match answer {
        Answer::BrokerToken { expires_at_seconds, token, token_ttl } => {
            match GcpAccessToken::from_broker(expires_at_seconds, token, token_ttl) {
                Ok(token) => Ok(Document::Gcp(token)),
                Err(e) => Err(e),
            }
        },
        Answer::SdkToken(token) => match GcpAccessToken::from_gcp_auth_at(&token, now) {
            Ok(token) => Ok(Document::Gcp(token)),
            Err(e) => Err(e),
        },
        Answer::AwsLease { lease, cluster, region, expires_in } => {
            let credentials = match credentials_from_lease_at(lease, now) {
                Ok(credentials) => credentials,
                Err(e) => {
                    return Err(e);
                },
            };
            match get_eks_token(
                &credentials,
                cluster.as_str(),
                as_option_str(&region),
                as_option_str(&expires_in),
            ) {
                Ok(credential) => Ok(Document::Eks(credential)),
                Err(e) => Err(e),
            }
        },
    }
}

/// Turns an answer that was just read into the document: the clock is read
/// once, and lease and token count from that instant.
pub fn produce(answer: Answer) -> (produced: Result<Document, Error>)
    requires
        answer.wf(),
    ensures
        exists|now: Instant|
            now.wf() && clock_range(now) && #[trigger] produce_outcome(answer, now, produced),
{
    let now = Instant::now();
    produce_at(answer, now)
}

} // verus!
