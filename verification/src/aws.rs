use std::collections::HashMap;
use std::str::FromStr;
use vstd::prelude::*;
use vstd::utf8::encode_utf8;
use crate::encoding::{
    append_base64_url_safe_no_pad, base64_no_pad_len, base64_url_safe_no_pad,
    is_url_safe_base64_no_pad, lemma_base64_injective, lemma_base64_len, lemma_base64_valid,
};
use crate::error::{Error, IntErrorKind};
use crate::number::{decimal_text, parse_u64, parse_u64_spec};
use crate::time::{clock_range, Instant, LAST_CALENDAR_SECOND};

verus! {

/// An AWS region, as `rusoto_core` knows it.
#[verifier::external_type_specification]
#[verifier::external_body]
pub struct ExRegion(rusoto_core::Region);

/// The payload of a lease on dynamic AWS credentials.
#[derive(Debug, Clone)]
pub struct AwsLeaseCredentials {
    pub access_key: String,
    pub secret_key: String,
    /// Present exactly for temporary credentials issued by STS.
    pub security_token: Option<String>,
    /// How long the lease is valid, in seconds.
    pub lease_duration: u64,
}

/// What a lease payload holds, as plain values.
pub struct AwsLeaseCredentialsView {
    pub access_key: Seq<char>,
    pub secret_key: Seq<char>,
    pub security_token: Option<Seq<char>>,
    pub lease_duration: u64,
}

/// The characters of a string that may be absent.
pub open spec fn option_view(s: Option<String>) -> Option<Seq<char>> {
    match s {
        Some(s) => Some(s@),
        None => None,
    }
}

impl View for AwsLeaseCredentials {
    type V = AwsLeaseCredentialsView;

    open spec fn view(&self) -> AwsLeaseCredentialsView {
        AwsLeaseCredentialsView {
            access_key: self.access_key@,
            secret_key: self.secret_key@,
            security_token: option_view(self.security_token),
            lease_duration: self.lease_duration,
        }
    }
}

/// AWS credentials ready for signing, with the instant at which they lapse.
/// Credentials without an expiry never lapse.
#[derive(Debug, Clone)]
pub struct AwsCredentials {
    pub key: String,
    pub secret: String,
    pub token: Option<String>,
    pub expires_at: Option<Instant>,
}

/// What a set of credentials holds, as plain values.
pub struct AwsCredentialsView {
    pub key: Seq<char>,
    pub secret: Seq<char>,
    pub token: Option<Seq<char>>,
    pub expires_at: Option<Instant>,
}

impl View for AwsCredentials {
    type V = AwsCredentialsView;

    open spec fn view(&self) -> AwsCredentialsView {
        AwsCredentialsView {
            key: self.key@,
            secret: self.secret@,
            token: option_view(self.token),
            expires_at: self.expires_at,
        }
    }
}

/// The credentials that a lease read at `now` stands for. Temporary
/// credentials, which carry a session token, lapse when the lease does;
/// long-lived ones, which carry none, never do. `None` where the lease would
/// end beyond the last second that can be counted.
pub open spec fn credentials_of_lease(lease: AwsLeaseCredentialsView, now: Instant) -> Option<
    AwsCredentialsView,
> {
    if lease.security_token is Some {
        match now.plus_seconds_spec(lease.lease_duration) {
            Some(end) => Some(
                AwsCredentialsView {
                    key: lease.access_key,
                    secret: lease.secret_key,
                    token: lease.security_token,
                    expires_at: Some(end),
                },
            ),
            None => None,
        }
    } else {
        Some(
            AwsCredentialsView {
                key: lease.access_key,
                secret: lease.secret_key,
                token: None,
                expires_at: None,
            },
        )
    }
}

/// Credentials derived from a lease have an expiry exactly when the lease came
/// with a session token, and then it is the end of the lease.
pub proof fn lemma_expiry_iff_session_token(lease: AwsLeaseCredentialsView, now: Instant)
    requires
        credentials_of_lease(lease, now) is Some,
    ensures
        credentials_of_lease(lease, now)->0.expires_at is Some <==> lease.security_token is Some,
        lease.security_token is Some ==> credentials_of_lease(lease, now)->0.expires_at
            == now.plus_seconds_spec(lease.lease_duration),
{
}

/// Long-lived credentials are always accepted; temporary ones unless the lease
/// ends beyond the last countable second.
pub proof fn lemma_credentials_of_lease_defined(lease: AwsLeaseCredentialsView, now: Instant)
    ensures
        credentials_of_lease(lease, now) is Some <==> (lease.security_token is None || now.secs
            + lease.lease_duration <= i64::MAX),
{
}

/// Turns a lease read at `now` into credentials.
pub fn credentials_from_lease_at(lease: AwsLeaseCredentials, now: Instant) -> (credentials: Result<
    AwsCredentials,
    Error,
>)
    ensures
        match credentials_of_lease(lease@, now) {
            Some(expected) => credentials matches Ok(c) && c@ == expected,
            None => credentials matches Err(Error::TimestampOutOfRange),
        },
{
    let expires_at = if lease.security_token.is_some() {
        match now.plus_seconds(lease.lease_duration) {
            Some(end) => Some(end),
            None => {
                return Err(Error::TimestampOutOfRange);
            },
        }
    } else {
        None
    };
    Ok(
        AwsCredentials {
            key: lease.access_key,
            secret: lease.secret_key,
            token: lease.security_token,
            expires_at,
        },
    )
}

/// Whether a lease gives credentials whatever the clock shows: it comes
/// without a session token, or it ends within the countable seconds even when
/// read at the last second of the calendar.
pub open spec fn lease_always_countable(lease: AwsLeaseCredentialsView) -> bool {
    lease.security_token is None || lease.lease_duration <= i64::MAX - LAST_CALENDAR_SECOND
}

/// Turns a lease that was just read into credentials: the clock is read once,
/// and the lease counts from that instant.
pub fn credentials_from_lease(lease: AwsLeaseCredentials) -> (credentials: Result<
    AwsCredentials,
    Error,
>)
    ensures
        exists|now: Instant|
            now.wf() && clock_range(now) && match #[trigger] credentials_of_lease(lease@, now) {
                Some(expected) => credentials matches Ok(c) && c@ == expected,
                None => credentials matches Err(Error::TimestampOutOfRange),
            },
        lease_always_countable(lease@) ==> credentials is Ok,
{
    let now = Instant::now();
    credentials_from_lease_at(lease, now)
}

/// Whether `rusoto_core` takes a string for the name of an AWS region.
pub uninterp spec fn is_aws_region_name(name: Seq<char>) -> bool;

/// Reads the name of an AWS region.
///
/// Trusted: this is `rusoto_core`'s `Region::from_str`, which looks the name
/// up in its list of regions, letter case aside. Whether it succeeds depends
/// on the string alone; nothing is claimed of which strings it takes.
#[verifier::external_body]
fn parse_region(name: &str) -> (parsed: Result<
    rusoto_core::Region,
    rusoto_core::region::ParseRegionError,
>)
    ensures
        parsed is Ok <==> is_aws_region_name(name@),
{
    rusoto_core::Region::from_str(name)
}

/// The header that ties a signed request to one cluster.
pub open spec fn cluster_header_name() -> Seq<char> {
    "x-k8s-aws-id"@
}

/// What is handed to the signer: where to sign for, the one header to sign,
/// and how long the signature is to say it is valid.
pub struct PresignRequest {
    /// The region to sign for; without one the signer picks its default.
    pub region: Option<rusoto_core::Region>,
    pub header_name: String,
    pub header_value: String,
    /// The validity to encode, in seconds; without one the signer picks its
    /// default.
    pub validity_seconds: Option<u64>,
}

/// Why a request for a presigned URL is refused before anything is signed:
/// first the region is looked at, then the validity.
pub enum PresignRefusal {
    Region,
    Validity,
}

/// Whether a request for a presigned URL is refused, and why.
pub open spec fn presign_refusal(
    region: Option<Seq<char>>,
    expires_in: Option<Seq<char>>,
) -> Option<PresignRefusal> {
    if region is Some && !is_aws_region_name(region->0) {
        Some(PresignRefusal::Region)
    } else if expires_in is Some && parse_u64_spec(expires_in->0) is Err {
        Some(PresignRefusal::Validity)
    } else {
        None
    }
}

/// The validity, in seconds, that an accepted request asks for.
pub open spec fn requested_validity(expires_in: Option<Seq<char>>) -> Option<u64> {
    match expires_in {
        Some(text) => match parse_u64_spec(text) {
            Ok(seconds) => Some(seconds),
            Err(_) => None,
        },
        None => None,
    }
}

/// Why a validity is no number.
pub open spec fn validity_refusal(expires_in: Option<Seq<char>>) -> IntErrorKind {
    parse_u64_spec(expires_in->0)->Err_0
}

/// The characters of a string slice that may be absent.
pub open spec fn option_str_view(s: Option<&str>) -> Option<Seq<char>> {
    match s {
        Some(s) => Some(s@),
        None => None,
    }
}

/// Whether an outcome is the one owed to a request with this region and this
/// validity: `InvalidAwsRegion` for a region that is none, else
/// `ParseIntError`, with the reason, for a validity that is no number, else
/// success.
pub open spec fn presign_outcome<T>(
    region: Option<Seq<char>>,
    expires_in: Option<Seq<char>>,
    outcome: Result<T, Error>,
) -> bool {
    match presign_refusal(region, expires_in) {
        Some(PresignRefusal::Region) => outcome matches Err(Error::InvalidAwsRegion(_)),
        Some(PresignRefusal::Validity) => outcome matches Err(Error::ParseIntError(kind)) && kind
            == validity_refusal(expires_in),
        None => outcome is Ok,
    }
}

/// Reads the validity of a signature: an unsigned number of seconds.
pub fn parse_expiry(expires_in: Option<&str>) -> (validity: Result<Option<u64>, Error>)
    ensures
        match expires_in {
            Some(text) => match parse_u64_spec(text@) {
                Ok(seconds) => validity == Ok::<Option<u64>, Error>(Some(seconds)),
                Err(reason) => validity matches Err(Error::ParseIntError(kind)) && kind == reason,
            },
            None => validity == Ok::<Option<u64>, Error>(None),
        },
{
    match expires_in {
        Some(text) => match parse_u64(text) {
            Ok(seconds) => Ok(Some(seconds)),
            Err(reason) => Err(Error::ParseIntError(reason)),
        },
        None => Ok(None),
    }
}

/// Checks region and validity and puts together what the signer is to sign:
/// a request that carries the cluster's name in the header `x-k8s-aws-id`.
pub fn presign_request(cluster: &str, region: Option<&str>, expires_in: Option<&str>) -> (request:
    Result<PresignRequest, Error>)
    ensures
        presign_outcome(option_str_view(region), option_str_view(expires_in), request),
        request matches Ok(r) ==> {
            &&& r.region is Some <==> region is Some
            &&& r.header_name@ == cluster_header_name()
            &&& r.header_value@ == cluster@
            &&& r.validity_seconds == requested_validity(option_str_view(expires_in))
        },
{
    let region = match region {
        Some(name) => match parse_region(name) {
            Ok(region) => Some(region),
            Err(cause) => {
                return Err(Error::InvalidAwsRegion(cause));
            },
        },
        None => None,
    };
    let validity_seconds = match parse_expiry(expires_in) {
        Ok(validity) => validity,
        Err(e) => {
            return Err(e);
        },
    };
    Ok(
        PresignRequest {
            region,
            header_name: "x-k8s-aws-id".to_owned(),
            header_value: cluster.to_owned(),
            validity_seconds,
        },
    )
}

/// What the signer is to be warned about: notes for the user, which never
/// stand in the way of a token.
#[derive(Debug, Clone, Copy, PartialEq, Eq, Structural)]
pub enum ExpiryWarning {
    /// AWS honours the signed request for a fixed time, whatever validity is
    /// encoded.
    FixedValidityWindow,
    /// A validity under a minute may be refused by older consumers.
    ShortExpiry,
}

/// The validity, in seconds, under which older consumers may refuse a token.
pub const SHORT_EXPIRY_SECONDS: u64 = 60;

impl ExpiryWarning {
    /// The words of the warning.
    pub fn message(&self) -> (text: String)
        ensures
            text@ == match *self {
                ExpiryWarning::FixedValidityWindow => "The sts `GetCallerIdentity` request is valid for 15 minutes regardless of this parameters value after it has been signed."@,
                ExpiryWarning::ShortExpiry => "Setting the expiry to less than 60 seconds might cause versions of `aws-iam-authenticator` earlier than 0.3.0 to error"@,
            },
    {
        match self {
            ExpiryWarning::FixedValidityWindow => "The sts `GetCallerIdentity` request is valid for 15 minutes regardless of this parameters value after it has been signed.".to_owned(),
            ExpiryWarning::ShortExpiry => "Setting the expiry to less than 60 seconds might cause versions of `aws-iam-authenticator` earlier than 0.3.0 to error".to_owned(),
        }
    }
}

/// The warnings that a validity calls for, in the order in which they are
/// given: none without a validity; with one, that AWS keeps to its own window,
/// and, under a minute, that the validity is short.
pub open spec fn expiry_warnings_spec(validity_seconds: Option<u64>) -> Seq<ExpiryWarning> {
    match validity_seconds {
        None => Seq::empty(),
        Some(seconds) => if seconds < SHORT_EXPIRY_SECONDS {
            seq![ExpiryWarning::FixedValidityWindow, ExpiryWarning::ShortExpiry]
        } else {
            seq![ExpiryWarning::FixedValidityWindow]
        },
    }
}

/// The warnings that a validity calls for.
pub fn expiry_warnings(validity_seconds: Option<u64>) -> (warnings: Vec<ExpiryWarning>)
    ensures
        warnings@ == expiry_warnings_spec(validity_seconds),
{
    let mut warnings: Vec<ExpiryWarning> = Vec::new();
    if let Some(seconds) = validity_seconds {
        warnings.push(ExpiryWarning::FixedValidityWindow);
        if seconds < SHORT_EXPIRY_SECONDS {
            warnings.push(ExpiryWarning::ShortExpiry);
        }
    }
    assert(warnings@ =~= expiry_warnings_spec(validity_seconds));
    warnings
}

/// Whether a piece of text stands somewhere in another.
pub open spec fn occurs_in(part: Seq<char>, text: Seq<char>) -> bool {
    exists|i: int|
        0 <= i <= text.len() - part.len() && #[trigger] text.subrange(i, i + part.len()) == part
}

/// The validity, in seconds, that the signer encodes where none is asked for.
pub const DEFAULT_VALIDITY_SECONDS: u64 = 60;

/// The validity, in seconds, that a presigned URL says it has.
pub open spec fn encoded_validity(validity_seconds: Option<u64>) -> u64 {
    match validity_seconds {
        Some(seconds) => seconds,
        None => DEFAULT_VALIDITY_SECONDS,
    }
}

/// What holds of every presigned URL for a request with this validity: it is
/// not empty, it asks STS for `GetCallerIdentity`, and it says how long it is
/// valid, in decimal seconds.
pub open spec fn is_presigned_sts_url(url: Seq<char>, validity_seconds: Option<u64>) -> bool {
    &&& url.len() > 0
    &&& occurs_in("Action=GetCallerIdentity"@, url)
    &&& occurs_in(
        "X-Amz-Expires="@ + decimal_text(encoded_validity(validity_seconds) as nat),
        url,
    )
}

/// Signs a `GetCallerIdentity` request to STS and gives it out as a URL.
///
/// Trusted: this is `aws_auth_payload::client::presigned_url`, called with
/// credentials that `rusoto_core`'s `AwsCredentials::new` makes from key,
/// secret and session token (the signer reads no expiry), with the request's
/// region, with its one header and with its validity as a `Duration`. The URL
/// carries the time of signing, and without a region the signer consults the
/// environment, so two calls may differ. Whatever comes back is the request
/// written out with its query: it holds `Action=GetCallerIdentity`, and
/// `X-Amz-Expires=` followed by the validity in decimal seconds, which is 60
/// where the request asks for none.
#[verifier::external_body]
fn sts_presigned_url(credentials: &AwsCredentials, request: PresignRequest) -> (url: String)
    ensures
        is_presigned_sts_url(url@, request.validity_seconds),
{
    let signer = rusoto_core::credential::AwsCredentials::new(
        credentials.key.as_str(),
        credentials.secret.as_str(),
        credentials.token.clone(),
        None,
    );
    let mut headers = HashMap::new();
    headers.insert(request.header_name.as_str(), request.header_value.as_str());
    let validity = request.validity_seconds.map(std::time::Duration::from_secs);
    aws_auth_payload::client::presigned_url(&signer, request.region, headers, validity.as_ref())
}

/// Makes a presigned URL for a `GetCallerIdentity` request to STS, signed
/// with the credentials and bound to the cluster.
///
/// The region, where given, must name an AWS region, and the validity, where
/// given, must be an unsigned number of seconds; then the signer's URL is
/// returned, which encodes that validity.
pub fn generate_presigned_url(
    credentials: &AwsCredentials,
    cluster: &str,
    region: Option<&str>,
    expires_in: Option<&str>,
) -> (url: Result<String, Error>)
    ensures
        presign_outcome(option_str_view(region), option_str_view(expires_in), url),
        url matches Ok(u) ==> is_presigned_sts_url(
            u@,
            requested_validity(option_str_view(expires_in)),
        ),
{
    match presign_request(cluster, region, expires_in) {
        Ok(request) => Ok(sts_presigned_url(credentials, request)),
        Err(e) => Err(e),
    }
}

/// What every token for EKS starts with.
pub open spec fn eks_token_prefix() -> Seq<char> {
    "k8s-aws-v1."@
}

/// The token that stands for a presigned URL: the prefix, then the URL's
/// UTF-8 bytes in URL-safe base64 without padding.
pub open spec fn eks_token_of(url: Seq<char>) -> Seq<char> {
    eks_token_prefix() + base64_url_safe_no_pad(encode_utf8(url))
}

/// Whether a text has the shape of a token for EKS: the prefix, and after it
/// URL-safe base64 without padding.
pub open spec fn is_eks_token(token: Seq<char>) -> bool {
    &&& token.len() >= eks_token_prefix().len()
    &&& token.take(eks_token_prefix().len() as int) == eks_token_prefix()
    &&& is_url_safe_base64_no_pad(token.skip(eks_token_prefix().len() as int))
}

/// A token stands for one URL only: whoever decodes it gets the whole URL
/// back, unaltered.
pub proof fn lemma_eks_token_injective(first: Seq<char>, second: Seq<char>)
    requires
        eks_token_of(first) == eks_token_of(second),
    ensures
        first == second,
{
    let prefix = eks_token_prefix();
    let a = base64_url_safe_no_pad(encode_utf8(first));
    let b = base64_url_safe_no_pad(encode_utf8(second));
    assert((prefix + a).skip(prefix.len() as int) =~= a);
    assert((prefix + b).skip(prefix.len() as int) =~= b);
    lemma_base64_injective(encode_utf8(first), encode_utf8(second));
    vstd::utf8::encode_utf8_decode_utf8(first);
    vstd::utf8::encode_utf8_decode_utf8(second);
}

/// How long the token for a presigned URL is: the eleven characters of the
/// prefix, and the base64 of the URL's UTF-8 bytes.
pub open spec fn eks_token_len(url: Seq<char>) -> nat {
    11 + base64_no_pad_len(encode_utf8(url).len())
}

/// Encodes a presigned URL as a token for EKS.
pub fn eks_token(url: &str) -> (token: String)
    ensures
        token@ == eks_token_of(url@),
        token@.len() == eks_token_len(url@),
        is_eks_token(token@),
{
    let mut token = "k8s-aws-v1.".to_owned();
    append_base64_url_safe_no_pad(url, &mut token);
    proof {
        reveal_strlit("k8s-aws-v1.");
        let prefix = eks_token_prefix();
        let encoded = base64_url_safe_no_pad(encode_utf8(url@));
        lemma_base64_len(encode_utf8(url@));
        lemma_base64_valid(encode_utf8(url@));
        assert(token@.take(prefix.len() as int) =~= prefix);
        assert(token@.skip(prefix.len() as int) =~= encoded);
    }
    token
}

/// The `status` of an exec credential: the bearer token.
#[derive(Debug, PartialEq, Eq)]
pub struct EksCredentialStatus {
    pub token: String,
}

/// The exec-credential document that a Kubernetes client expects from a
/// credential plugin.
#[derive(Debug, PartialEq, Eq)]
pub struct EksCredential {
    pub kind: &'static str,
    pub api_version: &'static str,
    pub spec: HashMap<(), ()>,
    pub status: EksCredentialStatus,
}

/// The fixed `kind` of the document.
pub open spec fn exec_credential_kind() -> Seq<char> {
    "ExecCredential"@
}

/// The fixed `apiVersion` of the document.
pub open spec fn exec_credential_api_version() -> Seq<char> {
    "client.authentication.k8s.io/v1alpha1"@
}

impl EksCredential {
    /// The envelope is the fixed one, with nothing under `spec`.
    pub open spec fn is_envelope(&self) -> bool {
        &&& self.kind@ == exec_credential_kind()
        &&& self.api_version@ == exec_credential_api_version()
        &&& self.spec@ == Map::<(), ()>::empty()
    }

    /// The envelope is the fixed one and the token has the shape of a token
    /// for EKS.
    pub open spec fn wf(&self) -> bool {
        &&& self.is_envelope()
        &&& is_eks_token(self.status.token@)
    }

    /// Wraps a token into the fixed envelope.
    pub fn new(token: String) -> (credential: EksCredential)
        ensures
            credential.is_envelope(),
            credential.status.token == token,
    {
        EksCredential {
            kind: "ExecCredential",
            api_version: "client.authentication.k8s.io/v1alpha1",
            spec: HashMap::new(),
            status: EksCredentialStatus { token },
        }
    }

    /// The exec credential whose token stands for a presigned URL.
    pub fn from_presigned_url(url: &str) -> (credential: EksCredential)
        ensures
            credential.wf(),
            credential.status.token@ == eks_token_of(url@),
            credential.status.token@.len() == eks_token_len(url@),
    {
        EksCredential::new(eks_token(url))
    }
}

/// Whether an exec credential is the one for a presigned URL with a validity:
/// the URL is one that the signer gives for that validity, and the token is
/// the URL's encoding, whole and at its full length.
pub open spec fn encodes_presigned_url(
    credential: EksCredential,
    url: Seq<char>,
    validity_seconds: Option<u64>,
) -> bool {
    &&& is_presigned_sts_url(url, validity_seconds)
    &&& credential.status.token@ == eks_token_of(url)
    &&& credential.status.token@.len() == eks_token_len(url)
}

/// Whether an exec credential was minted for a validity: it is well formed,
/// and it encodes some presigned URL that the signer gives for that validity.
pub open spec fn minted_for(credential: EksCredential, validity_seconds: Option<u64>) -> bool {
    &&& credential.wf()
    &&& exists|url: Seq<char>| #[trigger] encodes_presigned_url(credential, url, validity_seconds)
}

/// Mints the exec credential for a cluster: a `GetCallerIdentity` request is
/// presigned with the credentials, and the URL becomes the token.
///
/// Fails exactly where `generate_presigned_url` does, with its error.
pub fn get_eks_token(
    credentials: &AwsCredentials,
    cluster: &str,
    region: Option<&str>,
    expires_in: Option<&str>,
) -> (credential: Result<EksCredential, Error>)
    ensures
        presign_outcome(option_str_view(region), option_str_view(expires_in), credential),
        credential matches Ok(c) ==> minted_for(c, requested_validity(option_str_view(expires_in))),
{
    match generate_presigned_url(credentials, cluster, region, expires_in) {
        Ok(url) => {
            let credential = EksCredential::from_presigned_url(url.as_str());
            assert(encodes_presigned_url(
                credential,
                url@,
                requested_validity(option_str_view(expires_in)),
            ));
            Ok(credential)
        },
        Err(e) => Err(e),
    }
}

} // verus!
