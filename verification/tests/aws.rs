use vault_kube_creds::aws::{
    credentials_from_lease, credentials_from_lease_at, eks_token, expiry_warnings,
    generate_presigned_url, get_eks_token, parse_expiry, presign_request, AwsCredentials,
    AwsLeaseCredentials, ExpiryWarning,
};
use vault_kube_creds::time::LAST_CALENDAR_SECOND;
use vault_kube_creds::{EksCredential, EksCredentialStatus, Error, Instant, IntErrorKind};

fn aws_credentials() -> AwsCredentials {
    AwsCredentials {
        key: "AKIDEXAMPLE".to_string(),
        secret: "wJalrXUtnFEMI/K7MDENG+bPxRfiCYEXAMPLEKEY".to_string(),
        token: None,
        expires_at: None,
    }
}

fn lease(security_token: Option<&str>, lease_duration: u64) -> AwsLeaseCredentials {
    AwsLeaseCredentials {
        access_key: "AKIDEXAMPLE".to_string(),
        secret_key: "secret".to_string(),
        security_token: security_token.map(|t| t.to_string()),
        lease_duration,
    }
}

fn query_of(url: &str) -> std::collections::HashMap<String, String> {
    let url = url::Url::parse(url).unwrap();
    url.query_pairs().map(|(k, v)| (k.to_string(), v.to_string())).collect()
}

#[test]
fn presigned_url_is_valid() {
    let aws_credentials = aws_credentials();
    let url = generate_presigned_url(&aws_credentials, "foobar", None, None).unwrap();

    // The request that the URL stands for is one that STS takes: signed, for
    // `GetCallerIdentity`, with the header `x-k8s-aws-id` among what is signed.
    let parsed = url::Url::parse(&url).unwrap();
    assert_eq!(parsed.scheme(), "https");
    assert!(parsed.host_str().unwrap().starts_with("sts."));
    let query = query_of(&url);
    assert_eq!(query["Action"], "GetCallerIdentity");
    assert_eq!(query["Version"], "2011-06-15");
    assert_eq!(query["X-Amz-Algorithm"], "AWS4-HMAC-SHA256");
    assert_eq!(query["X-Amz-SignedHeaders"], "host;x-k8s-aws-id");
    assert!(query["X-Amz-Credential"].starts_with("AKIDEXAMPLE/"));
    assert_eq!(query["X-Amz-Signature"].len(), 64);
    assert!(query.contains_key("X-Amz-Date"));
}

#[test]
fn can_create_aws_token() {
    let aws_credentials = aws_credentials();
    let _ = get_eks_token(&aws_credentials, "test", None, None).unwrap();
}

#[test]
fn presigned_url_encodes_the_validity() {
    let url = generate_presigned_url(&aws_credentials(), "foobar", Some("us-east-1"), Some("900"))
        .unwrap();
    assert_eq!(query_of(&url)["X-Amz-Expires"], "900");
    let url =
        generate_presigned_url(&aws_credentials(), "foobar", Some("us-east-1"), None).unwrap();
    assert_eq!(query_of(&url)["X-Amz-Expires"], "60");
}

#[test]
fn presigned_url_is_for_the_region() {
    let url =
        generate_presigned_url(&aws_credentials(), "foobar", Some("eu-west-2"), None).unwrap();
    assert_eq!(url::Url::parse(&url).unwrap().host_str(), Some("sts.eu-west-2.amazonaws.com"));
    let url =
        generate_presigned_url(&aws_credentials(), "foobar", Some("EU-West-2"), None).unwrap();
    assert_eq!(url::Url::parse(&url).unwrap().host_str(), Some("sts.eu-west-2.amazonaws.com"));
}

#[test]
fn presigned_url_carries_the_session_token() {
    let mut credentials = aws_credentials();
    credentials.token = Some("tok".to_string());
    let url = generate_presigned_url(&credentials, "foobar", Some("us-east-1"), None).unwrap();
    assert_eq!(query_of(&url)["X-Amz-Security-Token"], "tok");
    let url =
        generate_presigned_url(&aws_credentials(), "foobar", Some("us-east-1"), None).unwrap();
    assert!(!query_of(&url).contains_key("X-Amz-Security-Token"));
}

#[test]
fn unknown_region_is_refused() {
    let refused = generate_presigned_url(&aws_credentials(), "foobar", Some("mars-1"), None);
    assert!(matches!(refused, Err(Error::InvalidAwsRegion(_))));
    let refused = get_eks_token(&aws_credentials(), "test", Some(""), None);
    assert!(matches!(refused, Err(Error::InvalidAwsRegion(_))));
}

#[test]
fn validity_that_is_no_number_is_refused() {
    for validity in ["", "soon", "-60", "60s", "1.5", "18446744073709551616"] {
        let refused =
            generate_presigned_url(&aws_credentials(), "foobar", None, Some(validity));
        assert!(matches!(refused, Err(Error::ParseIntError(_))), "for {:?}", validity);
        let refused = get_eks_token(&aws_credentials(), "test", Some("us-east-1"), Some(validity));
        assert!(matches!(refused, Err(Error::ParseIntError(_))), "for {:?}", validity);
    }
}

#[test]
fn refused_validity_says_why() {
    let refused = generate_presigned_url(&aws_credentials(), "foobar", None, Some(""));
    assert!(matches!(refused, Err(Error::ParseIntError(IntErrorKind::Empty))));
    let refused = generate_presigned_url(&aws_credentials(), "foobar", None, Some("soon"));
    assert!(matches!(refused, Err(Error::ParseIntError(IntErrorKind::InvalidDigit))));
    let refused =
        generate_presigned_url(&aws_credentials(), "foobar", None, Some("18446744073709551616"));
    assert!(matches!(refused, Err(Error::ParseIntError(IntErrorKind::PosOverflow))));
    assert_eq!(
        refused.unwrap_err().message(),
        "Error parsing integer: number too large to fit in target type"
    );
}

#[test]
fn presigned_url_says_what_it_asks_and_for_how_long() {
    for (validity, encoded) in [
        (None, "X-Amz-Expires=60&"),
        (Some("0"), "X-Amz-Expires=0&"),
        (Some("+7"), "X-Amz-Expires=7&"),
        (Some("0900"), "X-Amz-Expires=900&"),
        (Some("18446744073709551615"), "X-Amz-Expires=18446744073709551615&"),
    ] {
        let url = generate_presigned_url(&aws_credentials(), "foobar", Some("us-east-1"), validity)
            .unwrap();
        assert!(!url.is_empty());
        assert!(url.contains("Action=GetCallerIdentity"), "in {}", url);
        assert!(url.contains(encoded), "{} in {}", encoded, url);
    }
}

#[test]
fn minted_token_is_as_long_as_its_url_calls_for() {
    let credential =
        get_eks_token(&aws_credentials(), "test", Some("us-east-1"), Some("900")).unwrap();
    let token = &credential.status.token;
    let url = String::from_utf8(
        base64::decode_config(&token[11..], base64::URL_SAFE_NO_PAD).unwrap(),
    )
    .unwrap();
    assert_eq!(token.len(), 11 + (4 * url.len() + 2) / 3);
    assert!(url.contains("Action=GetCallerIdentity"));
    assert!(url.contains("X-Amz-Expires=900&"));
    assert_eq!(EksCredential::from_presigned_url(&url).status.token, *token);
}

#[test]
fn lease_of_an_ordinary_duration_always_gives_credentials() {
    for duration in [0, 1, 900, u32::MAX as u64, i64::MAX as u64 - LAST_CALENDAR_SECOND as u64] {
        let credentials = credentials_from_lease(lease(Some("tok"), duration)).unwrap();
        assert!(credentials.expires_at.is_some());
    }
}

#[test]
fn region_is_looked_at_before_validity() {
    let refused = generate_presigned_url(&aws_credentials(), "foobar", Some("mars-1"), Some("x"));
    assert!(matches!(refused, Err(Error::InvalidAwsRegion(_))));
}

#[test]
fn region_error_message_names_the_cause() {
    let error =
        generate_presigned_url(&aws_credentials(), "foobar", Some("Mars-1"), None).unwrap_err();
    assert_eq!(error.message(), "Invalid AWS Region: Not a valid AWS region: mars-1");
}

#[test]
fn presign_request_holds_what_is_signed() {
    let request = presign_request("foobar", Some("us-west-2"), Some("+120")).unwrap();
    assert_eq!(request.header_name, "x-k8s-aws-id");
    assert_eq!(request.header_value, "foobar");
    assert_eq!(request.validity_seconds, Some(120));
    assert_eq!(request.region, Some(rusoto_core::Region::UsWest2));
    let request = presign_request("", None, None).unwrap();
    assert_eq!(request.header_name, "x-k8s-aws-id");
    assert_eq!(request.header_value, "");
    assert_eq!(request.validity_seconds, None);
    assert_eq!(request.region, None);
}

#[test]
fn expiry_is_read_as_seconds() {
    assert_eq!(parse_expiry(None).unwrap(), None);
    assert_eq!(parse_expiry(Some("0")).unwrap(), Some(0));
    assert_eq!(parse_expiry(Some("59")).unwrap(), Some(59));
    assert!(matches!(
        parse_expiry(Some("one")),
        Err(Error::ParseIntError(IntErrorKind::InvalidDigit))
    ));
}

#[test]
fn warnings_depend_on_the_validity() {
    assert_eq!(expiry_warnings(None), vec![]);
    assert_eq!(
        expiry_warnings(Some(0)),
        vec![ExpiryWarning::FixedValidityWindow, ExpiryWarning::ShortExpiry]
    );
    assert_eq!(
        expiry_warnings(Some(59)),
        vec![ExpiryWarning::FixedValidityWindow, ExpiryWarning::ShortExpiry]
    );
    assert_eq!(expiry_warnings(Some(60)), vec![ExpiryWarning::FixedValidityWindow]);
    assert_eq!(expiry_warnings(Some(u64::MAX)), vec![ExpiryWarning::FixedValidityWindow]);
}

#[test]
fn warnings_have_their_words() {
    assert!(ExpiryWarning::FixedValidityWindow.message().contains("valid for 15 minutes"));
    assert!(ExpiryWarning::ShortExpiry.message().contains("less than 60 seconds"));
}

#[test]
fn short_validity_still_gives_a_token() {
    let credential = get_eks_token(&aws_credentials(), "test", Some("us-east-1"), Some("5")).unwrap();
    assert!(credential.status.token.starts_with("k8s-aws-v1."));
}

#[test]
fn token_is_prefix_and_base64_of_the_url() {
    let url = "https://sts.amazonaws.com/?Action=GetCallerIdentity&Version=2011-06-15";
    let token = eks_token(url);
    assert_eq!(
        token,
        "k8s-aws-v1.aHR0cHM6Ly9zdHMuYW1hem9uYXdzLmNvbS8_QWN0aW9uPUdldENhbGxlcklkZW50aXR5JlZlcnNpb249MjAxMS0wNi0xNQ"
    );
    let encoded = token.strip_prefix("k8s-aws-v1.").unwrap();
    let decoded = base64::decode_config(encoded, base64::URL_SAFE_NO_PAD).unwrap();
    assert_eq!(decoded, url.as_bytes());
}

#[test]
fn token_has_no_padding_and_a_url_safe_alphabet() {
    for url in ["", "a", "ab", "abc", "abcd", "\u{fb}\u{ff}", "???>>>", "https://x/?a=b&c=d"] {
        let token = eks_token(url);
        let encoded = token.strip_prefix("k8s-aws-v1.").unwrap();
        assert!(encoded.chars().all(|c| c.is_ascii_alphanumeric() || c == '-' || c == '_'));
        assert_ne!(encoded.len() % 4, 1);
        let bytes = url.len();
        assert_eq!(encoded.len(), bytes / 3 * 4 + [0, 2, 3][bytes % 3]);
        assert_eq!(
            base64::decode_config(encoded, base64::URL_SAFE_NO_PAD).unwrap(),
            url.as_bytes()
        );
    }
}

#[test]
fn minted_token_decodes_to_a_presigned_url() {
    let credential =
        get_eks_token(&aws_credentials(), "test", Some("us-east-1"), Some("60")).unwrap();
    assert_eq!(credential.kind, "ExecCredential");
    assert_eq!(credential.api_version, "client.authentication.k8s.io/v1alpha1");
    assert!(credential.spec.is_empty());
    let encoded = credential.status.token.strip_prefix("k8s-aws-v1.").unwrap();
    let url = String::from_utf8(base64::decode_config(encoded, base64::URL_SAFE_NO_PAD).unwrap())
        .unwrap();
    assert!(url.starts_with("https://sts.us-east-1.amazonaws.com/?"));
    assert_eq!(query_of(&url)["X-Amz-SignedHeaders"], "host;x-k8s-aws-id");
}

#[test]
fn envelope_is_fixed() {
    let credential = EksCredential::new("k8s-aws-v1.abc".to_string());
    assert_eq!(
        credential,
        EksCredential {
            kind: "ExecCredential",
            api_version: "client.authentication.k8s.io/v1alpha1",
            spec: std::collections::HashMap::new(),
            status: EksCredentialStatus { token: "k8s-aws-v1.abc".to_string() },
        }
    );
    let credential = EksCredential::from_presigned_url("abc");
    assert_eq!(credential.status.token, "k8s-aws-v1.YWJj");
}

#[test]
fn lease_with_session_token_expires_with_the_lease() {
    let now = Instant { secs: 1_600_000_000, nanos: 250_000_000 };
    let credentials = credentials_from_lease_at(lease(Some("tok"), 900), now).unwrap();
    assert_eq!(credentials.expires_at, Some(Instant { secs: 1_600_000_900, nanos: 250_000_000 }));
    assert_eq!(credentials.key, "AKIDEXAMPLE");
    assert_eq!(credentials.secret, "secret");
    assert_eq!(credentials.token, Some("tok".to_string()));
}

#[test]
fn lease_without_session_token_never_expires() {
    let now = Instant { secs: 1_600_000_000, nanos: 0 };
    let credentials = credentials_from_lease_at(lease(None, 900), now).unwrap();
    assert_eq!(credentials.expires_at, None);
    assert_eq!(credentials.token, None);
    let credentials = credentials_from_lease_at(lease(None, u64::MAX), now).unwrap();
    assert_eq!(credentials.expires_at, None);
}

#[test]
fn lease_of_no_duration_expires_at_once() {
    let now = Instant { secs: -5, nanos: 7 };
    let credentials = credentials_from_lease_at(lease(Some("tok"), 0), now).unwrap();
    assert_eq!(credentials.expires_at, Some(now));
}

#[test]
fn lease_beyond_the_last_second_is_refused() {
    let now = Instant { secs: 1, nanos: 0 };
    let refused = credentials_from_lease_at(lease(Some("tok"), i64::MAX as u64), now);
    assert!(matches!(refused, Err(Error::TimestampOutOfRange)));
    let last = credentials_from_lease_at(lease(Some("tok"), i64::MAX as u64 - 1), now).unwrap();
    assert_eq!(last.expires_at, Some(Instant { secs: i64::MAX, nanos: 0 }));
    let early = Instant { secs: i64::MIN, nanos: 0 };
    let far = credentials_from_lease_at(lease(Some("tok"), u64::MAX), early).unwrap();
    assert_eq!(far.expires_at, Some(Instant { secs: i64::MAX, nanos: 0 }));
}

#[test]
fn lease_read_now_counts_from_the_clock() {
    let before = chrono::Utc::now().timestamp();
    let credentials = credentials_from_lease(lease(Some("tok"), 900)).unwrap();
    let after = chrono::Utc::now().timestamp();
    let expiry = credentials.expires_at.unwrap();
    assert!(before + 900 <= expiry.secs && expiry.secs <= after + 900);
    assert!(expiry.nanos < 1_000_000_000);
    let credentials = credentials_from_lease(lease(None, 900)).unwrap();
    assert_eq!(credentials.expires_at, None);
}
