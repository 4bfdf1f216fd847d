use vault_kube_creds::credential::CredentialType;
use vault_kube_creds::{Error, IntErrorKind};

#[test]
fn upper_case_name_is_read() {
    assert_eq!(CredentialType::from_str("EKS").unwrap(), CredentialType::Eks);
}

#[test]
fn unknown_name_is_refused() {
    assert!(matches!(CredentialType::from_str("foo"), Err(Error::InvalidCredentialType)));
}

#[test]
fn each_type_is_read_in_any_case() {
    assert_eq!(CredentialType::from_str("gke").unwrap(), CredentialType::Gke);
    assert_eq!(CredentialType::from_str("Gke").unwrap(), CredentialType::Gke);
    assert_eq!(CredentialType::from_str("eks").unwrap(), CredentialType::Eks);
    assert_eq!(CredentialType::from_str("eKs").unwrap(), CredentialType::Eks);
    assert_eq!(CredentialType::from_str("gcp").unwrap(), CredentialType::Gcp);
    assert_eq!(CredentialType::from_str("GCP").unwrap(), CredentialType::Gcp);
}

#[test]
fn near_misses_are_refused() {
    for name in ["", " eks", "eks ", "ek", "ekss", "aws", "gke,eks"] {
        assert!(
            matches!(CredentialType::from_str(name), Err(Error::InvalidCredentialType)),
            "for {:?}",
            name
        );
    }
}

#[test]
fn lower_case_reader_takes_lower_case_only() {
    assert_eq!(CredentialType::from_lowercase("eks").unwrap(), CredentialType::Eks);
    assert_eq!(CredentialType::from_lowercase("gke").unwrap(), CredentialType::Gke);
    assert_eq!(CredentialType::from_lowercase("gcp").unwrap(), CredentialType::Gcp);
    assert!(matches!(CredentialType::from_lowercase("EKS"), Err(Error::InvalidCredentialType)));
}

#[test]
fn only_backend_credentials_need_a_path() {
    assert!(CredentialType::Gke.needs_path());
    assert!(CredentialType::Eks.needs_path());
    assert!(!CredentialType::Gcp.needs_path());
}

#[test]
fn fixed_messages() {
    assert_eq!(Error::InvalidCredentialType.message(), "Invalid Credential Type");
    assert_eq!(Error::InvalidVaultPath.message(), "Vault credentials path is invalid");
    assert_eq!(
        Error::ParseIntError(IntErrorKind::InvalidDigit).message(),
        "Error parsing integer: invalid digit found in string"
    );
    assert_eq!(
        Error::ParseIntError(IntErrorKind::Empty).message(),
        "Error parsing integer: cannot parse integer from empty string"
    );
    assert_eq!(Error::TimestampOutOfRange.message(), "Timestamp is out of range");
}
