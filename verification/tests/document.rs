use vault_kube_creds::gcp::WireInteger;
use vault_kube_creds::{EksCredential, GcpAccessToken};

fn eks_document(credential: &EksCredential) -> serde_json::Value {
    let mut status = serde_json::Map::new();
    status.insert("token".to_string(), serde_json::Value::from(credential.status.token.as_str()));
    let mut document = serde_json::Map::new();
    document.insert("kind".to_string(), serde_json::Value::from(credential.kind));
    document.insert("apiVersion".to_string(), serde_json::Value::from(credential.api_version));
    document.insert("spec".to_string(), serde_json::Value::Object(serde_json::Map::new()));
    document.insert("status".to_string(), serde_json::Value::Object(status));
    serde_json::Value::Object(document)
}

#[test]
fn exec_credential_survives_a_round_trip() {
    for url in ["https://sts.amazonaws.com/?a=b", "", "\"quoted\" \\ \u{e9}\n"] {
        let credential = EksCredential::from_presigned_url(url);
        let text = serde_json::to_string_pretty(&eks_document(&credential)).unwrap();
        let read: serde_json::Value = serde_json::from_str(&text).unwrap();
        assert_eq!(read["kind"].as_str(), Some(credential.kind));
        assert_eq!(read["apiVersion"].as_str(), Some(credential.api_version));
        assert_eq!(read["status"]["token"].as_str(), Some(credential.status.token.as_str()));
        assert_eq!(read["kind"].as_str(), Some("ExecCredential"));
        assert_eq!(read["apiVersion"].as_str(), Some("client.authentication.k8s.io/v1alpha1"));
    }
}

#[test]
fn access_token_goes_out_without_its_time_to_live() {
    let token =
        GcpAccessToken::from_broker(WireInteger::Signed(0), "ya29.token".to_string(), 3599)
            .unwrap();
    let mut document = serde_json::Map::new();
    document.insert("token_expiry".to_string(), serde_json::Value::from(token.expiry.as_str()));
    document.insert("token".to_string(), serde_json::Value::from(token.token.as_str()));
    let text = serde_json::to_string_pretty(&serde_json::Value::Object(document)).unwrap();
    let read: serde_json::Value = serde_json::from_str(&text).unwrap();
    assert_eq!(read["token_expiry"].as_str(), Some("1970-01-01T00:00:00Z"));
    assert_eq!(read["token"].as_str(), Some("ya29.token"));
    assert!(read.get("token_ttl").is_none());
}
