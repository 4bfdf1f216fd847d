use vault_kube_creds::output::{output_target, OutputTarget};
use vault_kube_creds::{read_token, Error};

#[test]
fn write_adds_the_whole_document() {
    let mut sink: Vec<u8> = Vec::new();
    vault_kube_creds::output::write(&mut sink, "{\n  \"token\": \"abc\"\n}").unwrap();
    assert_eq!(sink, b"{\n  \"token\": \"abc\"\n}".to_vec());
}

#[test]
fn write_keeps_what_the_sink_held() {
    let mut sink: Vec<u8> = b"first;".to_vec();
    vault_kube_creds::output::write(&mut sink, "second \u{e9}").unwrap();
    assert_eq!(sink, "first;second \u{e9}".as_bytes().to_vec());
    vault_kube_creds::output::write(&mut sink, "").unwrap();
    assert_eq!(sink, "first;second \u{e9}".as_bytes().to_vec());
}

#[test]
fn token_is_read_as_it_stands() {
    assert_eq!(read_token(b"s.abcdef".to_vec()).unwrap(), "s.abcdef");
    assert_eq!(read_token(b"s.abcdef\n".to_vec()).unwrap(), "s.abcdef\n");
    assert_eq!(read_token(Vec::new()).unwrap(), "");
    assert_eq!(read_token("cl\u{e9}".as_bytes().to_vec()).unwrap(), "cl\u{e9}");
}

#[test]
fn token_that_is_no_utf8_is_refused() {
    assert!(matches!(read_token(vec![0xff, 0xfe]), Err(Error::Utf8Error(_))));
    assert!(matches!(read_token(vec![b'a', 0xc3]), Err(Error::Utf8Error(_))));
    assert!(matches!(read_token(vec![0xed, 0xa0, 0x80]), Err(Error::Utf8Error(_))));
    assert!(matches!(read_token(vec![0xc0, 0x80]), Err(Error::Utf8Error(_))));
}

#[test]
fn utf8_error_message_names_the_cause() {
    let error = read_token(vec![0xff]).unwrap_err();
    let message = error.message();
    assert!(message.starts_with("Error converting bytes to UTF-8: "));
    assert!(message.len() > "Error converting bytes to UTF-8: ".len());
}

#[test]
fn dash_is_standard_output() {
    assert!(matches!(output_target("-"), OutputTarget::Stdout));
}

#[test]
fn every_other_path_is_a_file() {
    for path in ["out.json", "", "--", "- ", "/tmp/-", "./-"] {
        match output_target(path) {
            OutputTarget::File(p) => assert_eq!(p, path),
            OutputTarget::Stdout => panic!("{:?} is a file", path),
        }
    }
}
