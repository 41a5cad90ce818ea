use sidecar_lifecycle::codec::{decode, encode};
use sidecar_lifecycle::credentials::AwsCredentials;

fn rec(akid: &str, sak: &str, region: &str, token: Option<&str>) -> AwsCredentials {
    AwsCredentials {
        access_key_id: String::from(akid),
        secret_access_key: String::from(sak),
        region: String::from(region),
        session_token: token.map(String::from),
    }
}

#[test]
fn encode_without_token_is_canonical() {
    let r = rec("AKIA123", "s3cret", "us-east-1", None);
    assert_eq!(
        encode(&r),
        "{\"access_key_id\":\"AKIA123\",\"secret_access_key\":\"s3cret\",\"region\":\"us-east-1\",\"session_token\":null}"
    );
}

#[test]
fn encode_with_token_is_canonical() {
    let r = rec("AKIA123", "s3cret", "eu-west-2", Some("tok"));
    assert_eq!(
        encode(&r),
        "{\"access_key_id\":\"AKIA123\",\"secret_access_key\":\"s3cret\",\"region\":\"eu-west-2\",\"session_token\":\"tok\"}"
    );
}

#[test]
fn encode_escapes_quotes_and_backslashes() {
    let r = rec("a\"b", "c\\d", "r", None);
    assert_eq!(
        encode(&r),
        "{\"access_key_id\":\"a\\\"b\",\"secret_access_key\":\"c\\\\d\",\"region\":\"r\",\"session_token\":null}"
    );
}

#[test]
fn round_trip_without_token() {
    let r = rec("AKIAEXAMPLE", "wJalrXUtnFEMI", "us-east-1", None);
    assert_eq!(decode(&encode(&r)), Some(rec("AKIAEXAMPLE", "wJalrXUtnFEMI", "us-east-1", None)));
}

#[test]
fn round_trip_with_token() {
    let r = rec("id", "key", "ap-south-1", Some("session-token"));
    assert_eq!(decode(&encode(&r)), Some(rec("id", "key", "ap-south-1", Some("session-token"))));
}

#[test]
fn round_trip_with_escapes() {
    let r = rec("a\"b\\c", "\\\\", "\"", Some("t\"\\"));
    assert_eq!(decode(&encode(&r)), Some(rec("a\"b\\c", "\\\\", "\"", Some("t\"\\"))));
}

#[test]
fn round_trip_empty_fields() {
    let r = rec("", "", "", Some(""));
    assert_eq!(decode(&encode(&r)), Some(rec("", "", "", Some(""))));
}

#[test]
fn decode_rejects_garbage() {
    assert_eq!(decode(""), None);
    assert_eq!(decode("not a record"), None);
    assert_eq!(decode("{}"), None);
    assert_eq!(decode("{\"access_key_id\":\"a\"}"), None);
}

#[test]
fn decode_rejects_unterminated_value() {
    assert_eq!(decode("{\"access_key_id\":\"abc"), None);
}

#[test]
fn decode_rejects_trailing_garbage() {
    let r = rec("a", "b", "c", None);
    let mut blob = encode(&r);
    blob.push(' ');
    assert_eq!(decode(&blob), None);
}

#[test]
fn decode_rejects_whitespace_variant() {
    // Only the canonical spacing is accepted; anything else reads as absent.
    assert_eq!(
        decode(
            "{ \"access_key_id\": \"a\", \"secret_access_key\": \"b\", \"region\": \"c\", \"session_token\": null }"
        ),
        None
    );
}

#[test]
fn decode_rejects_bad_escape() {
    assert_eq!(
        decode(
            "{\"access_key_id\":\"a\\nb\",\"secret_access_key\":\"b\",\"region\":\"c\",\"session_token\":null}"
        ),
        None
    );
}
