use dnscore::crypto::{hmac_sha1, hmac_sha256, sha256};
use dnscore::encoding::{base64_encode, hex_encode, percent_encode};
use dnscore::providers::aliyun;
use dnscore::providers::baidu;
use dnscore::providers::dnscom;
use dnscore::providers::tencentcloud;
use dnscore::strings::{i64_to_string, join_strings, parse_uint, split_on_str, split_ws_str,
    trim_str, u64_to_string};

#[test]
fn percent_encoding_keeps_unreserved_and_escapes_the_rest() {
    assert_eq!(percent_encode("hello world/+*~"), "hello%20world%2F%2B%2A~");
    assert_eq!(percent_encode("AZaz09-._~"), "AZaz09-._~");
    assert_eq!(percent_encode("2024-01-02T03:04:05Z"), "2024-01-02T03%3A04%3A05Z");
}

#[test]
fn hex_encoding_is_lowercase_two_digits_per_byte() {
    assert_eq!(hex_encode(&[0x00, 0xff, 0x1a]), "00ff1a");
    assert_eq!(hex_encode(&[]), "");
}

#[test]
fn base64_encoding_uses_the_padded_standard_alphabet() {
    assert_eq!(base64_encode(b"hello"), "aGVsbG8=");
    assert_eq!(base64_encode(b""), "");
    assert_eq!(base64_encode(&[0xfb, 0xff]), "+/8=");
}

#[test]
fn sha256_has_the_known_empty_digest() {
    assert_eq!(
        hex_encode(&sha256(b"")),
        "e3b0c44298fc1c149afbf4c8996fb92427ae41e4649b934ca495991b7852b855"
    );
}

#[test]
fn hmac_sha256_matches_the_reference_vector() {
    // RFC 4231 test case 2
    assert_eq!(
        hex_encode(&hmac_sha256(b"Jefe", b"what do ya want for nothing?")),
        "5bdcc146bf60754e6a042426089575c75a003f089d2739839dec58b964ec3843"
    );
}

#[test]
fn hmac_sha1_matches_the_reference_vector() {
    // RFC 2202 test case 2
    assert_eq!(
        hex_encode(&hmac_sha1(b"Jefe", b"what do ya want for nothing?")),
        "effcdf6ae5eb2fa2d27416d5f184df9c259a7c79"
    );
}

#[test]
fn query_signing_produces_the_expected_signature() {
    let params = aliyun::describe_domains_params("testid", "abc123", "2024-01-02T03:04:05Z");
    let canonical = aliyun::canonical_query(&params);
    assert_eq!(
        canonical,
        "AccessKeyId=testid&Action=DescribeDomains&Format=JSON&PageSize=500&SignatureMethod=HMAC-SHA1&SignatureNonce=abc123&SignatureVersion=1.0&Timestamp=2024-01-02T03%3A04%3A05Z&Version=2015-01-09"
    );
    let sig = aliyun::sign_params(&params, "testsecret");
    assert_eq!(sig, "2/vs38kw9nNHbmtw8x7Ru6Vzg84=");
}

#[test]
fn form_signing_produces_the_expected_signature() {
    let params = dnscom::list_domains_params("k1", 1_700_000_000);
    let sig = dnscom::sign_params("s1", "GET", "/domain/lists/", &params);
    assert_eq!(sig, "f7c491e9c66fc70ff401e7a277c85300c50ac2d72f87b58c1cfccf90206da6a2");
}

#[test]
fn header_signing_produces_the_expected_authorization() {
    let ts = "2024-01-02T03:04:05Z";
    let query: Vec<(String, String)> = Vec::new();
    let headers = baidu::signed_headers(ts);
    let auth = baidu::sign("ak", "sk", "GET", "/v1/zone", &query, &headers, ts);
    assert_eq!(
        auth,
        "bce-auth-v1/ak/2024-01-02T03:04:05Z/1800//host;x-bce-date/f7c8ef991b8935513f9c4f94b1e47b3acb3eb8281a6082781b9b2c405a1c6a92"
    );
}

#[test]
fn derived_key_signing_produces_the_expected_authorization() {
    let auth = tencentcloud::authorization(
        "secretid",
        "secretkey",
        1_700_000_000,
        "2023-11-14",
        "{\"Limit\":200,\"Offset\":0}",
    );
    assert_eq!(
        auth,
        "TC3-HMAC-SHA256 Credential=secretid/2023-11-14/dnspod/tc3_request, SignedHeaders=content-type;host, Signature=996245d583945bc49b1d369a85fcc940e03663a1011b7f5788b1f2b0ff84979e"
    );
}

#[test]
fn decimal_rendering_matches_display() {
    assert_eq!(u64_to_string(0), "0");
    assert_eq!(u64_to_string(65535), "65535");
    assert_eq!(u64_to_string(u64::MAX), format!("{}", u64::MAX));
    assert_eq!(i64_to_string(-1), "-1");
    assert_eq!(i64_to_string(i64::MIN), format!("{}", i64::MIN));
    assert_eq!(i64_to_string(1_700_000_000), "1700000000");
}

#[test]
fn uint_parsing_follows_the_standard_rules() {
    assert_eq!(parse_uint("123", u64::MAX as u64), Some(123));
    assert_eq!(parse_uint("+7", 255), Some(7));
    assert_eq!(parse_uint("256", 255), None);
    assert_eq!(parse_uint("", 255), None);
    assert_eq!(parse_uint("+", 255), None);
    assert_eq!(parse_uint("-1", 255), None);
    assert_eq!(parse_uint("12a", 255), None);
    assert_eq!(parse_uint("18446744073709551615", u64::MAX), Some(u64::MAX));
    assert_eq!(parse_uint("18446744073709551616", u64::MAX), None);
}

#[test]
fn splitting_and_joining_match_the_standard_behaviour() {
    assert_eq!(split_on_str("a.b..c", '.'), vec!["a", "b", "", "c"]);
    assert_eq!(split_on_str("", '.'), vec![""]);
    assert_eq!(split_ws_str("  a  b\tc "), vec!["a", "b", "c"]);
    assert_eq!(split_ws_str("   "), Vec::<String>::new());
    let parts = vec!["a".to_string(), "b".to_string(), "c".to_string()];
    assert_eq!(join_strings(&parts, " "), "a b c");
    assert_eq!(trim_str("  x y  "), "x y");
}
