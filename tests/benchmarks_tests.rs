use base64::Engine;
use benchmarks::assemble::{BenchmarkUpdates, PriceFeedsWithUpdateData};
use benchmarks::codec::{decode_item, identifier_text, BinaryBlob, BlobDecodeError, BlobEncoding};
use benchmarks::request::{
    decimal_string, finish_request, plan_request, BenchmarksError, BenchmarksResponse, REQUEST_TIMEOUT_SECS,
};
use pyth_sdk::{Price, PriceFeed, PriceIdentifier};

fn feed(tag: u8, price: i64) -> PriceFeed {
    let p = Price { price, conf: 7, expo: -8, publish_time: 1_690_000_000 };
    PriceFeed::new(PriceIdentifier::new([tag; 32]), p, p)
}

fn blob(encoding: BlobEncoding, data: &[&str]) -> BinaryBlob {
    BinaryBlob { encoding, data: data.iter().map(|s| s.to_string()).collect() }
}

fn assembled(parsed: Vec<PriceFeed>, binary: BinaryBlob) -> PriceFeedsWithUpdateData {
    BenchmarkUpdates { parsed, binary }.assemble().unwrap()
}

#[test]
fn hex_round_trip_gives_lower_case() {
    let text = "00112233445566778899AABBCCDDEEFFaabbccddeeff00112233445566778899";
    let bytes = decode_item(BlobEncoding::Hex, text).unwrap();
    assert_eq!(bytes.len(), 32);
    assert_eq!(bytes[9], 0x99);
    assert_eq!(bytes[10], 0xAA);
    let mut id = [0u8; 32];
    id.copy_from_slice(&bytes);
    assert_eq!(identifier_text(&id), text.to_lowercase());
}

#[test]
fn identifier_text_is_lower_hex() {
    let mut id = [0u8; 32];
    id[0] = 0xAB;
    id[31] = 0x01;
    let text = identifier_text(&id);
    assert_eq!(text.len(), 64);
    assert!(text.starts_with("ab00"));
    assert!(text.ends_with("0001"));
}

#[test]
fn base64_round_trip() {
    for text in ["aGVsbG8=", "aGk=", "AAECAwQ=", "", "/+8="] {
        let bytes = decode_item(BlobEncoding::Base64, text).unwrap();
        assert_eq!(base64::engine::general_purpose::STANDARD.encode(&bytes), text);
    }
    assert_eq!(decode_item(BlobEncoding::Base64, "aGVsbG8="), Some(b"hello".to_vec()));
}

#[test]
fn base64_rejects_bad_padding_and_characters() {
    assert_eq!(decode_item(BlobEncoding::Base64, "aGVsbG8"), None);
    assert_eq!(decode_item(BlobEncoding::Base64, "aG*sbG8="), None);
    assert_eq!(decode_item(BlobEncoding::Base64, "aGk"), None);
}

#[test]
fn hex_rejects_odd_length_and_bad_digits() {
    assert_eq!(decode_item(BlobEncoding::Hex, "abc"), None);
    assert_eq!(decode_item(BlobEncoding::Hex, "zz"), None);
    assert_eq!(decode_item(BlobEncoding::Hex, ""), Some(vec![]));
}

#[test]
fn empty_blob_decodes_to_nothing() {
    assert_eq!(blob(BlobEncoding::Hex, &[]).decode(), Ok(vec![]));
    assert_eq!(blob(BlobEncoding::Base64, &[]).decode(), Ok(vec![]));
}

#[test]
fn malformed_item_fails_whole_blob() {
    let r = blob(BlobEncoding::Hex, &["aabb", "ccdd", "c g0"]).decode();
    assert_eq!(r, Err(BlobDecodeError { index: 2 }));
    let r = blob(BlobEncoding::Base64, &["aGk=", "a*==", "!!"]).decode();
    assert_eq!(r, Err(BlobDecodeError { index: 1 }));
    let r = blob(BlobEncoding::Hex, &["abc"]).decode();
    assert_eq!(r, Err(BlobDecodeError { index: 0 }));
}

#[test]
fn hex_text_is_not_base64() {
    let r = blob(BlobEncoding::Base64, &["aabb"]).decode();
    assert_eq!(r, Ok(vec![vec![0x69, 0xa6, 0xdb]]));
    let r = blob(BlobEncoding::Hex, &["aGk="]).decode();
    assert_eq!(r, Err(BlobDecodeError { index: 0 }));
}

#[test]
fn assemble_keeps_order_and_leaves_metadata_unset() {
    let parsed = vec![feed(1, 100), feed(2, 200), feed(3, 300)];
    let out = assembled(parsed.clone(), blob(BlobEncoding::Base64, &["aGk="]));
    assert_eq!(out.price_feeds.len(), 3);
    for (record, expected) in out.price_feeds.iter().zip(parsed.iter()) {
        assert_eq!(record.price_feed, *expected);
        assert_eq!(record.slot, None);
        assert_eq!(record.received_at, None);
        assert_eq!(record.update_data, None);
        assert_eq!(record.prev_publish_time, None);
    }
    assert_eq!(out.update_data, vec![b"hi".to_vec()]);
}

#[test]
fn two_parsed_values_with_hex_blob() {
    let out = assembled(vec![feed(1, 10), feed(2, 20)], blob(BlobEncoding::Hex, &["aabb", "ccdd"]));
    assert_eq!(out.price_feeds.len(), 2);
    assert_eq!(out.update_data, vec![vec![0xAA, 0xBB], vec![0xCC, 0xDD]]);
}

#[test]
fn assemble_does_not_compare_counts() {
    let out = assembled(vec![feed(1, 10)], blob(BlobEncoding::Hex, &[]));
    assert_eq!(out.price_feeds.len(), 1);
    assert!(out.update_data.is_empty());
}

#[test]
fn assemble_fails_on_malformed_blob() {
    let r = BenchmarkUpdates { parsed: vec![feed(1, 10)], binary: blob(BlobEncoding::Hex, &["aabb", "xy"]) }.assemble();
    assert_eq!(r.unwrap_err(), BlobDecodeError { index: 1 });
}

#[test]
fn plan_without_endpoint_is_a_configuration_error() {
    let r = plan_request::<String>(None, &vec![[1u8; 32]], 1_690_000_000);
    assert_eq!(r.unwrap_err(), BenchmarksError::Configuration);
}

#[test]
fn plan_with_no_identifiers_still_requests() {
    let r = plan_request(Some("https://benchmarks.example".to_string()), &vec![], 1_690_000_000).unwrap();
    assert_eq!(r.endpoint, "https://benchmarks.example");
    assert_eq!(r.path, "/v1/updates/price/1690000000");
    assert_eq!(
        r.query,
        vec![("encoding".to_string(), "hex".to_string()), ("parsed".to_string(), "true".to_string())]
    );
    assert_eq!(r.timeout_secs, 30);
    assert_eq!(REQUEST_TIMEOUT_SECS, 30);
}

#[test]
fn plan_adds_one_ids_parameter_per_identifier() {
    let mut second = [0u8; 32];
    second[31] = 0xFE;
    let r = plan_request(Some(()), &vec![[0x0Au8; 32], second], 0).unwrap();
    assert_eq!(r.path, "/v1/updates/price/0");
    assert_eq!(r.query.len(), 4);
    assert_eq!(r.query[2], ("ids".to_string(), "0a".repeat(32)));
    assert_eq!(r.query[3], ("ids".to_string(), format!("{}fe", "00".repeat(31))));
    assert_eq!(r.query[3].1, PriceIdentifier::new(second).to_hex());
}

#[test]
fn decimal_string_matches_display() {
    for n in [0i64, 7, 10, 99, 100, 1_690_000_000, -1, -42, i64::MAX, i64::MIN] {
        assert_eq!(decimal_string(n), n.to_string());
    }
}

#[test]
fn finish_passes_failures_on() {
    let r = finish_request(BenchmarksResponse::TransportFailed("timed out".to_string()));
    assert_eq!(r.unwrap_err(), BenchmarksError::Transport("timed out".to_string()));
    let r = finish_request(BenchmarksResponse::SchemaMismatch("missing field `binary`".to_string()));
    assert_eq!(r.unwrap_err(), BenchmarksError::Schema("missing field `binary`".to_string()));
    let updates = BenchmarkUpdates { parsed: vec![], binary: blob(BlobEncoding::Hex, &["00", "0"]) };
    let r = finish_request(BenchmarksResponse::Received(updates));
    assert_eq!(r.unwrap_err(), BenchmarksError::Decode(BlobDecodeError { index: 1 }));
}

#[test]
fn finish_assembles_a_reply() {
    let updates = BenchmarkUpdates { parsed: vec![feed(5, 1)], binary: blob(BlobEncoding::Hex, &["0102"]) };
    let out = finish_request(BenchmarksResponse::Received(updates)).unwrap();
    assert_eq!(out.price_feeds[0].price_feed, feed(5, 1));
    assert_eq!(out.update_data, vec![vec![1, 2]]);
}

#[test]
fn error_messages() {
    assert_eq!(BenchmarksError::Configuration.message(), "benchmarks endpoint is not set");
    assert_eq!(BenchmarksError::Transport("refused".to_string()).message(), "benchmarks request failed: refused");
    assert_eq!(
        BenchmarksError::Schema("bad".to_string()).message(),
        "benchmarks reply has an unexpected shape: bad"
    );
    assert_eq!(
        BenchmarksError::Decode(BlobDecodeError { index: 12 }).message(),
        "benchmarks blob item is malformed at index 12"
    );
}
