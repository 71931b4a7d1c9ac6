use pamaxie_api::coordinator::{cache_verdict, CacheVerdict};
use pamaxie_api::credentials::refresh_apply;
use pamaxie_api::model::{
    encode_queue_item, encode_recognition_result, encode_scan_data, is_valid_queue_item,
    is_valid_recognition_result, parse_queue_item, RecognitionResult, ScanData, ScanFields,
    WorkQueueData,
};

fn fields(key: &str, result: &str, guid: &str) -> ScanFields {
    ScanFields {
        key: key.to_string(),
        scan_result: result.to_string(),
        data_type: "image".to_string(),
        data_extension: "png".to_string(),
        scan_machine_guid: guid.to_string(),
    }
}

fn descriptor(hash: &str, url: &str, ext: &str) -> WorkQueueData {
    WorkQueueData {
        ImageHash: hash.to_string(),
        ScanUrl: url.to_string(),
        DataType: "image".to_string(),
        DataExtension: ext.to_string(),
    }
}

#[test]
fn queue_item_encodes_canonically() {
    let q = descriptor("h", "u", "png");
    assert_eq!(
        encode_queue_item(&q),
        "{\"ImageHash\":\"h\",\"ScanUrl\":\"u\",\"DataType\":\"image\",\"DataExtension\":\"png\"}"
    );
}

#[test]
fn queue_item_round_trips() {
    let q = descriptor("0a1b", "https://api.example/scan/v1/worker/get_image/0a1b.png", "png");
    let text = encode_queue_item(&q);
    let back = parse_queue_item(&text).expect("canonical text must parse");
    assert_eq!(back.ImageHash, q.ImageHash);
    assert_eq!(back.ScanUrl, q.ScanUrl);
    assert_eq!(back.DataType, q.DataType);
    assert_eq!(back.DataExtension, q.DataExtension);
}

#[test]
fn queue_item_round_trips_with_escapes() {
    let q = descriptor("h", "a\"b\\c\nd\te\u{1}f", "png");
    let text = encode_queue_item(&q);
    assert!(text.contains("a\\\"b\\\\c\\nd\\te\\u0001f"));
    let back = parse_queue_item(&text).expect("escaped text must parse");
    assert_eq!(back.ScanUrl, "a\"b\\c\nd\te\u{1}f");
}

#[test]
fn queue_parser_rejects_other_text() {
    assert!(parse_queue_item("").is_none());
    assert!(parse_queue_item("{}").is_none());
    assert!(parse_queue_item("{\"ImageHash\":\"h\"}").is_none());
    assert!(parse_queue_item("not json").is_none());
    let trailing =
        "{\"ImageHash\":\"h\",\"ScanUrl\":\"u\",\"DataType\":\"t\",\"DataExtension\":\"e\"} ";
    assert!(parse_queue_item(trailing).is_none());
}

#[test]
fn queue_item_validator_requires_every_member() {
    assert!(is_valid_queue_item(&descriptor("h", "u", "png")));
    assert!(!is_valid_queue_item(&descriptor("", "u", "png")));
    assert!(!is_valid_queue_item(&descriptor("h", "", "png")));
    assert!(!is_valid_queue_item(&descriptor("h", "u", "")));
}

#[test]
fn result_record_encodes_canonically() {
    let r = RecognitionResult { fields: fields("k", "r", "g"), is_user_scan: true };
    assert_eq!(
        encode_recognition_result(&r),
        "{\"Key\":\"k\",\"ScanResult\":\"r\",\"DataType\":\"image\",\"DataExtension\":\"png\",\"ScanMachineGuid\":\"g\",\"IsUserScan\":true}"
    );
}

#[test]
fn result_validator_requires_every_member() {
    assert!(is_valid_recognition_result(&fields("k", "r", "g")));
    assert!(!is_valid_recognition_result(&fields("", "r", "g")));
    assert!(!is_valid_recognition_result(&fields("k", "", "g")));
    assert!(!is_valid_recognition_result(&fields("k", "r", "")));
}

#[test]
fn stored_record_verdicts() {
    let r = RecognitionResult { fields: fields("k", "r", "g"), is_user_scan: false };
    let valid_text = encode_recognition_result(&r);
    assert_eq!(cache_verdict(&valid_text), CacheVerdict::UseStored);

    let invalid = RecognitionResult { fields: fields("k", "", "g"), is_user_scan: false };
    let invalid_text = encode_recognition_result(&invalid);
    assert_eq!(cache_verdict(&invalid_text), CacheVerdict::DeleteAndStage);

    assert_eq!(cache_verdict(&"{}".to_string()), CacheVerdict::DeleteAndStage);
    assert_eq!(
        cache_verdict(&"{\"Key\":\"k\",\"ScanResult\":5}".to_string()),
        CacheVerdict::DeleteAndStage
    );
    assert_eq!(cache_verdict(&"not json".to_string()), CacheVerdict::StageOnly);
}

#[test]
fn scan_summary_encodes_canonically() {
    let d = ScanData {
        key: "k".to_string(),
        data_type: "image".to_string(),
        scan_machine_guid: String::new(),
        is_user_scan: false,
        scan_result: String::new(),
        ttl: 1234,
    };
    assert_eq!(
        encode_scan_data(&d),
        "{\"key\":\"k\",\"data_type\":\"image\",\"scan_machine_guid\":\"\",\"is_user_scan\":false,\"scan_result\":\"\",\"ttl\":1234}"
    );
}

#[test]
fn login_reply_token_is_extracted() {
    let got = refresh_apply(&Some("{\"Token\":{\"Token\":\"tok123\"}}".to_string()));
    assert_eq!(got, Some("tok123".to_string()));
}

#[test]
fn login_reply_without_token_keeps_slot() {
    assert_eq!(refresh_apply(&None), None);
    assert_eq!(refresh_apply(&Some(String::new())), None);
    assert_eq!(refresh_apply(&Some("{}".to_string())), None);
    assert_eq!(refresh_apply(&Some("{\"Token\":{}}".to_string())), None);
    assert_eq!(refresh_apply(&Some("no json".to_string())), None);
}

#[test]
fn queue_parser_rejects_non_canonical_escapes() {
    // `A` must stand for itself, never as a unicode escape.
    let aliased =
        "{\"ImageHash\":\"\\u0041\",\"ScanUrl\":\"u\",\"DataType\":\"t\",\"DataExtension\":\"e\"}";
    assert!(parse_queue_item(aliased).is_none());
    // The solidus escape is legal JSON but not canonical here.
    let solidus =
        "{\"ImageHash\":\"a\\/b\",\"ScanUrl\":\"u\",\"DataType\":\"t\",\"DataExtension\":\"e\"}";
    assert!(parse_queue_item(solidus).is_none());
}

#[test]
fn queue_parser_accepts_canonical_control_escape() {
    let text =
        "{\"ImageHash\":\"a\\u0001b\",\"ScanUrl\":\"u\",\"DataType\":\"t\",\"DataExtension\":\"e\"}";
    let q = parse_queue_item(text).expect("a canonical control escape parses");
    assert_eq!(q.ImageHash, "a\u{1}b");
}
