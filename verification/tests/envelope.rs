//! The envelope decoder and the typed payload decoders.

use fortnite_api::codec::{FromJson, JsonNumber, NumberMap};
use fortnite_api::error::ApiError;
use fortnite_api::json::Json;
use fortnite_api::response_types::aes::{AesV2, DynamicKey};
use fortnite_api::response_types::banners::BannerCategory;
use fortnite_api::response_types::creatorcode::{CreatorCodeStatus, CreatorCodeV2};
use fortnite_api::response_types::map::MapPoiLocation;
use fortnite_api::response_types::stats::StatsV2;
use fortnite_api::time::Timestamp;
use fortnite_api::utils::fetch::{conclude_fetch, decode_body, APIData};

const AES_BODY: &str = "{\"status\":200,\"data\":{\"build\":\"++Fortnite+Release-24.40\",\
\"mainKey\":\"f83cdeadbeef\",\"dynamicKeys\":[{\"pakFilename\":\"pakchunk1001.pak\",\
\"pakGuid\":\"0F\",\"key\":\"aa\"}],\"updated\":\"2023-05-26T14:00:00Z\"},\"error\":null}";

#[test]
fn envelope_with_valid_payload_decodes() {
    let r: Result<AesV2, ApiError> = decode_body(AES_BODY);
    let aes = r.unwrap();
    assert_eq!(aes.build, "++Fortnite+Release-24.40");
    assert_eq!(aes.main_key, "f83cdeadbeef");
    assert_eq!(
        aes.dynamic_keys,
        vec![DynamicKey {
            pak_filename: "pakchunk1001.pak".to_string(),
            pak_guid: "0F".to_string(),
            key: "aa".to_string(),
        }]
    );
    assert_eq!(aes.updated, Timestamp::parse("2023-05-26T14:00:00Z").unwrap());
}

#[test]
fn decoding_is_idempotent() {
    let first: Result<AesV2, ApiError> = decode_body(AES_BODY);
    let second: Result<AesV2, ApiError> = decode_body(AES_BODY);
    assert_eq!(first, second);
}

#[test]
fn non_success_status_with_good_payload_still_decodes() {
    let body = "{\"status\":400,\"data\":{\"build\":\"b\",\"mainKey\":\"m\",\
\"dynamicKeys\":[],\"updated\":\"2023-01-01T00:00:00+00:00\"},\"error\":\"stale\"}";
    let r: Result<AesV2, ApiError> = decode_body(body);
    assert!(r.is_ok());
}

#[test]
fn missing_data_field_is_a_decode_error() {
    let body = "{\"status\":200,\"error\":null}";
    let r: Result<AesV2, ApiError> = decode_body(body);
    assert!(matches!(r, Err(ApiError::Decode(_))));
}

#[test]
fn wrongly_typed_nested_field_is_a_decode_error() {
    // `data.type` must be an object, not a number
    let body = "{\"status\":200,\"data\":{\"id\":\"CID\",\"name\":\"n\",\
\"description\":\"d\",\"type\":5},\"error\":null}";
    let r: Result<fortnite_api::response_types::cosmetics::CosmeticV2, ApiError> =
        decode_body(body);
    assert!(matches!(r, Err(ApiError::Decode(_))));
}

#[test]
fn invalid_json_is_a_decode_error() {
    let r: Result<AesV2, ApiError> = decode_body("{\"status\":200,");
    assert!(matches!(r, Err(ApiError::Decode(_))));
}

#[test]
fn invalid_timestamp_is_a_decode_error() {
    let body = "{\"status\":200,\"data\":{\"build\":\"b\",\"mainKey\":\"m\",\
\"dynamicKeys\":[],\"updated\":\"yesterday\"},\"error\":null}";
    let r: Result<AesV2, ApiError> = decode_body(body);
    assert!(matches!(r, Err(ApiError::Decode(_))));
}

#[test]
fn transport_failure_is_never_decoded() {
    let r: Result<AesV2, ApiError> = conclude_fetch(Err("connection refused".to_string()));
    assert_eq!(r, Err(ApiError::Transport("connection refused".to_string())));
}

#[test]
fn envelope_decodes_status_and_error_fields() {
    let j = fortnite_api::json::parse_json(
        "{\"status\":403,\"data\":true,\"error\":\"missing key\"}",
    )
    .unwrap();
    let d: APIData<bool> = FromJson::from_json(&j).unwrap();
    assert_eq!(d.status, 403);
    assert_eq!(d.data, true);
    assert_eq!(d.error, Some("missing key".to_string()));
}

#[test]
fn creator_code_decodes_with_enum() {
    let body = "{\"status\":200,\"data\":{\"code\":\"trymacs\",\"account\":{\"id\":\"i\",\
\"name\":\"n\"},\"status\":\"ACTIVE\",\"verified\":false},\"error\":null}";
    let r: Result<CreatorCodeV2, ApiError> = decode_body(body);
    let c = r.unwrap();
    assert_eq!(c.code, "trymacs");
    assert_eq!(c.status, CreatorCodeStatus::Active);
    assert_eq!(c.account.name, "n");
    assert!(!c.verified);
}

#[test]
fn banner_category_tokens_round_trip() {
    for (token, expected) in [
        ("BattleRoyale", BannerCategory::BattleRoyale),
        ("Founder", BannerCategory::Founder),
        ("Other", BannerCategory::Other),
        ("Special", BannerCategory::Special),
        ("Standard", BannerCategory::Standard),
    ] {
        let v = BannerCategory::from_json(&Json::Str(token.to_string())).unwrap();
        assert_eq!(v, expected);
        assert_eq!(v.wire_str(), token);
    }
    assert_eq!(BannerCategory::from_json(&Json::Str("battleRoyale".to_string())), None);
}

#[test]
fn creator_code_status_tokens_round_trip() {
    for (token, expected) in [
        ("ACTIVE", CreatorCodeStatus::Active),
        ("INACTIVE", CreatorCodeStatus::Inactive),
    ] {
        let v = CreatorCodeStatus::from_json(&Json::Str(token.to_string())).unwrap();
        assert_eq!(v, expected);
        assert_eq!(v.wire_str(), token);
    }
}

#[test]
fn integer_bounds_are_enforced() {
    assert_eq!(u8::from_json(&Json::Num("255".to_string())), Some(255u8));
    assert_eq!(u8::from_json(&Json::Num("256".to_string())), None);
    assert_eq!(u32::from_json(&Json::Num("-1".to_string())), None);
    assert_eq!(u32::from_json(&Json::Num("4294967295".to_string())), Some(u32::MAX));
    assert_eq!(u32::from_json(&Json::Num("4294967296".to_string())), None);
    assert_eq!(
        u64::from_json(&Json::Num("18446744073709551615".to_string())),
        Some(u64::MAX)
    );
    assert_eq!(u64::from_json(&Json::Num("18446744073709551616".to_string())), None);
    assert_eq!(
        i64::from_json(&Json::Num("-9223372036854775808".to_string())),
        Some(i64::MIN)
    );
    assert_eq!(i64::from_json(&Json::Num("-9223372036854775809".to_string())), None);
    assert_eq!(i64::from_json(&Json::Num("1.5".to_string())), None);
    assert_eq!(i32::from_json(&Json::Num("-2147483648".to_string())), Some(i32::MIN));
    assert_eq!(i32::from_json(&Json::Num("2147483648".to_string())), None);
    assert_eq!(u32::from_json(&Json::Num("007".to_string())), None);
    assert_eq!(u32::from_json(&Json::Str("7".to_string())), None);
}

#[test]
fn map_location_keeps_number_lexemes() {
    let body = "{\"status\":200,\"data\":{\"images\":{\"blank\":\"b\",\"pois\":\"p\"},\
\"pois\":[{\"id\":\"poi\",\"name\":null,\"location\":{\"x\":1.5,\"y\":-2e3,\"z\":0}}]},\
\"error\":null}";
    let r: Result<fortnite_api::response_types::map::MapV1, ApiError> = decode_body(body);
    let m = r.unwrap();
    assert_eq!(
        m.pois[0].location,
        MapPoiLocation {
            x: JsonNumber::new("1.5").unwrap(),
            y: JsonNumber::new("-2e3").unwrap(),
            z: JsonNumber::new("0").unwrap(),
        }
    );
    assert_eq!(m.pois[0].location.x.as_str(), "1.5");
    assert_eq!(m.pois[0].name, None);
}

#[test]
fn json_number_accepts_only_number_lexemes() {
    assert!(JsonNumber::new("1.5e-3").is_some());
    assert!(JsonNumber::new("-0").is_some());
    assert!(JsonNumber::new("01").is_none());
    assert!(JsonNumber::new("1.").is_none());
    assert!(JsonNumber::new("x").is_none());
    assert!(JsonNumber::new("").is_none());
}

#[test]
fn number_map_keeps_entries_in_order() {
    let j = fortnite_api::json::parse_json("{\"Zoom\":1.5,\"Angle\":-3}").unwrap();
    let m = NumberMap::from_json(&j).unwrap();
    assert_eq!(m.entries.len(), 2);
    assert_eq!(m.entries[0].0, "Zoom");
    assert_eq!(m.entries[0].1.as_str(), "1.5");
    assert_eq!(m.entries[1].0, "Angle");
    let bad = fortnite_api::json::parse_json("{\"Zoom\":\"big\"}").unwrap();
    assert_eq!(NumberMap::from_json(&bad), None);
}

#[test]
fn stats_decode_with_optional_sections() {
    let body = "{\"status\":200,\"data\":{\"account\":{\"id\":\"i\",\"name\":\"Test\"},\
\"battlePass\":{\"level\":47,\"progress\":80},\"image\":null,\"stats\":{\"all\":{\
\"overall\":{\"score\":100,\"scorePerMin\":1.5,\"scorePerMatch\":2.5,\"wins\":3,\
\"top3\":1,\"top5\":2,\"top6\":3,\"top10\":4,\"top12\":5,\"top25\":6,\"kills\":7,\
\"killsPerMin\":0.1,\"killsPerMatch\":0.2,\"deaths\":8,\"kd\":0.875,\"matches\":40,\
\"winRate\":7.5,\"minutesPlayed\":1000,\"playersOutlived\":99,\
\"lastModified\":\"2023-05-26T14:00:00Z\"},\"solo\":null,\"duo\":null,\"trio\":null,\
\"squad\":null,\"ltm\":null},\"keyboardMouse\":null,\"gamepad\":null,\"touch\":null}},\
\"error\":null}";
    let r: Result<StatsV2, ApiError> = decode_body(body);
    let s = r.unwrap();
    assert_eq!(s.account.name, "Test");
    assert_eq!(s.battle_pass.level, 47);
    let all = s.stats.all.unwrap();
    assert_eq!(all.overall.score, 100);
    assert_eq!(all.overall.matches_played, 40);
    assert_eq!(all.overall.kd.as_str(), "0.875");
    assert!(all.solo.is_none());
    assert!(s.stats.gamepad.is_none());
}

#[test]
fn unknown_fields_are_ignored() {
    let body = "{\"status\":200,\"data\":{\"surprise\":[1,2,3],\"build\":\"b\",\
\"mainKey\":\"m\",\"dynamicKeys\":[],\"updated\":\"2023-01-01T00:00:00Z\",\
\"later\":\"x\"},\"error\":null,\"extra\":{}}";
    let r: Result<AesV2, ApiError> = decode_body(body);
    assert!(r.is_ok());
}

#[test]
fn timestamps_accept_only_rfc3339() {
    assert!(Timestamp::parse("2023-05-26T14:00:00Z").is_some());
    assert!(Timestamp::parse("2023-05-26T14:00:00.123+02:00").is_some());
    assert!(Timestamp::parse("2023-05-26 14:00:00").is_none());
    assert!(Timestamp::parse("").is_none());
    let t = Timestamp::parse("2023-05-26T14:00:00Z").unwrap();
    assert_eq!(t.as_str(), "2023-05-26T14:00:00Z");
}

#[test]
fn error_messages_are_reachable() {
    let r: Result<AesV2, ApiError> = decode_body("not json");
    match r {
        Err(e) => assert_eq!(e.message(), "response body is not valid JSON"),
        Ok(_) => panic!("decoded a body that is not JSON"),
    }
}

#[test]
fn serialized_envelope_round_trips_to_its_payload() {
    fn payload() -> Json {
        Json::Obj(vec![
            ("pakFilename".to_string(), Json::Str("pakchunk7.pak".to_string())),
            ("pakGuid".to_string(), Json::Str("0A".to_string())),
            ("key".to_string(), Json::Str("deadbeef".to_string())),
        ])
    }
    let envelope = Json::Obj(vec![
        ("status".to_string(), Json::Num("200".to_string())),
        ("data".to_string(), payload()),
        ("error".to_string(), Json::Null),
    ]);
    let body = fortnite_api::json::to_text(&envelope);
    assert_eq!(
        body,
        "{\"status\":200,\"data\":{\"pakFilename\":\"pakchunk7.pak\",\
\"pakGuid\":\"0A\",\"key\":\"deadbeef\"},\"error\":null}"
    );
    let r: Result<DynamicKey, ApiError> = decode_body(&body);
    assert_eq!(
        r,
        Ok(DynamicKey {
            pak_filename: "pakchunk7.pak".to_string(),
            pak_guid: "0A".to_string(),
            key: "deadbeef".to_string(),
        })
    );
}
