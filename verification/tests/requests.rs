//! The endpoint catalog: URLs, query parameters and headers.

use fortnite_api::response_types::aes::AesKeyFormat;
use fortnite_api::response_types::stats::{StatsAccountType, StatsImage, StatsTimeWindow};
use fortnite_api::{
    aes_keys_v2_request, banners_colors_v1_request, banners_v1_request, cosmetic_by_id_v2_request,
    cosmetics_new_v2_request, cosmetics_v2_request, creatorcode_v2_request, map_v1_request,
    news_br_v2_request, news_creative_v2_request, news_stw_v2_request, news_v2_request,
    playlist_by_id_v1_request, playlists_v1_request, shop_br_v2_request, shop_combined_v2_request,
    stats_by_account_id_v2_request, stats_v2_request,
};

#[test]
fn keys_without_format_has_no_parameter() {
    let r = aes_keys_v2_request(None);
    assert_eq!(r.url, "https://fortnite-api.com/v2/aes");
    assert_eq!(r.method, "GET");
    assert_eq!(r.body, "");
    assert!(r.headers.is_empty());
}

#[test]
fn keys_with_hex_format() {
    let r = aes_keys_v2_request(Some(AesKeyFormat::Hex));
    assert_eq!(r.url, "https://fortnite-api.com/v2/aes?keyFormat=hex");
}

#[test]
fn keys_with_base64_format() {
    let r = aes_keys_v2_request(Some(AesKeyFormat::Base64));
    assert_eq!(r.url, "https://fortnite-api.com/v2/aes?keyFormat=base64");
}

#[test]
fn stats_by_name_minimal() {
    let r = stats_v2_request("THE-KEY".to_string(), "Test", None, None, None);
    assert_eq!(r.url, "https://fortnite-api.com/v2/stats/br/v2?name=Test");
    assert_eq!(r.method, "GET");
    assert_eq!(r.body, "");
    assert_eq!(
        r.headers,
        vec![("Authorization".to_string(), "THE-KEY".to_string())]
    );
}

#[test]
fn stats_by_name_all_options() {
    let r = stats_v2_request(
        "k".to_string(),
        "Test",
        Some(StatsAccountType::Epic),
        Some(StatsTimeWindow::Season),
        Some(StatsImage::All),
    );
    assert_eq!(
        r.url,
        "https://fortnite-api.com/v2/stats/br/v2?name=Test&accountType=epic&timeWindow=season&image=all"
    );
}

#[test]
fn stats_account_type_tokens() {
    assert_eq!(StatsAccountType::Epic.wire_str(), "epic");
    assert_eq!(StatsAccountType::Psn.wire_str(), "psn");
    assert_eq!(StatsAccountType::Xbl.wire_str(), "xbl");
    assert_eq!(StatsTimeWindow::Season.wire_str(), "season");
    assert_eq!(StatsTimeWindow::Lifetime.wire_str(), "lifetime");
    assert_eq!(StatsImage::All.wire_str(), "all");
    assert_eq!(StatsImage::KeyboardMouse.wire_str(), "keyboardmouse");
    assert_eq!(StatsImage::Gamepad.wire_str(), "gamepad");
    assert_eq!(StatsImage::Touch.wire_str(), "touch");
    assert_eq!(StatsImage::NoImage.wire_str(), "none");
}

#[test]
fn stats_by_account_id_paths_and_options() {
    let r = stats_by_account_id_v2_request("k".to_string(), "3f20d6f579db4e7ba71d80fc18576db2", None, None);
    assert_eq!(
        r.url,
        "https://fortnite-api.com/v2/stats/br/v2/3f20d6f579db4e7ba71d80fc18576db2"
    );
    let r = stats_by_account_id_v2_request(
        "k".to_string(),
        "abc",
        Some(StatsTimeWindow::Lifetime),
        Some(StatsImage::Gamepad),
    );
    assert_eq!(
        r.url,
        "https://fortnite-api.com/v2/stats/br/v2/abc?timeWindow=lifetime&image=gamepad"
    );
    let r = stats_by_account_id_v2_request("k".to_string(), "abc", None, Some(StatsImage::Touch));
    assert_eq!(r.url, "https://fortnite-api.com/v2/stats/br/v2/abc?image=touch");
}

#[test]
fn invalid_api_key_is_dropped_not_fatal() {
    let r = stats_v2_request("bad\nkey".to_string(), "Test", None, None, None);
    assert!(r.headers.is_empty());
    assert_eq!(r.url, "https://fortnite-api.com/v2/stats/br/v2?name=Test");
}

#[test]
fn unauthenticated_endpoints_attach_no_headers() {
    assert!(banners_v1_request(None).headers.is_empty());
    assert!(banners_colors_v1_request().headers.is_empty());
    assert!(cosmetics_v2_request(Some("de")).headers.is_empty());
    assert!(map_v1_request(None).headers.is_empty());
    assert!(news_v2_request(None).headers.is_empty());
    assert!(shop_br_v2_request(None).headers.is_empty());
}

#[test]
fn playlist_lookup_path_without_language() {
    let r = playlist_by_id_v1_request("playlist_defaultsolo", None);
    assert_eq!(r.url, "https://fortnite-api.com/v1/playlists/playlist_defaultsolo");
    assert_eq!(r.method, "GET");
    assert!(r.headers.is_empty());
}

#[test]
fn cosmetic_lookup_substitutes_id_verbatim() {
    let r = cosmetic_by_id_v2_request("CID_028_Athena_Commando_F", None);
    assert_eq!(
        r.url,
        "https://fortnite-api.com/v2/cosmetics/br/CID_028_Athena_Commando_F"
    );
    let r = cosmetic_by_id_v2_request("CID_028_Athena_Commando_F", Some("de"));
    assert_eq!(
        r.url,
        "https://fortnite-api.com/v2/cosmetics/br/CID_028_Athena_Commando_F?language=de"
    );
}

#[test]
fn language_parameter_only_when_given() {
    assert_eq!(banners_v1_request(None).url, "https://fortnite-api.com/v1/banners");
    assert_eq!(
        banners_v1_request(Some("de")).url,
        "https://fortnite-api.com/v1/banners?language=de"
    );
    assert_eq!(cosmetics_v2_request(None).url, "https://fortnite-api.com/v2/cosmetics/br");
    assert_eq!(
        cosmetics_new_v2_request(Some("fr")).url,
        "https://fortnite-api.com/v2/cosmetics/br/new?language=fr"
    );
    assert_eq!(map_v1_request(None).url, "https://fortnite-api.com/v1/map");
    assert_eq!(news_v2_request(None).url, "https://fortnite-api.com/v2/news");
    assert_eq!(news_br_v2_request(None).url, "https://fortnite-api.com/v2/news/br");
    assert_eq!(news_stw_v2_request(None).url, "https://fortnite-api.com/v2/news/stw");
    assert_eq!(
        news_creative_v2_request(None).url,
        "https://fortnite-api.com/v2/news/creative"
    );
    assert_eq!(playlists_v1_request(None).url, "https://fortnite-api.com/v1/playlists");
    assert_eq!(shop_br_v2_request(None).url, "https://fortnite-api.com/v2/shop/br");
    assert_eq!(
        shop_combined_v2_request(None).url,
        "https://fortnite-api.com/v2/shop/br/combined"
    );
}

#[test]
fn query_values_are_form_encoded() {
    let r = creatorcode_v2_request("two words & more");
    assert_eq!(
        r.url,
        "https://fortnite-api.com/v2/creatorcode?name=two+words+%26+more"
    );
    let r = creatorcode_v2_request("caf\u{e9}");
    assert_eq!(r.url, "https://fortnite-api.com/v2/creatorcode?name=caf%C3%A9");
    let r = creatorcode_v2_request("snow\u{2603}man");
    assert_eq!(
        r.url,
        "https://fortnite-api.com/v2/creatorcode?name=snow%E2%98%83man"
    );
    let r = creatorcode_v2_request("pile\u{1F4A9}");
    assert_eq!(r.url, "https://fortnite-api.com/v2/creatorcode?name=pile%F0%9F%92%A9");
    let r = creatorcode_v2_request("keep*-._safe");
    assert_eq!(
        r.url,
        "https://fortnite-api.com/v2/creatorcode?name=keep*-._safe"
    );
}

#[test]
fn aes_key_format_tokens() {
    assert_eq!(AesKeyFormat::Hex.wire_str(), "hex");
    assert_eq!(AesKeyFormat::Base64.wire_str(), "base64");
}
