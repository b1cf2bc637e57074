//! A typed client for the Fortnite API.
//!
//! The library builds the request for each endpoint — the URL with its
//! form-encoded query parameters, the headers, the method and the body —
//! and decodes the enveloped JSON the service answers with. Sending the
//! request over the network is the caller's HTTP client's job: a caller
//! builds a request here, performs it, and hands the outcome to
//! [`utils::fetch::conclude_fetch`] for the typed result.

pub mod codec;
pub mod error;
pub mod headers;
pub mod json;
pub mod laws;
pub mod query;
pub mod response_types;
pub mod text;
pub mod time;
pub mod utils;

use vstd::prelude::*;

use crate::headers::{headers_model, is_token_char, sanitized, sanitized_prefix, valid_header,
    valid_header_name, valid_header_value};
use crate::query::{query_pair, ApiUrl};
use crate::response_types::aes::AesKeyFormat;
use crate::response_types::stats::{StatsAccountType, StatsImage, StatsTimeWindow};
use crate::utils::fetch::{build_request, ApiRequest};

verus! {

/// The characters of an optional string.
pub open spec fn opt_text(o: Option<&str>) -> Option<Seq<char>> {
    match o {
        None => None,
        Some(s) => Some(s@),
    }
}

/// What an optional `language` parameter adds to a URL with no other
/// query parameters: nothing at all when it is absent.
pub open spec fn language_query(l: Option<Seq<char>>) -> Seq<char> {
    match l {
        None => Seq::empty(),
        Some(s) => query_pair(false, "language"@, s),
    }
}

proof fn lemma_empty_headers(hs: Seq<(String, String)>)
    requires
        hs.len() == 0,
    ensures
        sanitized(headers_model(hs)) =~= Seq::<(Seq<char>, Seq<char>)>::empty(),
{
    assert(headers_model(hs).len() == 0);
}

/// `Authorization` is a legal header name.
proof fn lemma_authorization_name()
    ensures
        valid_header_name("Authorization"@),
{
    reveal_strlit("Authorization");
    let s = "Authorization"@;
    assert forall|i: int| 0 <= i < s.len() implies is_token_char(s[i]) by {
        if i == 0 {
            assert(is_token_char(s[0]));
        } else if i == 1 {
            assert(is_token_char(s[1]));
        } else if i == 2 {
            assert(is_token_char(s[2]));
        } else if i == 3 {
            assert(is_token_char(s[3]));
        } else if i == 4 {
            assert(is_token_char(s[4]));
        } else if i == 5 {
            assert(is_token_char(s[5]));
        } else if i == 6 {
            assert(is_token_char(s[6]));
        } else if i == 7 {
            assert(is_token_char(s[7]));
        } else if i == 8 {
            assert(is_token_char(s[8]));
        } else if i == 9 {
            assert(is_token_char(s[9]));
        } else if i == 10 {
            assert(is_token_char(s[10]));
        } else if i == 11 {
            assert(is_token_char(s[11]));
        } else {
            assert(is_token_char(s[12]));
        }
    }
}

/// A GET request with an empty body and no headers at all.
fn get_request(url: String) -> (r: ApiRequest)
    ensures
        r.url@ == url@,
        r.method@ == "GET"@,
        r.body@.len() == 0,
        r.headers@.len() == 0,
{
    let headers: Vec<(String, String)> = Vec::new();
    proof {
        lemma_empty_headers(headers@);
        reveal_strlit("");
    }
    let r = build_request(url, "GET", "", headers);
    proof {
        assert(headers_model(r.headers@).len() == 0);
    }
    r
}

/// A GET request with an empty body and exactly one `Authorization`
/// header holding the caller's key verbatim — unless the key is not a
/// legal header value, in which case the entry is dropped and the
/// request goes out with no headers.
fn get_request_auth(url: String, api_key: String) -> (r: ApiRequest)
    ensures
        r.url@ == url@,
        r.method@ == "GET"@,
        r.body@.len() == 0,
        valid_header_value(api_key@) ==> headers_model(r.headers@) == seq![
            ("Authorization"@, api_key@),
        ],
        !valid_header_value(api_key@) ==> r.headers@.len() == 0,
{
    let ghost key_text = api_key@;
    let mut headers: Vec<(String, String)> = Vec::new();
    headers.push(("Authorization".to_owned(), api_key));
    proof {
        lemma_authorization_name();
        let m = headers_model(headers@);
        assert(m =~= seq![("Authorization"@, key_text)]);
        assert(sanitized_prefix(m, 0) =~= Seq::<(Seq<char>, Seq<char>)>::empty());
        if valid_header_value(key_text) {
            assert(valid_header(m[0].0, m[0].1));
            assert(sanitized(m) =~= seq![("Authorization"@, key_text)]);
        } else {
            assert(!valid_header(m[0].0, m[0].1));
            assert(sanitized(m) =~= Seq::<(Seq<char>, Seq<char>)>::empty());
        }
        reveal_strlit("");
    }
    let r = build_request(url, "GET", "", headers);
    proof {
        if !valid_header_value(key_text) {
            assert(headers_model(r.headers@).len() == 0);
        }
    }
    r
}

/// A GET request against `base` whose only optional parameter is
/// `language`.
fn language_get(base: &str, language: Option<&str>) -> (r: ApiRequest)
    ensures
        r.url@ == base@ + language_query(opt_text(language)),
        r.method@ == "GET"@,
        r.body@.len() == 0,
        r.headers@.len() == 0,
{
    let mut u = ApiUrl::from_base(base);
    if let Some(l) = language {
        u.append_pair("language", l);
    }
    proof {
        assert(u.text() =~= base@ + language_query(opt_text(language)));
    }
    get_request(u.into_string())
}

/// A GET request against `base` with one path segment substituted in
/// verbatim, and an optional `language` parameter.
fn language_get_with_segment(base: &str, segment: &str, language: Option<&str>) -> (r: ApiRequest)
    ensures
        r.url@ == base@ + seq!['/'] + segment@ + language_query(opt_text(language)),
        r.method@ == "GET"@,
        r.body@.len() == 0,
        r.headers@.len() == 0,
{
    let mut u = ApiUrl::from_base_with_segment(base, segment);
    if let Some(l) = language {
        u.append_pair("language", l);
    }
    proof {
        assert(u.text() =~= base@ + seq!['/'] + segment@ + language_query(opt_text(language)));
    }
    get_request(u.into_string())
}

/// What an optional key format adds to the keys URL.
pub open spec fn key_format_query(f: Option<AesKeyFormat>) -> Seq<char> {
    match f {
        None => Seq::empty(),
        Some(f) => query_pair(false, "keyFormat"@, f.wire()),
    }
}

/// Builds the request for the current AES keys.
pub fn aes_keys_v2_request(key_format: Option<AesKeyFormat>) -> (r: ApiRequest)
    ensures
        r.url@ == "https://fortnite-api.com/v2/aes"@ + key_format_query(key_format),
        r.method@ == "GET"@,
        r.body@.len() == 0,
        r.headers@.len() == 0,
{
    let mut u = ApiUrl::from_base("https://fortnite-api.com/v2/aes");
    if let Some(f) = key_format {
        u.append_pair("keyFormat", f.wire_str());
    }
    proof {
        assert(u.text() =~= "https://fortnite-api.com/v2/aes"@ + key_format_query(key_format));
    }
    get_request(u.into_string())
}

/// Builds the request for the banner catalog.
pub fn banners_v1_request(language: Option<&str>) -> (r: ApiRequest)
    ensures
        r.url@ == "https://fortnite-api.com/v1/banners"@ + language_query(opt_text(language)),
        r.method@ == "GET"@,
        r.body@.len() == 0,
        r.headers@.len() == 0,
{
    language_get("https://fortnite-api.com/v1/banners", language)
}

/// Builds the request for the banner color palette.
pub fn banners_colors_v1_request() -> (r: ApiRequest)
    ensures
        r.url@ == "https://fortnite-api.com/v1/banners/colors"@,
        r.method@ == "GET"@,
        r.body@.len() == 0,
        r.headers@.len() == 0,
{
    let u = ApiUrl::from_base("https://fortnite-api.com/v1/banners/colors");
    get_request(u.into_string())
}

/// Builds the request for the full cosmetic catalog.
pub fn cosmetics_v2_request(language: Option<&str>) -> (r: ApiRequest)
    ensures
        r.url@ == "https://fortnite-api.com/v2/cosmetics/br"@ + language_query(opt_text(language)),
        r.method@ == "GET"@,
        r.body@.len() == 0,
        r.headers@.len() == 0,
{
    language_get("https://fortnite-api.com/v2/cosmetics/br", language)
}

/// Builds the request for the newly added cosmetics.
pub fn cosmetics_new_v2_request(language: Option<&str>) -> (r: ApiRequest)
    ensures
        r.url@ == "https://fortnite-api.com/v2/cosmetics/br/new"@ + language_query(
            opt_text(language),
        ),
        r.method@ == "GET"@,
        r.body@.len() == 0,
        r.headers@.len() == 0,
{
    language_get("https://fortnite-api.com/v2/cosmetics/br/new", language)
}

/// Builds the request for one cosmetic, looked up by its id. The id is
/// substituted into the path verbatim; callers keep it percent-safe.
pub fn cosmetic_by_id_v2_request(cosmetic_id: &str, language: Option<&str>) -> (r: ApiRequest)
    ensures
        r.url@ == "https://fortnite-api.com/v2/cosmetics/br"@ + seq!['/'] + cosmetic_id@
            + language_query(opt_text(language)),
        r.method@ == "GET"@,
        r.body@.len() == 0,
        r.headers@.len() == 0,
{
    language_get_with_segment("https://fortnite-api.com/v2/cosmetics/br", cosmetic_id, language)
}

/// Builds the request for a creator code lookup. The name is required.
pub fn creatorcode_v2_request(name: &str) -> (r: ApiRequest)
    ensures
        r.url@ == "https://fortnite-api.com/v2/creatorcode"@ + query_pair(false, "name"@, name@),
        r.method@ == "GET"@,
        r.body@.len() == 0,
        r.headers@.len() == 0,
{
    let mut u = ApiUrl::from_base("https://fortnite-api.com/v2/creatorcode");
    u.append_pair("name", name);
    get_request(u.into_string())
}

/// Builds the request for the in-game map.
pub fn map_v1_request(language: Option<&str>) -> (r: ApiRequest)
    ensures
        r.url@ == "https://fortnite-api.com/v1/map"@ + language_query(opt_text(language)),
        r.method@ == "GET"@,
        r.body@.len() == 0,
        r.headers@.len() == 0,
{
    language_get("https://fortnite-api.com/v1/map", language)
}

/// Builds the request for the news of every mode.
pub fn news_v2_request(language: Option<&str>) -> (r: ApiRequest)
    ensures
        r.url@ == "https://fortnite-api.com/v2/news"@ + language_query(opt_text(language)),
        r.method@ == "GET"@,
        r.body@.len() == 0,
        r.headers@.len() == 0,
{
    language_get("https://fortnite-api.com/v2/news", language)
}

/// Builds the request for the battle royale news.
pub fn news_br_v2_request(language: Option<&str>) -> (r: ApiRequest)
    ensures
        r.url@ == "https://fortnite-api.com/v2/news/br"@ + language_query(opt_text(language)),
        r.method@ == "GET"@,
        r.body@.len() == 0,
        r.headers@.len() == 0,
{
    language_get("https://fortnite-api.com/v2/news/br", language)
}

/// Builds the request for the save the world news.
pub fn news_stw_v2_request(language: Option<&str>) -> (r: ApiRequest)
    ensures
        r.url@ == "https://fortnite-api.com/v2/news/stw"@ + language_query(opt_text(language)),
        r.method@ == "GET"@,
        r.body@.len() == 0,
        r.headers@.len() == 0,
{
    language_get("https://fortnite-api.com/v2/news/stw", language)
}

/// Builds the request for the creative news.
pub fn news_creative_v2_request(language: Option<&str>) -> (r: ApiRequest)
    ensures
        r.url@ == "https://fortnite-api.com/v2/news/creative"@ + language_query(
            opt_text(language),
        ),
        r.method@ == "GET"@,
        r.body@.len() == 0,
        r.headers@.len() == 0,
{
    language_get("https://fortnite-api.com/v2/news/creative", language)
}

/// Builds the request for the playlist catalog.
pub fn playlists_v1_request(language: Option<&str>) -> (r: ApiRequest)
    ensures
        r.url@ == "https://fortnite-api.com/v1/playlists"@ + language_query(opt_text(language)),
        r.method@ == "GET"@,
        r.body@.len() == 0,
        r.headers@.len() == 0,
{
    language_get("https://fortnite-api.com/v1/playlists", language)
}

/// Builds the request for one playlist, looked up by its id. The id is
/// substituted into the path verbatim; callers keep it percent-safe.
pub fn playlist_by_id_v1_request(playlist_id: &str, language: Option<&str>) -> (r: ApiRequest)
    ensures
        r.url@ == "https://fortnite-api.com/v1/playlists"@ + seq!['/'] + playlist_id@
            + language_query(opt_text(language)),
        r.method@ == "GET"@,
        r.body@.len() == 0,
        r.headers@.len() == 0,
{
    language_get_with_segment("https://fortnite-api.com/v1/playlists", playlist_id, language)
}

/// Builds the request for the battle royale shop.
pub fn shop_br_v2_request(language: Option<&str>) -> (r: ApiRequest)
    ensures
        r.url@ == "https://fortnite-api.com/v2/shop/br"@ + language_query(opt_text(language)),
        r.method@ == "GET"@,
        r.body@.len() == 0,
        r.headers@.len() == 0,
{
    language_get("https://fortnite-api.com/v2/shop/br", language)
}

/// Builds the request for the combined shop.
pub fn shop_combined_v2_request(language: Option<&str>) -> (r: ApiRequest)
    ensures
        r.url@ == "https://fortnite-api.com/v2/shop/br/combined"@ + language_query(
            opt_text(language),
        ),
        r.method@ == "GET"@,
        r.body@.len() == 0,
        r.headers@.len() == 0,
{
    language_get("https://fortnite-api.com/v2/shop/br/combined", language)
}

/// The query string of a stats-by-name lookup: the name always, then
/// each option that was given, in a fixed order.
pub open spec fn stats_v2_query(
    name: Seq<char>,
    account_type: Option<StatsAccountType>,
    time_window: Option<StatsTimeWindow>,
    image: Option<StatsImage>,
) -> Seq<char> {
    query_pair(false, "name"@, name) + (match account_type {
        None => Seq::empty(),
        Some(a) => query_pair(true, "accountType"@, a.wire()),
    }) + (match time_window {
        None => Seq::empty(),
        Some(t) => query_pair(true, "timeWindow"@, t.wire()),
    }) + (match image {
        None => Seq::empty(),
        Some(i) => query_pair(true, "image"@, i.wire()),
    })
}

/// Builds the request for a player's statistics, looked up by display
/// name. The caller's API key travels in the one `Authorization` header.
pub fn stats_v2_request(
    api_key: String,
    name: &str,
    account_type: Option<StatsAccountType>,
    time_window: Option<StatsTimeWindow>,
    image: Option<StatsImage>,
) -> (r: ApiRequest)
    ensures
        r.url@ == "https://fortnite-api.com/v2/stats/br/v2"@ + stats_v2_query(
            name@,
            account_type,
            time_window,
            image,
        ),
        r.method@ == "GET"@,
        r.body@.len() == 0,
        valid_header_value(api_key@) ==> headers_model(r.headers@) == seq![
            ("Authorization"@, api_key@),
        ],
        !valid_header_value(api_key@) ==> r.headers@.len() == 0,
{
    let mut u = ApiUrl::from_base("https://fortnite-api.com/v2/stats/br/v2");
    u.append_pair("name", name);
    if let Some(a) = account_type {
        u.append_pair("accountType", a.wire_str());
    }
    if let Some(t) = time_window {
        u.append_pair("timeWindow", t.wire_str());
    }
    if let Some(i) = image {
        u.append_pair("image", i.wire_str());
    }
    proof {
        assert(u.text() =~= "https://fortnite-api.com/v2/stats/br/v2"@ + stats_v2_query(
            name@,
            account_type,
            time_window,
            image,
        ));
    }
    get_request_auth(u.into_string(), api_key)
}

/// The query string of a stats-by-account-id lookup: only the options
/// that were given, in a fixed order.
pub open spec fn stats_by_account_id_query(
    time_window: Option<StatsTimeWindow>,
    image: Option<StatsImage>,
) -> Seq<char> {
    match time_window {
        None => match image {
            None => Seq::empty(),
            Some(i) => query_pair(false, "image"@, i.wire()),
        },
        Some(t) => query_pair(false, "timeWindow"@, t.wire()) + (match image {
            None => Seq::empty(),
            Some(i) => query_pair(true, "image"@, i.wire()),
        }),
    }
}

/// Builds the request for a player's statistics, looked up by account
/// id. The id is substituted into the path verbatim; the caller's API
/// key travels in the one `Authorization` header.
pub fn stats_by_account_id_v2_request(
    api_key: String,
    account_id: &str,
    time_window: Option<StatsTimeWindow>,
    image: Option<StatsImage>,
) -> (r: ApiRequest)
    ensures
        r.url@ == "https://fortnite-api.com/v2/stats/br/v2"@ + seq!['/'] + account_id@
            + stats_by_account_id_query(time_window, image),
        r.method@ == "GET"@,
        r.body@.len() == 0,
        valid_header_value(api_key@) ==> headers_model(r.headers@) == seq![
            ("Authorization"@, api_key@),
        ],
        !valid_header_value(api_key@) ==> r.headers@.len() == 0,
{
    let mut u = ApiUrl::from_base_with_segment(
        "https://fortnite-api.com/v2/stats/br/v2",
        account_id,
    );
    if let Some(t) = time_window {
        u.append_pair("timeWindow", t.wire_str());
    }
    if let Some(i) = image {
        u.append_pair("image", i.wire_str());
    }
    proof {
        assert(u.text() =~= "https://fortnite-api.com/v2/stats/br/v2"@ + seq!['/'] + account_id@
            + stats_by_account_id_query(time_window, image));
    }
    get_request_auth(u.into_string(), api_key)
}

} // verus!

use vstd::prelude::*;
use crate::error::ApiError;
use crate::response_types::aes::AesV2;
use crate::response_types::banners::{BannersColorsV1, BannersV1};
use crate::response_types::cosmetics::{CosmeticV2, CosmeticsNewV2, CosmeticsV2};
use crate::response_types::creatorcode::CreatorCodeV2;
use crate::response_types::map::MapV1;
use crate::response_types::news::{News, NewsV2};
use crate::response_types::playlists::{PlaylistV1, PlaylistsV1};
use crate::response_types::shop::ShopV2;
use crate::response_types::stats::StatsV2;
use crate::utils::fetch::{conclude_fetch, envelope_ok, payload_models};

verus! {

/// Finishes a call of the keys endpoint: a transport failure is surfaced
/// untouched, a body is decoded as this endpoint's payload type.
pub fn aes_keys_v2_response(outcome: Result<String, String>) -> (r: Result<AesV2, ApiError>)
    ensures
        outcome matches Err(m) ==> r == Err::<AesV2, ApiError>(ApiError::Transport(m)),
        outcome matches Ok(body) ==> {
            &&& (r is Ok <==> envelope_ok::<AesV2>(body@))
            &&& (r matches Ok(v) ==> payload_models(v, body@))
            &&& (r matches Err(e) ==> e is Decode)
        },
{
    conclude_fetch::<AesV2>(outcome)
}

/// Finishes a call of the banner catalog endpoint: a transport failure is surfaced
/// untouched, a body is decoded as this endpoint's payload type.
pub fn banners_v1_response(outcome: Result<String, String>) -> (r: Result<BannersV1, ApiError>)
    ensures
        outcome matches Err(m) ==> r == Err::<BannersV1, ApiError>(ApiError::Transport(m)),
        outcome matches Ok(body) ==> {
            &&& (r is Ok <==> envelope_ok::<BannersV1>(body@))
            &&& (r matches Ok(v) ==> payload_models(v, body@))
            &&& (r matches Err(e) ==> e is Decode)
        },
{
    conclude_fetch::<BannersV1>(outcome)
}

/// Finishes a call of the banner palette endpoint: a transport failure is surfaced
/// untouched, a body is decoded as this endpoint's payload type.
pub fn banners_colors_v1_response(outcome: Result<String, String>) -> (r: Result<BannersColorsV1, ApiError>)
    ensures
        outcome matches Err(m) ==> r == Err::<BannersColorsV1, ApiError>(ApiError::Transport(m)),
        outcome matches Ok(body) ==> {
            &&& (r is Ok <==> envelope_ok::<BannersColorsV1>(body@))
            &&& (r matches Ok(v) ==> payload_models(v, body@))
            &&& (r matches Err(e) ==> e is Decode)
        },
{
    conclude_fetch::<BannersColorsV1>(outcome)
}

/// Finishes a call of the cosmetic catalog endpoint: a transport failure is surfaced
/// untouched, a body is decoded as this endpoint's payload type.
pub fn cosmetics_v2_response(outcome: Result<String, String>) -> (r: Result<CosmeticsV2, ApiError>)
    ensures
        outcome matches Err(m) ==> r == Err::<CosmeticsV2, ApiError>(ApiError::Transport(m)),
        outcome matches Ok(body) ==> {
            &&& (r is Ok <==> envelope_ok::<CosmeticsV2>(body@))
            &&& (r matches Ok(v) ==> payload_models(v, body@))
            &&& (r matches Err(e) ==> e is Decode)
        },
{
    conclude_fetch::<CosmeticsV2>(outcome)
}

/// Finishes a call of the new-cosmetics endpoint: a transport failure is surfaced
/// untouched, a body is decoded as this endpoint's payload type.
pub fn cosmetics_new_v2_response(outcome: Result<String, String>) -> (r: Result<CosmeticsNewV2, ApiError>)
    ensures
        outcome matches Err(m) ==> r == Err::<CosmeticsNewV2, ApiError>(ApiError::Transport(m)),
        outcome matches Ok(body) ==> {
            &&& (r is Ok <==> envelope_ok::<CosmeticsNewV2>(body@))
            &&& (r matches Ok(v) ==> payload_models(v, body@))
            &&& (r matches Err(e) ==> e is Decode)
        },
{
    conclude_fetch::<CosmeticsNewV2>(outcome)
}

/// Finishes a call of the single-cosmetic endpoint: a transport failure is surfaced
/// untouched, a body is decoded as this endpoint's payload type.
pub fn cosmetic_by_id_v2_response(outcome: Result<String, String>) -> (r: Result<CosmeticV2, ApiError>)
    ensures
        outcome matches Err(m) ==> r == Err::<CosmeticV2, ApiError>(ApiError::Transport(m)),
        outcome matches Ok(body) ==> {
            &&& (r is Ok <==> envelope_ok::<CosmeticV2>(body@))
            &&& (r matches Ok(v) ==> payload_models(v, body@))
            &&& (r matches Err(e) ==> e is Decode)
        },
{
    conclude_fetch::<CosmeticV2>(outcome)
}

/// Finishes a call of the creator code endpoint: a transport failure is surfaced
/// untouched, a body is decoded as this endpoint's payload type.
pub fn creatorcode_v2_response(outcome: Result<String, String>) -> (r: Result<CreatorCodeV2, ApiError>)
    ensures
        outcome matches Err(m) ==> r == Err::<CreatorCodeV2, ApiError>(ApiError::Transport(m)),
        outcome matches Ok(body) ==> {
            &&& (r is Ok <==> envelope_ok::<CreatorCodeV2>(body@))
            &&& (r matches Ok(v) ==> payload_models(v, body@))
            &&& (r matches Err(e) ==> e is Decode)
        },
{
    conclude_fetch::<CreatorCodeV2>(outcome)
}

/// Finishes a call of the map endpoint: a transport failure is surfaced
/// untouched, a body is decoded as this endpoint's payload type.
pub fn map_v1_response(outcome: Result<String, String>) -> (r: Result<MapV1, ApiError>)
    ensures
        outcome matches Err(m) ==> r == Err::<MapV1, ApiError>(ApiError::Transport(m)),
        outcome matches Ok(body) ==> {
            &&& (r is Ok <==> envelope_ok::<MapV1>(body@))
            &&& (r matches Ok(v) ==> payload_models(v, body@))
            &&& (r matches Err(e) ==> e is Decode)
        },
{
    conclude_fetch::<MapV1>(outcome)
}

/// Finishes a call of the all-modes news endpoint: a transport failure is surfaced
/// untouched, a body is decoded as this endpoint's payload type.
pub fn news_v2_response(outcome: Result<String, String>) -> (r: Result<NewsV2, ApiError>)
    ensures
        outcome matches Err(m) ==> r == Err::<NewsV2, ApiError>(ApiError::Transport(m)),
        outcome matches Ok(body) ==> {
            &&& (r is Ok <==> envelope_ok::<NewsV2>(body@))
            &&& (r matches Ok(v) ==> payload_models(v, body@))
            &&& (r matches Err(e) ==> e is Decode)
        },
{
    conclude_fetch::<NewsV2>(outcome)
}

/// Finishes a call of the battle royale news endpoint: a transport failure is surfaced
/// untouched, a body is decoded as this endpoint's payload type.
pub fn news_br_v2_response(outcome: Result<String, String>) -> (r: Result<News, ApiError>)
    ensures
        outcome matches Err(m) ==> r == Err::<News, ApiError>(ApiError::Transport(m)),
        outcome matches Ok(body) ==> {
            &&& (r is Ok <==> envelope_ok::<News>(body@))
            &&& (r matches Ok(v) ==> payload_models(v, body@))
            &&& (r matches Err(e) ==> e is Decode)
        },
{
    conclude_fetch::<News>(outcome)
}

/// Finishes a call of the save the world news endpoint: a transport failure is surfaced
/// untouched, a body is decoded as this endpoint's payload type.
pub fn news_stw_v2_response(outcome: Result<String, String>) -> (r: Result<News, ApiError>)
    ensures
        outcome matches Err(m) ==> r == Err::<News, ApiError>(ApiError::Transport(m)),
        outcome matches Ok(body) ==> {
            &&& (r is Ok <==> envelope_ok::<News>(body@))
            &&& (r matches Ok(v) ==> payload_models(v, body@))
            &&& (r matches Err(e) ==> e is Decode)
        },
{
    conclude_fetch::<News>(outcome)
}

/// Finishes a call of the creative news endpoint: a transport failure is surfaced
/// untouched, a body is decoded as this endpoint's payload type.
pub fn news_creative_v2_response(outcome: Result<String, String>) -> (r: Result<News, ApiError>)
    ensures
        outcome matches Err(m) ==> r == Err::<News, ApiError>(ApiError::Transport(m)),
        outcome matches Ok(body) ==> {
            &&& (r is Ok <==> envelope_ok::<News>(body@))
            &&& (r matches Ok(v) ==> payload_models(v, body@))
            &&& (r matches Err(e) ==> e is Decode)
        },
{
    conclude_fetch::<News>(outcome)
}

/// Finishes a call of the playlist catalog endpoint: a transport failure is surfaced
/// untouched, a body is decoded as this endpoint's payload type.
pub fn playlists_v1_response(outcome: Result<String, String>) -> (r: Result<PlaylistsV1, ApiError>)
    ensures
        outcome matches Err(m) ==> r == Err::<PlaylistsV1, ApiError>(ApiError::Transport(m)),
        outcome matches Ok(body) ==> {
            &&& (r is Ok <==> envelope_ok::<PlaylistsV1>(body@))
            &&& (r matches Ok(v) ==> payload_models(v, body@))
            &&& (r matches Err(e) ==> e is Decode)
        },
{
    conclude_fetch::<PlaylistsV1>(outcome)
}

/// Finishes a call of the single-playlist endpoint: a transport failure is surfaced
/// untouched, a body is decoded as this endpoint's payload type.
pub fn playlist_by_id_v1_response(outcome: Result<String, String>) -> (r: Result<PlaylistV1, ApiError>)
    ensures
        outcome matches Err(m) ==> r == Err::<PlaylistV1, ApiError>(ApiError::Transport(m)),
        outcome matches Ok(body) ==> {
            &&& (r is Ok <==> envelope_ok::<PlaylistV1>(body@))
            &&& (r matches Ok(v) ==> payload_models(v, body@))
            &&& (r matches Err(e) ==> e is Decode)
        },
{
    conclude_fetch::<PlaylistV1>(outcome)
}

/// Finishes a call of the battle royale shop endpoint: a transport failure is surfaced
/// untouched, a body is decoded as this endpoint's payload type.
pub fn shop_br_v2_response(outcome: Result<String, String>) -> (r: Result<ShopV2, ApiError>)
    ensures
        outcome matches Err(m) ==> r == Err::<ShopV2, ApiError>(ApiError::Transport(m)),
        outcome matches Ok(body) ==> {
            &&& (r is Ok <==> envelope_ok::<ShopV2>(body@))
            &&& (r matches Ok(v) ==> payload_models(v, body@))
            &&& (r matches Err(e) ==> e is Decode)
        },
{
    conclude_fetch::<ShopV2>(outcome)
}

/// Finishes a call of the combined shop endpoint: a transport failure is surfaced
/// untouched, a body is decoded as this endpoint's payload type.
pub fn shop_combined_v2_response(outcome: Result<String, String>) -> (r: Result<ShopV2, ApiError>)
    ensures
        outcome matches Err(m) ==> r == Err::<ShopV2, ApiError>(ApiError::Transport(m)),
        outcome matches Ok(body) ==> {
            &&& (r is Ok <==> envelope_ok::<ShopV2>(body@))
            &&& (r matches Ok(v) ==> payload_models(v, body@))
            &&& (r matches Err(e) ==> e is Decode)
        },
{
    conclude_fetch::<ShopV2>(outcome)
}

/// Finishes a call of the stats-by-name endpoint: a transport failure is surfaced
/// untouched, a body is decoded as this endpoint's payload type.
pub fn stats_v2_response(outcome: Result<String, String>) -> (r: Result<StatsV2, ApiError>)
    ensures
        outcome matches Err(m) ==> r == Err::<StatsV2, ApiError>(ApiError::Transport(m)),
        outcome matches Ok(body) ==> {
            &&& (r is Ok <==> envelope_ok::<StatsV2>(body@))
            &&& (r matches Ok(v) ==> payload_models(v, body@))
            &&& (r matches Err(e) ==> e is Decode)
        },
{
    conclude_fetch::<StatsV2>(outcome)
}

/// Finishes a call of the stats-by-account-id endpoint: a transport failure is surfaced
/// untouched, a body is decoded as this endpoint's payload type.
pub fn stats_by_account_id_v2_response(outcome: Result<String, String>) -> (r: Result<StatsV2, ApiError>)
    ensures
        outcome matches Err(m) ==> r == Err::<StatsV2, ApiError>(ApiError::Transport(m)),
        outcome matches Ok(body) ==> {
            &&& (r is Ok <==> envelope_ok::<StatsV2>(body@))
            &&& (r matches Ok(v) ==> payload_models(v, body@))
            &&& (r matches Err(e) ==> e is Decode)
        },
{
    conclude_fetch::<StatsV2>(outcome)
}

} // verus!
