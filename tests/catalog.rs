use guava::asset::{asset_path, is_safe_hash};
use guava::config::StoreConfig;
use guava::content::{resolve_hash, Content, ContentError, GuavaContentType};
use guava::envelope::{generate_response, is_success};
use guava::playlist::{GuavaPlaylist, PlaylistContent, PlaylistLight};
use guava::service::{
    download_asset, file_not_found, get_hash_of_content, list_playlist, listing_to_json,
    missing_parameter, playlist_content, Download,
};
use guava::store::{Lookup, StoreError};

fn record(id: &str, kind: GuavaContentType, hash: &str) -> Content {
    Content { content_id: id.to_string(), content_type: kind, hash: hash.to_string() }
}

fn entry(name: &str, kind: GuavaContentType, id: &str) -> PlaylistContent {
    PlaylistContent { name: name.to_string(), content_type: kind, content_id: id.to_string() }
}

fn morning() -> GuavaPlaylist {
    GuavaPlaylist {
        name: "Morning".to_string(),
        identifier: "p1".to_string(),
        content: Some(vec![entry("Song", GuavaContentType::Sound, "c1")]),
    }
}

#[test]
fn ordinals_are_stable() {
    assert_eq!(GuavaContentType::Unspecified.ordinal(), 0);
    assert_eq!(GuavaContentType::Sound.ordinal(), 1);
    assert_eq!(GuavaContentType::Video.ordinal(), 2);
    assert_eq!(GuavaContentType::from_ordinal(0), Some(GuavaContentType::Unspecified));
    assert_eq!(GuavaContentType::from_ordinal(1), Some(GuavaContentType::Sound));
    assert_eq!(GuavaContentType::from_ordinal(2), Some(GuavaContentType::Video));
}

#[test]
fn unknown_ordinal_is_refused() {
    assert_eq!(GuavaContentType::from_ordinal(3), None);
    assert_eq!(GuavaContentType::from_ordinal(u32::MAX), None);
}

#[test]
fn resolve_hash_returns_record_hash() {
    let id = "c1".to_string();
    let found = Lookup::Found(record("c1", GuavaContentType::Video, "abcd1234"));
    assert_eq!(resolve_hash(&id, found), Ok("abcd1234".to_string()));
}

#[test]
fn resolve_hash_keeps_empty_hash_of_record() {
    let id = "c2".to_string();
    let found = Lookup::Found(record("c2", GuavaContentType::Sound, ""));
    assert_eq!(resolve_hash(&id, found), Ok(String::new()));
}

#[test]
fn resolve_hash_without_record_is_not_found() {
    let id = "unknown".to_string();
    assert_eq!(resolve_hash(&id, Lookup::Missing), Err(ContentError::NotFound));
    let other = Lookup::Found(record("c1", GuavaContentType::Sound, "abcd1234"));
    assert_eq!(resolve_hash(&id, other), Err(ContentError::NotFound));
}

#[test]
fn resolve_hash_store_failure_is_backend() {
    let id = "c1".to_string();
    assert_eq!(resolve_hash(&id, Lookup::Failed), Err(ContentError::Backend));
}

#[test]
fn status_classes() {
    assert!(is_success(200));
    assert!(is_success(204));
    assert!(is_success(299));
    assert!(!is_success(199));
    assert!(!is_success(300));
    assert!(!is_success(400));
    assert!(!is_success(404));
    assert!(!is_success(500));
}

#[test]
fn envelope_success_follows_status() {
    for status in [200u16, 204, 400, 404, 500] {
        let r = generate_response(status, Some("1".to_string()), Some("oops".to_string()));
        assert_eq!(r.status, status);
        assert_eq!(r.success(), is_success(status));
        let v: serde_json::Value = serde_json::from_str(&r.body).unwrap();
        assert_eq!(v["success"].as_bool(), Some(is_success(status)));
    }
}

#[test]
fn envelope_success_without_result_is_empty_object() {
    let r = generate_response(200, None, None);
    assert_eq!(r.body, "{\"success\":true,\"result\":{}}");
}

#[test]
fn envelope_error_default_message() {
    let r = generate_response(500, None, None);
    assert_eq!(r.body, "{\"success\":false,\"error\":\"Internal Server Error\"}");
    assert!(!r.success());
}

#[test]
fn envelope_error_message_is_escaped() {
    let r = generate_response(404, None, Some("say \"hi\"".to_string()));
    assert_eq!(r.body, "{\"success\":false,\"error\":\"say \\\"hi\\\"\"}");
}

#[test]
fn scenario_playlist_content_found() {
    let r = playlist_content(&"p1".to_string(), Lookup::Found(morning()));
    assert_eq!(r.status, 200);
    assert_eq!(
        r.body,
        "{\"success\":true,\"result\":{\"name\":\"Morning\",\"identifier\":\"p1\",\"content\":[{\"name\":\"Song\",\"content_type\":1,\"content_id\":\"c1\"}]}}"
    );
    let v: serde_json::Value = serde_json::from_str(&r.body).unwrap();
    assert_eq!(v["result"]["content"][0]["content_id"].as_str(), Some("c1"));
}

#[test]
fn scenario_playlist_missing_is_no_content() {
    let r = playlist_content(&"missing".to_string(), Lookup::Missing);
    assert_eq!(r.status, 204);
    assert!(r.success());
    assert_eq!(r.body, "{\"success\":true,\"result\":{}}");
}

#[test]
fn playlist_store_failure_is_internal_error() {
    let r = playlist_content(&"p1".to_string(), Lookup::Failed);
    assert_eq!(r.status, 500);
    assert_eq!(r.body, "{\"success\":false,\"error\":\"Internal Server Error\"}");
}

#[test]
fn playlist_without_entry_list_has_null_content() {
    let p = GuavaPlaylist { name: "Empty".to_string(), identifier: "p2".to_string(), content: None };
    let r = playlist_content(&"p2".to_string(), Lookup::Found(p));
    assert_eq!(
        r.body,
        "{\"success\":true,\"result\":{\"name\":\"Empty\",\"identifier\":\"p2\",\"content\":null}}"
    );
}

#[test]
fn playlist_entries_keep_stored_order() {
    let p = GuavaPlaylist {
        name: "Mix".to_string(),
        identifier: "p3".to_string(),
        content: Some(vec![
            entry("B", GuavaContentType::Video, "c9"),
            entry("A", GuavaContentType::Unspecified, "c1"),
            entry("A", GuavaContentType::Unspecified, "c1"),
        ]),
    };
    assert_eq!(
        p.to_json(),
        "{\"name\":\"Mix\",\"identifier\":\"p3\",\"content\":[{\"name\":\"B\",\"content_type\":2,\"content_id\":\"c9\"},{\"name\":\"A\",\"content_type\":0,\"content_id\":\"c1\"},{\"name\":\"A\",\"content_type\":0,\"content_id\":\"c1\"}]}"
    );
}

#[test]
fn listing_leaves_content_out() {
    let mut big = Vec::new();
    for i in 0..50 {
        big.push(entry("content", GuavaContentType::Sound, &format!("c{}", i)));
    }
    let ps = vec![
        morning(),
        GuavaPlaylist { name: "Evening".to_string(), identifier: "p2".to_string(), content: Some(big) },
        GuavaPlaylist { name: "Night".to_string(), identifier: "p3".to_string(), content: None },
    ];
    let r = list_playlist(Ok(ps));
    assert_eq!(r.status, 200);
    assert_eq!(
        r.body,
        "{\"success\":true,\"result\":[{\"name\":\"Morning\",\"identifier\":\"p1\"},{\"name\":\"Evening\",\"identifier\":\"p2\"},{\"name\":\"Night\",\"identifier\":\"p3\"}]}"
    );
    let v: serde_json::Value = serde_json::from_str(&r.body).unwrap();
    for item in v["result"].as_array().unwrap() {
        assert!(item.get("content").is_none());
    }
}

#[test]
fn listing_of_no_playlists_is_empty_array() {
    assert_eq!(listing_to_json(&Vec::new()), "[]");
    let r = list_playlist(Ok(Vec::new()));
    assert_eq!(r.body, "{\"success\":true,\"result\":[]}");
}

#[test]
fn listing_store_failure_fails_whole_request() {
    let r = list_playlist(Err(StoreError));
    assert_eq!(r.status, 500);
    assert!(!r.success());
    assert_eq!(r.body, "{\"success\":false,\"error\":\"Internal Server Error\"}");
}

#[test]
fn light_projection_keeps_name_and_identifier() {
    let l = morning().light();
    assert_eq!(l.name, "Morning");
    assert_eq!(l.identifier, "p1");
    let l2 = PlaylistLight { name: "a\\b".to_string(), identifier: "x".to_string() };
    assert_eq!(l2.to_json(), "{\"name\":\"a\\\\b\",\"identifier\":\"x\"}");
}

#[test]
fn hash_of_content_found() {
    let r = get_hash_of_content(
        &"c1".to_string(),
        Lookup::Found(record("c1", GuavaContentType::Sound, "abcd1234")),
    );
    assert_eq!(r.status, 200);
    assert_eq!(r.body, "{\"success\":true,\"result\":\"abcd1234\"}");
}

#[test]
fn scenario_hash_of_unknown_content() {
    let r = get_hash_of_content(&"unknown".to_string(), Lookup::Missing);
    assert_eq!(r.status, 404);
    assert!(!r.success());
    assert_eq!(r.body, "{\"success\":false,\"error\":\"content not found\"}");
    let v: serde_json::Value = serde_json::from_str(&r.body).unwrap();
    assert_eq!(v["success"].as_bool(), Some(false));
}

#[test]
fn hash_of_content_store_failure_is_not_found() {
    let r = get_hash_of_content(&"c1".to_string(), Lookup::Failed);
    assert_eq!(r.status, 404);
    assert_eq!(r.body, "{\"success\":false,\"error\":\"content not found\"}");
}

#[test]
fn scenario_download_missing_file() {
    let d = download_asset(
        &"c1".to_string(),
        Lookup::Found(record("c1", GuavaContentType::Sound, "abcd1234")),
    );
    match d {
        Download::Stream(path) => assert_eq!(path, "content/abcd1234"),
        Download::Reply(_) => panic!("expected a stream"),
    }
    let r = file_not_found();
    assert_eq!(r.status, 404);
    let v: serde_json::Value = serde_json::from_str(&r.body).unwrap();
    assert_eq!(v["error"].as_str(), Some("file not found"));
}

#[test]
fn scenario_download_streams_raw_file() {
    let d = download_asset(
        &"c1".to_string(),
        Lookup::Found(record("c1", GuavaContentType::Video, "abcd1234")),
    );
    assert!(matches!(d, Download::Stream(ref p) if p == "content/abcd1234"));
}

#[test]
fn download_of_unknown_content_is_file_not_found() {
    for found in [Lookup::Missing, Lookup::Failed] {
        match download_asset(&"unknown".to_string(), found) {
            Download::Reply(r) => {
                assert_eq!(r.status, 404);
                assert_eq!(r.body, "{\"success\":false,\"error\":\"file not found\"}");
            },
            Download::Stream(_) => panic!("expected a reply"),
        }
    }
}

#[test]
fn download_refuses_hash_leaving_asset_root() {
    for hash in ["../secret", "a/b", "a\\b", "..", ""] {
        let d = download_asset(
            &"c1".to_string(),
            Lookup::Found(record("c1", GuavaContentType::Sound, hash)),
        );
        assert!(matches!(d, Download::Reply(ref r) if r.status == 404));
    }
}

#[test]
fn safe_hashes() {
    assert!(is_safe_hash(&"abcd1234".to_string()));
    assert!(is_safe_hash(&"a.b.c".to_string()));
    assert!(!is_safe_hash(&"a..b".to_string()));
    assert!(!is_safe_hash(&"".to_string()));
    assert_eq!(asset_path(&"ff00".to_string()), Some("content/ff00".to_string()));
    assert_eq!(asset_path(&"x/../y".to_string()), None);
}

#[test]
fn missing_parameter_is_bad_request() {
    let r = missing_parameter();
    assert_eq!(r.status, 400);
    assert_eq!(r.body, "{\"success\":false,\"error\":\"missing path parameter\"}");
}

#[test]
fn connection_string_defaults() {
    let c = StoreConfig::from_settings(None, None);
    assert_eq!(c.connection_string(), "mongodb://127.0.0.1:27017/");
    let c = StoreConfig::from_settings(Some("db.local".to_string()), Some("1234".to_string()));
    assert_eq!(c.connection_string(), "mongodb://db.local:1234/");
}
