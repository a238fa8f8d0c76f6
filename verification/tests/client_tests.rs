use sanicrs::client::{
    check_response, cover_file_url, cover_json_error, cover_reply, get_default_cache_dir, join_path, lyrics_document, lyrics_from_reply,
    ClientError, CoverReplyKind, Credentials, LyricsDocumentReply, LyricsListReply, OpenSubsonicClient,
};
use sanicrs::types::{AlbumListType, LyricsLine, LyricsLines, LyricsList, SubsonicError, SupportedExtensions};

fn pairs(v: &[(&str, &str)]) -> Vec<(String, String)> {
    v.iter().map(|(k, w)| (k.to_string(), w.to_string())).collect()
}

fn key_client(host: &str) -> OpenSubsonicClient {
    OpenSubsonicClient::new(host, Credentials::ApiKey { key: "k".to_string() }, "Sanic-rs", None)
}

fn user_client() -> OpenSubsonicClient {
    OpenSubsonicClient::new(
        "http://h",
        Credentials::UsernamePassword { username: "me".to_string(), password: "secret".to_string() },
        "Sanic-rs",
        Some("/tmp/covers".to_string()),
    )
}

#[test]
fn api_key_auth_params() {
    let c = key_client("http://h");
    assert_eq!(c.get_auth_params(), pairs(&[("c", "Sanic-rs"), ("v", "1.15"), ("f", "json"), ("apiKey", "k")]));
}

#[test]
fn password_auth_params_carry_salted_md5() {
    let c = user_client();
    let p = c.get_auth_params();
    assert_eq!(p.len(), 6);
    assert_eq!(&p[0..4], &pairs(&[("c", "Sanic-rs"), ("v", "1.15"), ("f", "json"), ("u", "me")])[..]);
    assert_eq!(p[4].0, "s");
    let salt = &p[4].1;
    assert_eq!(salt.len(), 16);
    assert!(salt.chars().all(|c| c.is_ascii_alphanumeric()));
    assert_eq!(p[5].0, "t");
    let expected = format!("{:x}", md5::compute(format!("secret{salt}")));
    assert_eq!(p[5].1, expected);
    assert_eq!(p[5].1.len(), 32);
    let q = c.get_auth_params();
    assert_ne!(q[4].1, p[4].1);
}

#[test]
fn get_url_formats_path_and_query() {
    let c = key_client("http://h");
    let url = c.get_action_request_get_url("ping", &pairs(&[("id", "a b")]));
    assert_eq!(url, "http://h/rest/ping?c=Sanic%2Drs&v=1%2E15&f=json&apiKey=k&id=a%20b");
    let c2 = key_client("http://h/");
    assert_eq!(c2.action_url("ping"), "http://h/rest/ping");
}

#[test]
fn stream_url_params() {
    assert_eq!(
        OpenSubsonicClient::stream_params("s1", None, None, None, None, Some(true), None),
        pairs(&[("id", "s1"), ("estimateContentLength", "true"), ("converted", "false")])
    );
    assert_eq!(
        OpenSubsonicClient::stream_params("s1", Some(320), Some("mp3".to_string()), Some(5), Some("x".to_string()), None, Some(true)),
        pairs(&[
            ("id", "s1"),
            ("estimateContentLength", "false"),
            ("converted", "true"),
            ("maxBitRate", "320"),
            ("format", "mp3"),
            ("timeOffset", "5"),
            ("size", "x"),
        ])
    );
    let c = key_client("http://h");
    assert_eq!(
        c.stream_get_url("s1", None, None, None, None, Some(true), None),
        "http://h/rest/stream?c=Sanic%2Drs&v=1%2E15&f=json&apiKey=k&id=s1&estimateContentLength=true&converted=false"
    );
}

#[test]
fn search3_defaults() {
    let c = key_client("http://h");
    let r = c.search3("q", None, None, None, None, None, None, None);
    assert_eq!(r.action, "search3");
    assert_eq!(
        r.params,
        pairs(&[
            ("query", "q"),
            ("artistCount", "20"),
            ("artistOffset", "0"),
            ("albumCount", "20"),
            ("albumOffset", "0"),
            ("songCount", "20"),
            ("songOffset", "0"),
        ])
    );
    let r = c.search3("q", Some(1), Some(2), Some(3), Some(4), Some(5), Some(6), Some("m"));
    assert_eq!(r.params.last().unwrap(), &("musicFolderId".to_string(), "m".to_string()));
    assert_eq!(r.params[6], ("songOffset".to_string(), "6".to_string()));
}

#[test]
fn album_list_request() {
    let c = key_client("http://h");
    let r = c.get_album_list(AlbumListType::AlphabeticalByArtist, None, None, Some(1990), None, Some("Rock".to_string()), None);
    assert_eq!(r.action, "getAlbumList2");
    assert_eq!(
        r.params,
        pairs(&[("type", "alphabeticalByArtist"), ("size", "10"), ("offset", "10"), ("fromYear", "1990"), ("genre", "Rock")])
    );
}

#[test]
fn simple_requests() {
    let c = key_client("http://h");
    assert_eq!(c.get_song("x").params, pairs(&[("id", "x")]));
    assert_eq!(c.get_song("x").action, "getSong");
    assert_eq!(c.get_album("x").action, "getAlbum");
    assert_eq!(c.get_artist("x").action, "getArtist");
    assert_eq!(c.get_license().action, "getLicense");
    assert!(c.get_license().params.is_empty());
    assert_eq!(c.get_extensions().action, "getOpenSubsonicExtensions");
    assert_eq!(c.get_starred().action, "getStarred2");
    assert_eq!(c.get_similar_songs("x", Some(3)).params, pairs(&[("id", "x"), ("count", "3")]));
    assert_eq!(
        c.get_random_songs(Some(10), None, None, Some(2000), None).params,
        pairs(&[("size", "10"), ("toYear", "2000")])
    );
    assert_eq!(c.scrobble("x", None).params, pairs(&[("id", "x"), ("submission", "true")]));
    assert_eq!(c.scrobble("x", Some(false)).params, pairs(&[("id", "x"), ("submission", "false")]));
    assert_eq!(c.get_cover_image("x", Some("512")).params, pairs(&[("id", "x"), ("size", "512")]));
}

#[test]
fn star_and_unstar() {
    let c = key_client("http://h");
    let r = c.star(&vec!["s".to_string()], &vec!["a".to_string()], &vec!["r".to_string(), "q".to_string()]).unwrap();
    assert_eq!(r.action, "star");
    assert_eq!(r.params, pairs(&[("id", "s"), ("albumId", "a"), ("artistId", "r"), ("artistId", "q")]));
    match c.star(&vec![], &vec![], &vec![]) {
        Err(ClientError::Message(m)) => assert_eq!(m, "No song, album or artist specified to be starred"),
        other => panic!("unexpected {:?}", other),
    }
    match c.unstar(&vec![], &vec![], &vec![]) {
        Err(ClientError::Message(m)) => assert_eq!(m, "No song, album or artist specified to be unstarred"),
        other => panic!("unexpected {:?}", other),
    }
    assert_eq!(c.unstar(&vec!["s".to_string()], &vec![], &vec![]).unwrap().action, "unstar");
}

#[test]
fn init_records_extensions() {
    let mut c = user_client();
    assert!(c.get_lyrics("x").is_none());
    assert!(!c.uses_form_post());
    let names: Vec<String> = vec!["formPost".into(), "transcodeOffset".into(), "songLyrics".into(), "formPost".into()];
    assert!(c.init(&names).is_ok());
    assert!(c.uses_form_post());
    assert!(c.has_extension(SupportedExtensions::SongLyrics));
    assert!(!c.has_extension(SupportedExtensions::ApiKeyAuthentication));
    let r = c.get_lyrics("x").unwrap();
    assert_eq!(r.action, "getLyricsBySongId");
    assert_eq!(r.params, pairs(&[("id", "x")]));
}

#[test]
fn init_with_api_key_needs_server_support() {
    let mut c = key_client("http://h");
    match c.init(&vec!["formPost".to_string()]) {
        Err(ClientError::Message(m)) => assert_eq!(m, "API Key authentication not supported by server"),
        other => panic!("unexpected {:?}", other),
    }
    let mut c = key_client("http://h");
    assert!(c.init(&vec!["apiKeyAuthentication".to_string()]).is_ok());
}

#[test]
fn response_checks() {
    assert!(check_response("ok", None, true).is_ok());
    match check_response("failed", None, true) {
        Err(ClientError::Message(m)) => assert_eq!(m, "Unknown error"),
        other => panic!("unexpected {:?}", other),
    }
    let e = SubsonicError { code: 40, message: "Wrong username or password".to_string() };
    match check_response("failed", Some(e), true) {
        Err(ClientError::Subsonic(e)) => assert_eq!(e.code, 40),
        other => panic!("unexpected {:?}", other),
    }
    match check_response("ok", None, false) {
        Err(ClientError::InvalidResponse(e)) => {
            assert_eq!(e.msg, "Response not of OpenSubsonic type (probably using an incompatible server)")
        },
        other => panic!("unexpected {:?}", other),
    }
}

#[test]
fn cache_directories() {
    assert_eq!(get_default_cache_dir(Some("/x/cache"), Some("/home/u")), Some("/x/cache/sanicrs".to_string()));
    assert_eq!(get_default_cache_dir(Some("/x/cache/"), None), Some("/x/cache/sanicrs".to_string()));
    assert_eq!(get_default_cache_dir(None, Some("/home/u")), Some("/home/u/.cache/sanicrs".to_string()));
    assert_eq!(get_default_cache_dir(None, None), None);
    assert_eq!(get_default_cache_dir(Some(""), None), Some("sanicrs".to_string()));
    assert_eq!(join_path("/a", "/b"), "/b");
    let c = user_client();
    assert_eq!(c.cover_cache_file("al-1"), Some("/tmp/covers/al-1".to_string()));
    assert_eq!(key_client("h").cover_cache_file("al-1"), None);
    assert_eq!(cover_file_url("/tmp/covers/al-1"), "file:///tmp/covers/al-1");
}

#[test]
fn cover_reply_kinds() {
    assert_eq!(cover_reply(false, Some("image/png")), CoverReplyKind::FailedStatus);
    assert_eq!(cover_reply(true, None), CoverReplyKind::NoContentType);
    assert_eq!(cover_reply(true, Some("text/xml")), CoverReplyKind::XmlError);
    assert_eq!(cover_reply(true, Some("application/json")), CoverReplyKind::JsonError);
    assert_eq!(cover_reply(true, Some("image/jpeg")), CoverReplyKind::Image);
}

#[test]
fn cover_url_from_server() {
    let c = key_client("http://h");
    assert_eq!(c.get_cover_image_url("al-1"), "http://h/rest/getCoverArt?c=Sanic%2Drs&v=1%2E15&f=json&apiKey=k&id=al%2D1");
}

fn header(lang: &str) -> LyricsList {
    LyricsList {
        display_artist: Some("A".to_string()),
        display_title: None,
        lang: lang.to_string(),
        offset: Some(-100),
        synced: false,
        lines: LyricsLines::NoLines,
    }
}

fn timed() -> Vec<LyricsLine> {
    vec![LyricsLine { start: 0, value: "one".to_string() }, LyricsLine { start: 1500, value: "two".to_string() }]
}

#[test]
fn lyrics_document_reads_synced_and_plain() {
    let d = lyrics_document(LyricsDocumentReply {
        synced: Some(true),
        timed_lines: Some(timed()),
        line_texts: None,
        header: Some(header("en")),
    })
    .unwrap();
    assert!(d.synced);
    assert_eq!(d.lang, "en");
    assert_eq!(d.offset, Some(-100));
    match d.lines {
        LyricsLines::Synced(l) => assert_eq!(l[1].start, 1500),
        other => panic!("unexpected {:?}", other),
    }
    let d = lyrics_document(LyricsDocumentReply {
        synced: None,
        timed_lines: Some(timed()),
        line_texts: Some(vec!["x".to_string()]),
        header: Some(header("de")),
    })
    .unwrap();
    assert!(!d.synced);
    match d.lines {
        LyricsLines::NotSynced(l) => assert_eq!(l, vec!["x".to_string()]),
        other => panic!("unexpected {:?}", other),
    }
    assert!(lyrics_document(LyricsDocumentReply {
        synced: Some(true),
        timed_lines: None,
        line_texts: Some(vec![]),
        header: Some(header("en")),
    })
    .is_none());
    assert!(lyrics_document(LyricsDocumentReply {
        synced: Some(false),
        timed_lines: None,
        line_texts: Some(vec![]),
        header: None,
    })
    .is_none());
}

#[test]
fn lyrics_from_replies() {
    let docs = vec![Some(header("en")), None, Some(header("fr"))];
    let v = lyrics_from_reply(true, None, LyricsListReply::Documents(docs)).unwrap();
    assert_eq!(v.iter().map(|d| d.lang.clone()).collect::<Vec<_>>(), vec!["en", "fr"]);
    assert!(lyrics_from_reply(true, None, LyricsListReply::NoStructuredLyrics).unwrap().is_empty());
    match lyrics_from_reply(true, None, LyricsListReply::NotObject) {
        Err(ClientError::InvalidResponse(e)) => assert_eq!(e.msg, "'lyricsList' wasn't object"),
        other => panic!("unexpected {:?}", other),
    }
    match lyrics_from_reply(true, None, LyricsListReply::NotArray) {
        Err(ClientError::InvalidResponse(e)) => assert_eq!(e.msg, "'structuredLyrics' wasn't an array"),
        other => panic!("unexpected {:?}", other),
    }
    let e = SubsonicError { code: 70, message: "not found".to_string() };
    match lyrics_from_reply(false, Some(e), LyricsListReply::NoStructuredLyrics) {
        Err(ClientError::Subsonic(e)) => assert_eq!(e.code, 70),
        other => panic!("unexpected {:?}", other),
    }
    match lyrics_from_reply(false, None, LyricsListReply::NoStructuredLyrics) {
        Err(ClientError::Message(m)) => assert_eq!(m, "Unknown error"),
        other => panic!("unexpected {:?}", other),
    }
}

#[test]
fn cover_json_errors() {
    let e = SubsonicError { code: 70, message: "Cover not found".to_string() };
    match cover_json_error(false, Some(e), "{}") {
        ClientError::Subsonic(e) => assert_eq!(e.code, 70),
        other => panic!("unexpected {:?}", other),
    }
    match cover_json_error(false, None, "{}") {
        ClientError::Message(m) => assert_eq!(m, "Unknown error"),
        other => panic!("unexpected {:?}", other),
    }
    match cover_json_error(true, None, "{\"a\":1}") {
        ClientError::InvalidResponse(e) => assert_eq!(e.msg, "{\"a\":1}"),
        other => panic!("unexpected {:?}", other),
    }
}
