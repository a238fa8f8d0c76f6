use sanicrs::text::{decimal_string, starts_with, str_eq};
use sanicrs::types::{
    duration_display_str, Album, AlbumListType, Artist, InvalidResponseError, LyricsLine, LyricsLines, LyricsList,
    Song, SubsonicError, SupportedExtensions,
};

fn artist(id: &str, name: &str) -> Artist {
    Artist {
        id: id.to_string(),
        name: name.to_string(),
        cover_art: None,
        artist_image_url: None,
        album_count: None,
        starred: None,
        music_brainz_id: None,
        sort_name: None,
        roles: None,
        albums: None,
    }
}

fn album(artists: Option<Vec<Artist>>, display: Option<&str>, single: Option<&str>) -> Album {
    Album {
        id: "al".to_string(),
        name: "Name".to_string(),
        version: None,
        artist: single.map(|s| s.to_string()),
        artist_id: None,
        cover_art: None,
        song_count: 3,
        duration: 61,
        play_count: None,
        created: "2020".to_string(),
        starred: None,
        year: None,
        genre: None,
        played: None,
        user_rating: None,
        record_labels: None,
        music_brainz_id: None,
        genres: None,
        artists,
        display_artists: display.map(|s| s.to_string()),
        release_type: None,
        moods: None,
        sort_name: None,
        original_release_date: None,
        release_date: None,
        is_compilation: None,
        explicit_status: None,
        disc_titles: None,
        songs: None,
    }
}

#[test]
fn decimal_text() {
    assert_eq!(decimal_string(0), "0");
    assert_eq!(decimal_string(7), "7");
    assert_eq!(decimal_string(1234567890), "1234567890");
    assert_eq!(decimal_string(u64::MAX), u64::MAX.to_string());
}

#[test]
fn text_comparisons() {
    assert!(str_eq("abc", "abc"));
    assert!(!str_eq("abc", "abd"));
    assert!(!str_eq("abc", "ab"));
    assert!(starts_with("sanic://song/x", "sanic://"));
    assert!(!starts_with("san", "sanic"));
    assert!(starts_with("é€x", "é€"));
}

#[test]
fn durations() {
    assert_eq!(duration_display_str(3723), "1h 2m 3s");
    assert_eq!(duration_display_str(3600), "1h 0m 0s");
    assert_eq!(duration_display_str(125), "2m 5s");
    assert_eq!(duration_display_str(5), "5s");
    assert_eq!(duration_display_str(0), "0s");
    assert_eq!(duration_display_str(90061), "25h 1m 1s");
}

#[test]
fn album_list_type_names() {
    assert_eq!(AlbumListType::Random.into(), "random");
    assert_eq!(AlbumListType::Newest.into(), "newest");
    assert_eq!(AlbumListType::Highest.into(), "highest");
    assert_eq!(AlbumListType::Frequent.into(), "frequent");
    assert_eq!(AlbumListType::Recent.into(), "recent");
    assert_eq!(AlbumListType::AlphabeticalByName.into(), "alphabeticalByName");
    assert_eq!(AlbumListType::AlphabeticalByArtist.into(), "alphabeticalByArtist");
    assert_eq!(AlbumListType::Starred.into(), "starred");
    assert_eq!(AlbumListType::ByYear.into(), "byYear");
    assert_eq!(AlbumListType::ByGenre.into(), "byGenre");
}

#[test]
fn extension_names() {
    assert_eq!(SupportedExtensions::try_from(&"formPost".to_string()).unwrap(), SupportedExtensions::FormPost);
    assert_eq!(SupportedExtensions::try_from(&"songLyrics".to_string()).unwrap(), SupportedExtensions::SongLyrics);
    assert_eq!(
        SupportedExtensions::try_from(&"apiKeyAuthentication".to_string()).unwrap(),
        SupportedExtensions::ApiKeyAuthentication
    );
    let e = SupportedExtensions::try_from(&"transcodeOffset".to_string()).unwrap_err();
    assert_eq!(e.msg, "Unsupported extension type (non fatal)");
}

#[test]
fn error_texts() {
    let e = SubsonicError { code: 40, message: "Wrong password".to_string() };
    assert_eq!(e.to_string(), "Error from subsonic (code 40): Wrong password");
    let e = SubsonicError { code: -3, message: "x".to_string() };
    assert_eq!(e.to_string(), "Error from subsonic (code -3): x");
    let e = SubsonicError { code: i32::MIN, message: "m".to_string() };
    assert_eq!(e.to_string(), format!("Error from subsonic (code {}): m", i32::MIN));
    assert_eq!(e.description(), "Subsonic error");
    let i = InvalidResponseError::new("bad");
    assert_eq!(i.msg, "bad");
    assert_eq!(i.to_string(), "Invalid Subsonic response: bad");
    assert_eq!(i.description(), "Invalid Subsonic response");
    let b = InvalidResponseError::new_boxed("boxed");
    assert_eq!(b.msg, "boxed");
}

#[test]
fn song_artist_texts() {
    let mut s = Song { id: "1".to_string(), ..Default::default() };
    assert_eq!(s.artists_no_markup(), "Unknown artist");
    assert_eq!(s.artists(&vec![]), "Unknown artist");
    s.artist = Some("Solo".to_string());
    assert_eq!(s.artists_no_markup(), "Solo");
    s.display_artists = Some("Duo & Co".to_string());
    assert_eq!(s.artists_no_markup(), "Duo & Co");
    s.artists = Some(vec![artist("a1", "A & B"), artist("a2", "C")]);
    assert_eq!(s.artists_no_markup(), "A & B, C");
    assert_eq!(
        s.artists(&vec!["A &amp; B".to_string(), "C".to_string()]),
        "<a href=\"a1\" title=\"View artist\" class=\"normal-link\">A &amp; B</a>•<a href=\"a2\" title=\"View artist\" class=\"normal-link\">C</a>"
    );
    s.artists = Some(vec![]);
    assert_eq!(s.artists_no_markup(), "");
}

#[test]
fn album_artist_texts() {
    let a = album(None, None, Some("Band"));
    assert_eq!(a.artists_no_markup(), "Band");
    let a = album(Some(vec![artist("x", "X")]), Some("ignored"), None);
    assert_eq!(a.artists_no_markup(), "X");
    assert_eq!(a.artists(&vec!["X".to_string()]), "<a href=\"x\" title=\"View artist\" class=\"normal-link\">X</a>");
}

#[test]
fn starred_flags() {
    let mut s = Song::default();
    assert!(!s.is_starred());
    s.starred = Some("2024-01-01".to_string());
    assert!(s.is_starred());
    let mut a = artist("a", "A");
    assert!(!a.is_starred());
    a.starred = Some("yes".to_string());
    assert!(a.is_starred());
    let mut al = album(None, None, None);
    assert!(!al.is_starred());
    al.starred = Some("yes".to_string());
    assert!(al.is_starred());
}

#[test]
fn lyrics_lines_set_synced_flag() {
    let mut l = LyricsList {
        display_artist: None,
        display_title: None,
        lang: "en".to_string(),
        offset: None,
        synced: true,
        lines: LyricsLines::NoLines,
    };
    l.set_lines(LyricsLines::NotSynced(vec!["a".to_string()]));
    assert!(!l.synced);
    l.set_lines(LyricsLines::Synced(vec![LyricsLine { start: 0, value: "a".to_string() }]));
    assert!(l.synced);
    l.set_lines(LyricsLines::NoLines);
    assert!(!l.synced);
}
