use sanicrs::cache::{AlbumCache, AlbumLookup, ArtistCache, ArtistLookup, LyricsCache, SongCache};
use sanicrs::client::{ClientError, Credentials, OpenSubsonicClient};
use sanicrs::types::{Album, Artist, Search3Results, Song};
use std::rc::Rc;

fn song(id: &str, title: &str) -> Song {
    Song { id: id.to_string(), title: title.to_string(), ..Default::default() }
}

fn artist(id: &str, with_albums: bool) -> Artist {
    Artist {
        id: id.to_string(),
        name: format!("Artist {id}"),
        cover_art: None,
        artist_image_url: None,
        album_count: None,
        starred: None,
        music_brainz_id: None,
        sort_name: None,
        roles: None,
        albums: if with_albums { Some(vec![]) } else { None },
    }
}

fn album(id: &str, name: &str) -> Album {
    Album {
        id: id.to_string(),
        name: name.to_string(),
        version: None,
        artist: None,
        artist_id: None,
        cover_art: None,
        song_count: 0,
        duration: 0,
        play_count: None,
        created: String::new(),
        starred: None,
        year: None,
        genre: None,
        played: None,
        user_rating: None,
        record_labels: None,
        music_brainz_id: None,
        genres: None,
        artists: None,
        display_artists: None,
        release_type: None,
        moods: None,
        sort_name: None,
        original_release_date: None,
        release_date: None,
        is_compilation: None,
        explicit_status: None,
        disc_titles: None,
        songs: None,
    }
}

#[test]
fn song_cache_keeps_first_song() {
    let mut c = SongCache::new();
    let a = c.get_song_cached(song("1", "first"));
    let b = c.get_song_cached(song("1", "second"));
    assert!(Rc::ptr_eq(&a, &b));
    assert_eq!(b.title, "first");
    assert!(Rc::ptr_eq(&c.cached_song("1").unwrap(), &a));
    assert!(c.cached_song("2").is_none());
}

#[test]
fn song_cache_add_songs_shares_entries() {
    let mut c = SongCache::new();
    let first = c.get_song_cached(song("1", "cached"));
    let r = c.add_songs(vec![song("2", "two"), song("1", "new"), song("2", "dup")]);
    assert_eq!(r.len(), 3);
    assert!(Rc::ptr_eq(&r[1], &first));
    assert!(Rc::ptr_eq(&r[0], &r[2]));
    assert_eq!(r[2].title, "two");
    assert_eq!(r[1].title, "cached");
}

#[test]
fn song_cache_fetched_insert() {
    let mut c = SongCache::new();
    c.insert_fetched("asked", Rc::new(song("other", "t")));
    assert_eq!(c.cached_song("asked").unwrap().id, "other");
}

#[test]
fn song_search_results() {
    let mut c = SongCache::new();
    let r = c.search_results(Search3Results { artist: None, album: None, song: Some(vec![song("1", "a")]) });
    assert_eq!(r.unwrap().len(), 1);
    match c.search_results(Search3Results { artist: None, album: None, song: None }) {
        Err(ClientError::Message(m)) => assert_eq!(m, "No songs found"),
        other => panic!("unexpected {:?}", other),
    }
}

#[test]
fn search_requests_ask_for_one_kind() {
    let client = OpenSubsonicClient::new("http://h", Credentials::ApiKey { key: "k".into() }, "c", None);
    let r = SongCache::search(&client, "q", 5, Some(10));
    assert_eq!(r.params[1], ("artistCount".to_string(), "0".to_string()));
    assert_eq!(r.params[3], ("albumCount".to_string(), "0".to_string()));
    assert_eq!(r.params[5], ("songCount".to_string(), "5".to_string()));
    assert_eq!(r.params[6], ("songOffset".to_string(), "10".to_string()));
    let r = AlbumCache::search(&client, "q", 5, None);
    assert_eq!(r.params[3], ("albumCount".to_string(), "5".to_string()));
    assert_eq!(r.params[5], ("songCount".to_string(), "0".to_string()));
    let r = ArtistCache::search(&client, "q", 5, Some(2));
    assert_eq!(r.params[1], ("artistCount".to_string(), "5".to_string()));
    assert_eq!(r.params[2], ("artistOffset".to_string(), "2".to_string()));
}

#[test]
fn toggle_starred_requests() {
    let client = OpenSubsonicClient::new("http://h", Credentials::ApiKey { key: "k".into() }, "c", None);
    let mut s = song("9", "t");
    let (req, value) = SongCache::toggle_starred(&client, &s);
    assert_eq!(req.unwrap().action, "star");
    assert_eq!(value, Some("yes".to_string()));
    s.starred = value;
    let (req, value) = SongCache::toggle_starred(&client, &s);
    let req = req.unwrap();
    assert_eq!(req.action, "unstar");
    assert_eq!(req.params, vec![("id".to_string(), "9".to_string())]);
    assert_eq!(value, None);
}

#[test]
fn album_cache_completes_albums() {
    let mut c = AlbumCache::new();
    assert!(matches!(c.get_album("a1"), AlbumLookup::Missing));
    let listed = c.add_albums(vec![album("a1", "listed"), album("a2", "other")]);
    assert_eq!(listed.len(), 2);
    assert!(!listed[0].has_songs());
    assert!(matches!(c.get_album("a1"), AlbumLookup::NeedsSongs));
    let stored = c.store_album("a1", album("a1", "fetched"), vec![Rc::new(song("s", "t"))]);
    assert_eq!(stored.album.name, "listed");
    assert!(Rc::ptr_eq(&stored.album, &listed[0].album));
    match c.get_album("a1") {
        AlbumLookup::Complete(a) => assert_eq!(a.songs.as_ref().unwrap().len(), 1),
        other => panic!("unexpected {:?}", other),
    }
    let fresh = c.store_album("a3", album("a3", "fresh"), vec![]);
    assert_eq!(fresh.album.name, "fresh");
    assert_eq!(fresh.id(), "a3");
    let again = c.add_albums(vec![album("a1", "again")]);
    assert!(again[0].has_songs());
    match c.search_results(Search3Results { artist: None, album: None, song: None }) {
        Err(ClientError::Message(m)) => assert_eq!(m, "No albums found"),
        other => panic!("unexpected {:?}", other),
    }
}

#[test]
fn artist_cache_completes_artists() {
    let mut c = ArtistCache::new();
    assert!(matches!(c.get_artist("r"), ArtistLookup::Missing));
    let added = c.add_artist(vec![artist("r", false)]);
    assert!(matches!(c.get_artist("r"), ArtistLookup::NeedsAlbums));
    let stored = c.store_artist("r", artist("r", true));
    assert!(!Rc::ptr_eq(&added[0], &stored));
    assert!(matches!(c.get_artist("r"), ArtistLookup::Complete(_)));
    match c.search_results(Search3Results { artist: None, album: None, song: None }) {
        Err(ClientError::Message(m)) => assert_eq!(m, "No artists found"),
        other => panic!("unexpected {:?}", other),
    }
}

#[test]
fn lyrics_cache() {
    let mut c = LyricsCache::new();
    assert!(c.get_lyrics("s").is_none());
    let stored = c.store_lyrics("s", vec![]);
    assert!(Rc::ptr_eq(&c.get_lyrics("s").unwrap(), &stored));
}

#[test]
fn law_repeat_album_list_returns_same_objects() {
    let mut c = AlbumCache::new();
    let first = c.add_albums(vec![album("a1", "One"), album("a2", "Two")]);
    let second = c.add_albums(vec![album("a1", "Other"), album("a2", "Other")]);
    assert_eq!(first.len(), 2);
    for i in 0..2 {
        assert!(Rc::ptr_eq(&first[i], &second[i]));
    }
    assert_eq!(second[0].id(), "a1");
    assert_eq!(second[1].album.name, "Two");
}

#[test]
fn law_stored_album_found_complete() {
    let mut c = AlbumCache::new();
    let stored = c.store_album("a1", album("a1", "One"), vec![Rc::new(song("s1", "t"))]);
    match c.get_album("a1") {
        AlbumLookup::Complete(a) => assert!(Rc::ptr_eq(&a, &stored)),
        other => panic!("unexpected {:?}", other),
    }
}

#[test]
fn law_fetched_song_found_again() {
    let mut c = SongCache::new();
    assert!(c.cached_song("s1").is_none());
    let s = Rc::new(song("s1", "t"));
    c.insert_fetched("s1", s.clone());
    assert!(Rc::ptr_eq(&c.cached_song("s1").unwrap(), &s));
    assert!(c.cached_song("s2").is_none());
}

#[test]
fn law_toggle_twice_restores_star() {
    let client = OpenSubsonicClient::new("http://h", Credentials::ApiKey { key: "k".to_string() }, "c", None);
    let mut s = song("s1", "t");
    let (first, starred) = SongCache::toggle_starred(&client, &s);
    assert_eq!(first.unwrap().action, "star");
    s.starred = starred;
    assert_eq!(s.starred.as_deref(), Some("yes"));
    let (second, starred) = SongCache::toggle_starred(&client, &s);
    assert_eq!(second.unwrap().action, "unstar");
    s.starred = starred;
    assert!(s.starred.is_none());
}

#[test]
fn fetched_album_is_cached_under_its_own_id() {
    let mut c = AlbumCache::new();
    let stored = c.store_album("asked", album("real", "R"), vec![]);
    assert_eq!(stored.id(), "real");
    assert!(matches!(c.get_album("asked"), AlbumLookup::Missing));
    match c.get_album("real") {
        AlbumLookup::Complete(a) => assert!(Rc::ptr_eq(&a, &stored)),
        other => panic!("unexpected {:?}", other),
    }
}

#[test]
fn replies_update_the_cache_only_on_success() {
    let mut c = SongCache::new();
    match c.song_from_reply("s1", Err(ClientError::Message("down".to_string()))) {
        Err(ClientError::Message(m)) => assert_eq!(m, "down"),
        other => panic!("unexpected {:?}", other),
    }
    assert!(c.cached_song("s1").is_none());
    let s = c.song_from_reply("s1", Ok(song("s1", "t"))).unwrap();
    assert!(Rc::ptr_eq(&c.cached_song("s1").unwrap(), &s));

    let mut a = AlbumCache::new();
    assert!(a.album_list_from_reply(Err(ClientError::Message("down".to_string()))).is_err());
    assert!(matches!(a.get_album("a1"), AlbumLookup::Missing));
    let v = a.album_list_from_reply(Ok(vec![album("a1", "One")])).unwrap();
    assert_eq!(v[0].id(), "a1");
    assert!(matches!(a.get_album("a1"), AlbumLookup::NeedsSongs));
}
