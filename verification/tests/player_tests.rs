use sanicrs::dbus::{
    get_song_metadata, next_loop_status, play_action, playpause_action, remove_song, seek, set_position_accepted, song_id_from_uri,
    PlayState, PlaybackAction, SeekOutcome,
};
use sanicrs::player::{LoopStatus, MoveDirection, PlayerSettings, ReplayGainMode, SongEntry, TrackList};
use sanicrs::types::{Genre, Song};
use std::collections::HashSet;
use std::rc::Rc;

fn song(id: &str) -> Rc<Song> {
    Rc::new(Song { id: id.to_string(), title: format!("Title {id}"), ..Default::default() })
}

fn song_with_duration(id: &str, secs: u64) -> Rc<Song> {
    Rc::new(Song { id: id.to_string(), duration: Some(secs), ..Default::default() })
}

fn queue(ids: &[&str]) -> TrackList {
    let mut t = TrackList::new();
    t.add_songs(ids.iter().map(|i| song(i)).collect());
    t
}

fn ids(t: &TrackList) -> Vec<String> {
    t.get_songs().iter().map(|e| e.song.id.clone()).collect()
}

fn current_id(t: &TrackList) -> Option<String> {
    t.current().map(|e| e.song.id.clone())
}

#[test]
fn new_queue_is_empty() {
    let t = TrackList::new();
    assert!(t.empty());
    assert!(!t.is_suffled());
    assert_eq!(t.loop_status(), LoopStatus::NoLoop);
    assert_eq!(t.current_index(), None);
    assert!(t.current().is_none());
}

#[test]
fn add_songs_appends_in_order() {
    let mut t = queue(&["a", "b"]);
    t.add_songs(vec![song("c"), song("d")]);
    assert_eq!(ids(&t), vec!["a", "b", "c", "d"]);
    assert_eq!(t.current_index(), Some(0));
    assert_eq!(current_id(&t), Some("a".to_string()));
}

#[test]
fn entries_get_distinct_v4_identifiers() {
    let t = queue(&["a", "a", "a"]);
    let uuids: HashSet<u128> = t.get_songs().iter().map(|e| e.uuid).collect();
    assert_eq!(uuids.len(), 3);
    for e in t.get_songs() {
        assert_eq!((e.uuid >> 76) & 0xf, 4);
        assert_eq!((e.uuid >> 62) & 0x3, 2);
    }
}

#[test]
fn dbus_path_is_prefix_and_simple_hex() {
    let e = SongEntry { uuid: 0x0123_4567_89ab_cdef_0011_2233_4455_6677, song: song("x") };
    assert_eq!(e.dbus_path(), "/me/quartzy/sanicrs/song/0123456789abcdef0011223344556677");
    let small = SongEntry { uuid: 0xff, song: song("x") };
    assert_eq!(small.dbus_path(), "/me/quartzy/sanicrs/song/000000000000000000000000000000ff");
}

#[test]
fn next_without_loop_runs_past_the_end() {
    let mut t = queue(&["a", "b"]);
    assert!(!t.next());
    assert_eq!(current_id(&t), Some("b".to_string()));
    assert!(t.next());
    assert_eq!(current_id(&t), None);
}

#[test]
fn next_with_track_loop_stays() {
    let mut t = queue(&["a", "b"]);
    t.set_loop_status(LoopStatus::Track);
    assert!(!t.next());
    assert_eq!(current_id(&t), Some("a".to_string()));
}

#[test]
fn next_with_playlist_loop_wraps() {
    let mut t = queue(&["a", "b"]);
    t.set_loop_status(LoopStatus::Playlist);
    assert!(!t.next());
    assert_eq!(current_id(&t), Some("b".to_string()));
    assert!(!t.next());
    assert_eq!(current_id(&t), Some("a".to_string()));
}

#[test]
fn previous_stops_at_top() {
    let mut t = queue(&["a", "b"]);
    t.previous();
    assert_eq!(t.current_index(), Some(0));
}

#[test]
fn law_previous_undoes_next_concrete() {
    let mut t = queue(&["a", "b", "c"]);
    t.set_current(1);
    t.next();
    t.previous();
    assert_eq!(t.current_index(), Some(1));
    t.set_loop_status(LoopStatus::Playlist);
    t.next();
    t.previous();
    assert_eq!(t.current_index(), Some(1));
}

#[test]
fn set_current_selects_the_entry() {
    let mut t = queue(&["a", "b", "c"]);
    t.set_current(2);
    assert_eq!(t.current_index(), Some(2));
    assert_eq!(current_id(&t), Some("c".to_string()));
}

#[test]
fn set_current_when_shuffled_selects_the_entry() {
    let mut t = queue(&["a", "b", "c", "d", "e"]);
    t.set_shuffle(true);
    for i in 0..5 {
        t.set_current(i);
        assert_eq!(t.current_index(), Some(i));
        assert_eq!(current_id(&t), Some(["a", "b", "c", "d", "e"][i].to_string()));
    }
}

#[test]
fn shuffle_keeps_played_prefix_and_is_a_permutation() {
    let mut t = queue(&["a", "b", "c", "d", "e", "f"]);
    t.set_current(2);
    t.set_shuffle(true);
    assert!(t.is_suffled());
    assert_eq!(t.current_index(), Some(2));
    assert_eq!(current_id(&t), Some("c".to_string()));
    let mut played: Vec<usize> = (0..6).map(|i| t.song_at_index(i).map(|e| {
        ids(&t).iter().position(|x| *x == e.song.id).unwrap()
    }).unwrap()).collect();
    assert_eq!(&played[0..3], &[0, 1, 2]);
    played.sort();
    assert_eq!(played, vec![0, 1, 2, 3, 4, 5]);
}

#[test]
fn shuffle_at_last_entry_shuffles_everything() {
    let mut t = queue(&["a", "b", "c"]);
    t.set_current(2);
    t.set_shuffle(true);
    let mut order: Vec<String> = (0..3).map(|i| t.song_at_index(i).unwrap().song.id.clone()).collect();
    order.sort();
    assert_eq!(order, vec!["a", "b", "c"]);
}

#[test]
fn shuffle_off_keeps_position_value() {
    let mut t = queue(&["a", "b", "c"]);
    t.set_current(1);
    t.set_shuffle(true);
    t.set_shuffle(false);
    assert!(!t.is_suffled());
    assert_eq!(t.current_index(), Some(1));
}

#[test]
fn remove_before_current_moves_position() {
    let mut t = queue(&["a", "b", "c"]);
    t.set_current(2);
    let e = t.remove_song(0);
    assert_eq!(e.song.id, "a");
    assert_eq!(ids(&t), vec!["b", "c"]);
    assert_eq!(current_id(&t), Some("c".to_string()));
}

#[test]
fn remove_after_current_keeps_position() {
    let mut t = queue(&["a", "b", "c"]);
    t.set_current(1);
    t.remove_song(2);
    assert_eq!(current_id(&t), Some("b".to_string()));
}

#[test]
fn remove_current_plays_next_in_place() {
    let mut t = queue(&["a", "b", "c"]);
    t.set_current(1);
    let (e, restart) = remove_song(&mut t, 1);
    assert_eq!(e.song.id, "b");
    assert!(restart);
    assert_eq!(current_id(&t), Some("c".to_string()));
    let (_, restart) = remove_song(&mut t, 0);
    assert!(!restart);
}

#[test]
fn insert_before_current_keeps_playing_entry() {
    let mut t = queue(&["a", "b"]);
    t.set_current(1);
    t.insert_song(song("x"), Some(0));
    assert_eq!(ids(&t), vec!["x", "a", "b"]);
    assert_eq!(current_id(&t), Some("b".to_string()));
    t.insert_song(song("y"), Some(2));
    assert_eq!(ids(&t), vec!["x", "a", "y", "b"]);
    assert_eq!(current_id(&t), Some("b".to_string()));
    t.insert_song(song("z"), None);
    assert_eq!(ids(&t), vec!["x", "a", "y", "b", "z"]);
    assert_eq!(current_id(&t), Some("b".to_string()));
}

#[test]
fn insert_when_shuffled_is_played_later() {
    let mut t = queue(&["a", "b", "c"]);
    t.set_shuffle(true);
    t.insert_song(song("x"), None);
    let order: Vec<String> = (0..4).map(|i| t.song_at_index(i).unwrap().song.id.clone()).collect();
    let mut sorted = order.clone();
    sorted.sort();
    assert_eq!(sorted, vec!["a", "b", "c", "x"]);
}

#[test]
fn add_songs_when_shuffled_stays_a_permutation() {
    let mut t = queue(&["a", "b"]);
    t.set_shuffle(true);
    t.add_songs(vec![song("c"), song("d"), song("e")]);
    let mut order: Vec<String> = (0..5).map(|i| t.song_at_index(i).unwrap().song.id.clone()).collect();
    order.sort();
    assert_eq!(order, vec!["a", "b", "c", "d", "e"]);
}

#[test]
fn move_song_up_and_down() {
    let mut t = queue(&["a", "b", "c"]);
    assert_eq!(t.move_song(0, MoveDirection::Up), None);
    assert_eq!(t.move_song(2, MoveDirection::Down), None);
    assert_eq!(t.move_song(0, MoveDirection::Down), Some(1));
    assert_eq!(ids(&t), vec!["b", "a", "c"]);
    assert_eq!(current_id(&t), Some("a".to_string()));
    assert_eq!(t.move_song(1, MoveDirection::Up), Some(0));
    assert_eq!(ids(&t), vec!["a", "b", "c"]);
    assert_eq!(current_id(&t), Some("a".to_string()));
}

#[test]
fn move_neighbour_of_current() {
    let mut t = queue(&["a", "b", "c"]);
    t.set_current(1);
    assert_eq!(t.move_song(0, MoveDirection::Down), Some(0));
    assert_eq!(ids(&t), vec!["b", "a", "c"]);
    assert_eq!(current_id(&t), Some("b".to_string()));
}

#[test]
fn clear_resets_everything() {
    let mut t = queue(&["a", "b"]);
    t.set_loop_status(LoopStatus::Playlist);
    t.set_shuffle(true);
    t.clear();
    assert!(t.empty());
    assert!(!t.is_suffled());
    assert_eq!(t.loop_status(), LoopStatus::NoLoop);
}

#[test]
fn queue_songs_reports_changes() {
    let mut t = TrackList::new();
    assert!(t.queue_songs(vec![song("a"), song("b")], None, false));
    assert!(!t.queue_songs(vec![song("c")], None, false));
    assert_eq!(ids(&t), vec!["a", "b", "c"]);
    assert!(t.queue_songs(vec![song("d"), song("e")], Some(1), false));
    assert_eq!(current_id(&t), Some("e".to_string()));
    assert!(t.queue_songs(vec![song("f")], None, true));
    assert_eq!(ids(&t), vec!["f"]);
}

#[test]
fn track_paths_and_lookup() {
    let t = queue(&["a", "b", "c"]);
    let paths = t.track_paths();
    assert_eq!(paths.len(), 3);
    assert_eq!(t.position_of_path(&paths[1]), Some(1));
    assert_eq!(t.position_of_path("/nope"), None);
    assert_eq!(t.index_after_track(&paths[1]), Some(2));
    assert_eq!(t.index_after_track("/org/mpris/MediaPlayer2/TrackList/NoTrack"), Some(0));
    assert_eq!(t.index_after_track("/nope"), None);
    assert_eq!(t.path_before(0), "/org/mpris/MediaPlayer2/TrackList/NoTrack");
    assert_eq!(t.path_before(2), paths[1]);
    let found = t.entries_for_paths(&vec![paths[2].clone(), "/x".to_string(), paths[0].clone()]);
    let found_ids: Vec<String> = found.iter().map(|e| e.song.id.clone()).collect();
    assert_eq!(found_ids, vec!["c", "a"]);
    assert_eq!(t.replaced_current_path(Some(0)), paths[0]);
    assert_eq!(t.replaced_current_path(Some(9)), "/org/mpris/MediaPlayer2/TrackList/NoTrack");
    assert_eq!(t.added_track_position(None), (2, paths[1].clone()));
}

#[test]
fn playback_actions() {
    assert_eq!(play_action(PlayState::Stopped), PlaybackAction::StartCurrent);
    assert_eq!(play_action(PlayState::Paused), PlaybackAction::Resume);
    assert_eq!(play_action(PlayState::Playing), PlaybackAction::Nothing);
    assert_eq!(play_action(PlayState::Buffering), PlaybackAction::Nothing);
    assert_eq!(playpause_action(PlayState::Stopped), PlaybackAction::StartCurrent);
    assert_eq!(playpause_action(PlayState::Paused), PlaybackAction::Resume);
    assert_eq!(playpause_action(PlayState::Playing), PlaybackAction::Pause);
}

#[test]
fn loop_button_cycles() {
    assert_eq!(next_loop_status(LoopStatus::NoLoop), LoopStatus::Playlist);
    assert_eq!(next_loop_status(LoopStatus::Playlist), LoopStatus::Track);
    assert_eq!(next_loop_status(LoopStatus::Track), LoopStatus::NoLoop);
}

#[test]
fn relative_seek() {
    assert_eq!(seek(false, Some(10), 0, 5), SeekOutcome::NoSong);
    assert_eq!(seek(true, Some(10), 2_000_000, 3_000_000), SeekOutcome::SeekTo(5_000_000));
    assert_eq!(seek(true, Some(10), 2_000_000, -3_000_000), SeekOutcome::SeekTo(0));
    assert_eq!(seek(true, Some(10), 9_000_000, 1_000_000), SeekOutcome::NextSong);
    assert_eq!(seek(true, None, 9_000_000, 1_000_000), SeekOutcome::SeekTo(10_000_000));
}

#[test]
fn absolute_seek_checks() {
    let e = SongEntry { uuid: 7, song: song_with_duration("a", 10) };
    let path = e.dbus_path();
    assert!(set_position_accepted(10_000_000, Some(&e), &path));
    assert!(!set_position_accepted(10_000_001, Some(&e), &path));
    assert!(!set_position_accepted(-1, Some(&e), &path));
    assert!(!set_position_accepted(0, Some(&e), "/other"));
    assert!(!set_position_accepted(0, None, &path));
}

#[test]
fn song_uri_parsing() {
    assert_eq!(song_id_from_uri("sanic://song/abc-1").unwrap(), "abc-1");
    assert_eq!(song_id_from_uri("sanic://song/").unwrap(), "");
    let err = song_id_from_uri("http://song/abc").unwrap_err();
    assert_eq!(err.msg, "Invalid URI, should be sanic://song/<song-id>");
}

#[test]
fn replay_gain_settings() {
    assert_eq!(ReplayGainMode::from_setting(0), (ReplayGainMode::Disabled, false));
    assert_eq!(ReplayGainMode::from_setting(1), (ReplayGainMode::Track, false));
    assert_eq!(ReplayGainMode::from_setting(2), (ReplayGainMode::Album, false));
    assert_eq!(ReplayGainMode::from_setting(7), (ReplayGainMode::Disabled, true));
    assert_eq!(ReplayGainMode::Album.filter_setup(), (true, true));
    assert_eq!(ReplayGainMode::Track.filter_setup(), (true, false));
    assert_eq!(ReplayGainMode::Disabled.filter_setup(), (false, true));
    assert_eq!(ReplayGainMode::Track.to_setting(), 1);
    let mut s = PlayerSettings::default_settings();
    assert_eq!(f64::from_bits(s.volume_bits), 1.0);
    assert!(s.should_scrobble);
    assert!(s.load_settings(9, 0.5f64.to_bits(), false));
    assert_eq!(s.replay_gain_mode, ReplayGainMode::Disabled);
    assert_eq!(f64::from_bits(s.volume_bits), 0.5);
    assert!(!s.should_scrobble);
}

#[test]
fn metadata_of_no_track() {
    let m = get_song_metadata(None, Some("http://h/cover".to_string()));
    assert_eq!(m.track_id, "/org/mpris/MediaPlayer2/TrackList/NoTrack");
    assert!(m.title.is_none());
    assert!(m.art_url.is_none());
    assert!(m.length_millis.is_none());
}

#[test]
fn metadata_of_a_song() {
    let s = Song {
        id: "s1".to_string(),
        title: "Title".to_string(),
        album: Some("Album".to_string()),
        duration: Some(61),
        cover_art: Some("al-1".to_string()),
        genres: Some(vec![Genre { name: "Rock".to_string() }, Genre { name: "Pop".to_string() }]),
        comment: Some("nice".to_string()),
        play_count: Some(3),
        track: Some(4),
        user_rating: Some(5),
        disc_number: Some(2),
        bpm: Some(120),
        ..Default::default()
    };
    let entry = SongEntry::new(Rc::new(s));
    let m = get_song_metadata(Some(&entry), Some("http://h/cover".to_string()));
    assert_eq!(m.track_id, entry.dbus_path());
    assert_eq!(m.title.as_deref(), Some("Title"));
    assert_eq!(m.art_url.as_deref(), Some("http://h/cover"));
    assert_eq!(m.length_millis, Some(61000));
    assert_eq!(m.album.as_deref(), Some("Album"));
    assert!(m.artists.is_none());
    assert_eq!(m.genres, Some(vec!["Rock".to_string(), "Pop".to_string()]));
    assert_eq!(m.comment, Some(vec!["nice".to_string()]));
    assert!(m.composer.is_none());
    assert_eq!(m.use_count, Some(3));
    assert_eq!(m.track_number, Some(4));
    assert_eq!(m.user_rating, Some(5));
    assert_eq!(m.disc_number, Some(2));
    assert_eq!(m.audio_bpm, Some(120));
    let bare = SongEntry::new(song("s2"));
    assert!(get_song_metadata(Some(&bare), Some("http://h/cover".to_string())).art_url.is_none());
}

#[test]
fn shuffled_move_in_played_part_keeps_play_order() {
    let mut t = queue(&["a", "b", "c", "d", "e"]);
    t.set_current(1);
    t.set_shuffle(true);
    let played = |t: &TrackList| -> Vec<String> {
        (0..5).map(|p| t.song_at_index(p).unwrap().song.id.clone()).collect()
    };
    let before = played(&t);
    assert_eq!(&before[0..2], &["a".to_string(), "b".to_string()]);
    assert_eq!(t.move_song(0, MoveDirection::Down), Some(0));
    assert_eq!(ids(&t)[0..2], ["b".to_string(), "a".to_string()]);
    assert_eq!(played(&t), before);
    assert_eq!(current_id(&t), Some("b".to_string()));
}

#[test]
fn shuffled_move_keeps_play_order() {
    for _ in 0..20 {
        let mut t = queue(&["a", "b", "c", "d", "e"]);
        t.set_shuffle(true);
        let played = |t: &TrackList| -> Vec<u128> { (0..5).map(|p| t.song_at_index(p).unwrap().uuid).collect() };
        let before = played(&t);
        assert_eq!(t.move_song(2, MoveDirection::Down), Some(0));
        assert_eq!(ids(&t), vec!["a", "b", "d", "c", "e"]);
        assert_eq!(played(&t), before);
        assert_eq!(t.move_song(4, MoveDirection::Up), Some(0));
        assert_eq!(ids(&t), vec!["a", "b", "d", "e", "c"]);
        assert_eq!(played(&t), before);
        assert_eq!(current_id(&t), Some("a".to_string()));
    }
}
