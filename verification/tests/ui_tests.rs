use sanicrs::types::{Album, Artist, LyricsLine, LyricsLines, LyricsList, Song, Starred};
use sanicrs::ui::{
    album_highlight, album_info_fields, artist_album_count, artist_info_fields, carousel_target, from_list,
    lyric_states, lyrics_synced, row_states, search_type_for, song_count_caption, song_count_label, song_duration_label,
    song_filetype, song_info_fields, starred_sections,
    time_label, update_colors, vec_to_arr, CoverSize, PositionState, Rgb, SearchType, SongInfo, ViewColors,
};

fn lyrics(offset: Option<i64>, lines: LyricsLines) -> LyricsList {
    LyricsList { display_artist: None, display_title: None, lang: "en".to_string(), offset, synced: false, lines }
}

fn line(start: u32, value: &str) -> LyricsLine {
    LyricsLine { start, value: value.to_string() }
}

fn rgb(r: u8, g: u8, b: u8) -> Rgb {
    Rgb { r, g, b }
}

#[test]
fn lyrics_with_offset() {
    let l = lyrics(Some(-500), LyricsLines::Synced(vec![line(1000, "a"), line(2500, "b")]));
    let r = from_list(&l);
    assert_eq!(r.len(), 2);
    assert_eq!((r[0].start, r[0].value.as_str()), (500, "a"));
    assert_eq!((r[1].start, r[1].value.as_str()), (2000, "b"));
    let wrapped = from_list(&lyrics(Some(-1), LyricsLines::Synced(vec![line(0, "x")])));
    assert_eq!(wrapped[0].start, u32::MAX);
    let plain = from_list(&lyrics(Some(300), LyricsLines::NotSynced(vec!["p".to_string()])));
    assert_eq!((plain[0].start, plain[0].value.as_str()), (0, "p"));
    assert!(from_list(&lyrics(None, LyricsLines::NoLines)).is_empty());
    assert!(lyrics_synced(&LyricsLines::Synced(vec![])));
    assert!(!lyrics_synced(&LyricsLines::NoLines));
}

#[test]
fn lyric_line_states() {
    let starts = vec![1000, 2000, 3000];
    assert_eq!(lyric_states(&starts, 500_000_000), vec![PositionState::Upcoming, PositionState::Upcoming]);
    assert_eq!(lyric_states(&starts, 1_000_000_000), vec![PositionState::Current, PositionState::Upcoming]);
    assert_eq!(lyric_states(&starts, 1_500_000_000), vec![PositionState::Current, PositionState::Upcoming]);
    assert_eq!(lyric_states(&starts, 2_500_000_000), vec![PositionState::Passed, PositionState::Current]);
    assert_eq!(lyric_states(&starts, 9_000_000_000), vec![PositionState::Passed, PositionState::Passed]);
    assert!(lyric_states(&vec![5], 0).is_empty());
}

#[test]
fn queue_row_states() {
    assert_eq!(
        row_states(4, 1),
        vec![PositionState::Passed, PositionState::Current, PositionState::Upcoming, PositionState::Upcoming]
    );
    assert!(row_states(0, 0).is_empty());
}

#[test]
fn palettes_fill_four_colours() {
    assert_eq!(vec_to_arr(None), None);
    assert_eq!(vec_to_arr(Some(vec![])), Some([Rgb::default(); 4]));
    let a = rgb(1, 2, 3);
    let b = rgb(4, 5, 6);
    assert_eq!(vec_to_arr(Some(vec![a, b])), Some([a, b, a, b]));
    let c = vec![rgb(1, 1, 1), rgb(2, 2, 2), rgb(3, 3, 3), rgb(4, 4, 4), rgb(5, 5, 5)];
    assert_eq!(vec_to_arr(Some(c)), Some([rgb(1, 1, 1), rgb(2, 2, 2), rgb(3, 3, 3), rgb(4, 4, 4)]));
}

#[test]
fn colour_style_sheet() {
    assert_eq!(update_colors(None, None), ":root {}");
    let s = [rgb(1, 2, 3), rgb(4, 5, 6), rgb(7, 8, 9), rgb(10, 11, 255)];
    assert_eq!(
        update_colors(Some(s), None),
        ":root {--song-color-0:rgb(1,2,3);--song-color-1:rgb(4,5,6);--song-color-2:rgb(7,8,9);--song-color-3:rgb(10,11,255);}"
    );
    let v = [rgb(0, 0, 0); 4];
    let css = update_colors(None, Some(v));
    assert!(css.starts_with(":root {--view-color-0:rgb(0,0,0);"));
    assert!(css.ends_with("--view-color-3:rgb(0,0,0);}"));
}

#[test]
fn view_colour_stack() {
    let mut v = ViewColors::new();
    assert_eq!(v.top(), None);
    v.set(Some(vec![rgb(1, 1, 1)]));
    assert_eq!(v.top(), Some([rgb(1, 1, 1); 4]));
    v.push(Some(vec![rgb(2, 2, 2)]));
    assert_eq!(v.top(), Some([rgb(2, 2, 2); 4]));
    v.set(None);
    assert_eq!(v.top(), None);
    v.pop();
    assert_eq!(v.top(), Some([rgb(1, 1, 1); 4]));
    v.clear();
    assert_eq!(v.top(), None);
    v.pop();
    assert_eq!(v.top(), None);
}

#[test]
fn time_labels() {
    assert_eq!(time_label(0), "0:00");
    assert_eq!(time_label(65), "1:05");
    assert_eq!(time_label(600), "10:00");
    assert_eq!(time_label(3671), "61:11");
}

#[test]
fn search_types() {
    assert_eq!(search_type_for(0), (SearchType::Song, false));
    assert_eq!(search_type_for(1), (SearchType::Album, false));
    assert_eq!(search_type_for(2), (SearchType::Artist, false));
    assert_eq!(search_type_for(3), (SearchType::Song, true));
}

#[test]
fn carousel_moves_within_pages() {
    assert_eq!(carousel_target(0, -1, 5), 0);
    assert_eq!(carousel_target(2, 1, 5), 3);
    assert_eq!(carousel_target(4, 1, 5), 4);
    assert_eq!(carousel_target(3, -10, 5), 0);
}

#[test]
fn album_highlights() {
    assert_eq!(album_highlight(Some(3)), Some(2));
    assert_eq!(album_highlight(None), None);
    assert_eq!(album_highlight(Some(-1)), Some(u32::MAX - 1));
}

#[test]
fn song_labels() {
    let mut s = Song { id: "1".to_string(), ..Default::default() };
    assert_eq!(song_filetype(&s), None);
    assert_eq!(song_duration_label(&s), None);
    s.suffix = Some("flac".to_string());
    s.bit_rate = Some(1411);
    s.duration = Some(75);
    assert_eq!(song_filetype(&s), Some("FLAC/1411".to_string()));
    assert_eq!(song_duration_label(&s), Some("1m 15s".to_string()));
}

#[test]
fn info_fields() {
    let s = Song {
        id: "1".to_string(),
        title: "T".to_string(),
        duration: Some(5),
        bit_rate: Some(320),
        isrc: Some(vec!["A".to_string(), "B".to_string()]),
        ..Default::default()
    };
    let f = song_info_fields(&s);
    assert_eq!(f.len(), 13);
    assert_eq!(f[0], ("ID".to_string(), "1".to_string()));
    assert_eq!(f[2], ("Artist".to_string(), "Unknown artist".to_string()));
    assert_eq!(f[3], ("Path".to_string(), "Unknown".to_string()));
    assert_eq!(f[4], ("Duration".to_string(), "5s".to_string()));
    assert_eq!(f[7], ("Bit rate".to_string(), "320".to_string()));
    assert_eq!(f[12], ("ISRC".to_string(), "A, B".to_string()));

    let ar = Artist {
        id: "r".to_string(),
        name: "R".to_string(),
        cover_art: None,
        artist_image_url: None,
        album_count: Some(4),
        starred: None,
        music_brainz_id: None,
        sort_name: None,
        roles: None,
        albums: None,
    };
    assert_eq!(artist_album_count(&ar), Some("4".to_string()));
    let f = artist_info_fields(&ar);
    assert_eq!(f[2], ("Album count".to_string(), "4".to_string()));
    assert_eq!(f[3], ("MusicBrainz ID".to_string(), "Unknown".to_string()));

    let al = Album {
        id: "al".to_string(),
        name: "N".to_string(),
        version: None,
        artist: Some("Band".to_string()),
        artist_id: None,
        cover_art: None,
        song_count: 12,
        duration: 3600,
        play_count: Some(3),
        created: String::new(),
        starred: None,
        year: Some(1999),
        genre: None,
        played: None,
        user_rating: None,
        record_labels: None,
        music_brainz_id: None,
        genres: None,
        artists: None,
        display_artists: None,
        release_type: None,
        moods: None,
        sort_name: None,
        original_release_date: None,
        release_date: None,
        is_compilation: None,
        explicit_status: None,
        disc_titles: None,
        songs: None,
    };
    let f = album_info_fields(&al);
    assert_eq!(f[0], ("Artist".to_string(), "Band".to_string()));
    assert_eq!(f[3], ("Song count".to_string(), "12".to_string()));
    assert_eq!(f[4], ("Duration".to_string(), "1h 0m 0s".to_string()));
    assert_eq!(f[5], ("Play count".to_string(), "3".to_string()));
    assert_eq!(f[7], ("Year".to_string(), "1999".to_string()));
}

#[test]
fn song_info_summary() {
    let s = Song { id: "ab-cd-ef".to_string(), title: "T".to_string(), duration: Some(9), ..Default::default() };
    let info = SongInfo::from_song(&s);
    assert_eq!(info.artist, "Unknown Artist");
    assert_eq!(info.album, "Unknown Album");
    assert_eq!(info.duration, 9);
    assert_eq!(info.dbus_path(), "/me/quartzy/sanicrs/track/ab/cd/ef");
}

#[test]
fn position_state_classes() {
    assert_eq!(PositionState::Passed.as_ref(), "passed");
    assert_eq!(PositionState::Current.as_ref(), "current");
    assert_eq!(PositionState::Upcoming.as_ref(), "upcoming");
    assert_eq!(PositionState::default(), PositionState::Upcoming);
}

#[test]
fn cover_sizes() {
    assert_eq!(CoverSize::default(), CoverSize::Huge);
    assert_eq!(CoverSize::Huge.as_ref(), "huge");
    assert_eq!(CoverSize::Large.as_ref(), "large");
    assert_eq!(CoverSize::Small.as_ref(), "small");
    assert_eq!(CoverSize::Huge.measure(), (512, 512, -1, -1));
    assert_eq!(CoverSize::Large.measure(), (192, 192, -1, -1));
    assert_eq!(CoverSize::Small.measure(), (64, 64, -1, -1));
}

#[test]
fn starred_sections_hide_empty_lists() {
    let s = Starred { artists: None, albums: Some(vec![]), songs: Some(vec![Song::default()]) };
    assert_eq!(starred_sections(&s), (true, false, false));
}

#[test]
fn song_count_texts() {
    assert_eq!(song_count_label(12), "12 songs");
    assert_eq!(song_count_label(0), "0 songs");
    assert_eq!(song_count_caption(7), "Song count: 7");
}
