//! The decisions of the media-player D-Bus service: which queue entry a track
//! identifier names, where added tracks go, what playback commands do and
//! whether a seek is carried out.
use vstd::prelude::*;
use std::rc::Rc;
use crate::player::{
    after_remove, after_set_current, entry_at, is_append_of, song_dbus_path, LoopStatus, SongEntry, TrackList,
    TrackListView,
};
use crate::text::{has_prefix, hex_fixed, str_eq, starts_with};
use crate::types::{artist_name_strings, artist_names, string_views, Artist, Genre, InvalidResponseError, Song};

verus! {

/// The object path that stands for "no track" in the MPRIS track-list interface.
pub open spec fn no_track_path() -> Seq<char> {
    "/org/mpris/MediaPlayer2/TrackList/NoTrack"@
}

/// The scheme and prefix of the song URIs that this player opens.
pub open spec fn song_uri_prefix() -> Seq<char> {
    "sanic://song/"@
}

/// The message of the error for a URI that does not name a song.
pub open spec fn invalid_uri_msg() -> Seq<char> {
    "Invalid URI, should be sanic://song/<song-id>"@
}

/// The first queue index whose entry has the object path `path`, or -1.
pub open spec fn path_position(songs: Seq<SongEntry>, path: Seq<char>) -> int
    decreases songs.len(),
{
    if songs.len() == 0 {
        -1
    } else {
        let p = path_position(songs.drop_last(), path);
        if p >= 0 {
            p
        } else if song_dbus_path(songs.last().uuid) == path {
            songs.len() - 1
        } else {
            -1
        }
    }
}

/// `path_position` is the first entry with that path.
proof fn lemma_path_position(songs: Seq<SongEntry>, path: Seq<char>)
    ensures
        -1 <= path_position(songs, path) < songs.len(),
        path_position(songs, path) >= 0 ==> song_dbus_path(songs[path_position(songs, path)].uuid) == path,
        forall|j: int| 0 <= j < songs.len() && (path_position(songs, path) < 0 || j < path_position(songs, path))
            ==> song_dbus_path(#[trigger] songs[j].uuid) != path,
    decreases songs.len(),
{
    if songs.len() > 0 {
        lemma_path_position(songs.drop_last(), path);
        assert forall|j: int| 0 <= j < songs.len() && (path_position(songs, path) < 0 || j < path_position(songs, path))
            implies song_dbus_path(#[trigger] songs[j].uuid) != path by {
            if j < songs.len() - 1 {
                assert(songs[j] == songs.drop_last()[j]);
            }
        }
    }
}

/// The queue index at which a track added after `after_track` goes.
pub open spec fn index_after(songs: Seq<SongEntry>, after_track: Seq<char>) -> Option<usize> {
    if after_track == no_track_path() {
        Some(0usize)
    } else {
        let p = path_position(songs, after_track);
        if p >= 0 { Some((p + 1) as usize) } else { None }
    }
}

/// The outcome of a relative seek.
#[derive(Debug, PartialEq, Eq, Structural, Clone, Copy)]
pub enum SeekOutcome {
    /// Nothing is playing: nothing happens.
    NoSong,
    /// The target lies at or past the end of the song: move on to the next song.
    NextSong,
    /// Seek to this position, in microseconds.
    SeekTo(u128),
}

/// The target of a relative seek, in microseconds, never below zero.
pub open spec fn seek_target(current_micros: u64, offset_micros: i64) -> int {
    if offset_micros > 0 {
        current_micros + offset_micros
    } else if current_micros >= -offset_micros {
        current_micros + offset_micros
    } else {
        0
    }
}

/// What a relative seek does, given the song's duration in seconds, if known.
pub open spec fn seek_outcome(
    has_song: bool,
    duration_secs: Option<u64>,
    current_micros: u64,
    offset_micros: i64,
) -> SeekOutcome {
    if !has_song {
        SeekOutcome::NoSong
    } else {
        let target = seek_target(current_micros, offset_micros);
        match duration_secs {
            Some(d) => if d * 1_000_000 <= target { SeekOutcome::NextSong } else { SeekOutcome::SeekTo(target as u128) },
            None => SeekOutcome::SeekTo(target as u128),
        }
    }
}

/// A relative seek aims at the current position plus the offset, or at the start of
/// the song when that would lie before it: it seeks there while that lies before the
/// song's end (or the length is unknown), moves on to the next song otherwise, and does
/// nothing when no song is playing.
pub proof fn law_seek_aims_at_offset(has_song: bool, duration_secs: Option<u64>, current_micros: u64, offset_micros: i64)
    ensures
        !has_song ==> seek_outcome(has_song, duration_secs, current_micros, offset_micros) == SeekOutcome::NoSong,
        has_song ==> ({
            let aim: int = if current_micros + offset_micros < 0 { 0 } else { current_micros + offset_micros };
            match duration_secs {
                Some(d) => if aim < d * 1_000_000 {
                    seek_outcome(has_song, duration_secs, current_micros, offset_micros) == SeekOutcome::SeekTo(aim as u128)
                } else {
                    seek_outcome(has_song, duration_secs, current_micros, offset_micros) == SeekOutcome::NextSong
                },
                None => seek_outcome(has_song, duration_secs, current_micros, offset_micros) == SeekOutcome::SeekTo(aim as u128),
            }
        }),
{
}

/// What a playback command does in a given playback state.
#[derive(Debug, PartialEq, Eq, Structural, Clone, Copy)]
pub enum PlaybackAction {
    /// Start playing the current queue entry from its beginning.
    StartCurrent,
    /// Continue playing where playback was paused.
    Resume,
    /// Pause playback.
    Pause,
    /// Leave playback as it is.
    Nothing,
}

/// The playback states of the audio pipeline.
#[derive(Debug, PartialEq, Eq, Structural, Clone, Copy)]
pub enum PlayState {
    Stopped,
    Buffering,
    Paused,
    Playing,
}

/// What "play" does: start from a stop, resume from a pause, otherwise nothing.
pub fn play_action(state: PlayState) -> (a: PlaybackAction)
    ensures
        a == match state {
            PlayState::Stopped => PlaybackAction::StartCurrent,
            PlayState::Paused => PlaybackAction::Resume,
            _ => PlaybackAction::Nothing,
        },
{
    match state {
        PlayState::Stopped => PlaybackAction::StartCurrent,
        PlayState::Paused => PlaybackAction::Resume,
        _ => PlaybackAction::Nothing,
    }
}

/// What "play/pause" does: start from a stop, resume from a pause, otherwise pause.
pub fn playpause_action(state: PlayState) -> (a: PlaybackAction)
    ensures
        a == match state {
            PlayState::Stopped => PlaybackAction::StartCurrent,
            PlayState::Paused => PlaybackAction::Resume,
            _ => PlaybackAction::Pause,
        },
{
    match state {
        PlayState::Stopped => PlaybackAction::StartCurrent,
        PlayState::Paused => PlaybackAction::Resume,
        _ => PlaybackAction::Pause,
    }
}

/// The loop mode that the loop button switches to: none, then playlist, then track.
pub fn next_loop_status(status: LoopStatus) -> (r: LoopStatus)
    ensures
        r == match status {
            LoopStatus::NoLoop => LoopStatus::Playlist,
            LoopStatus::Playlist => LoopStatus::Track,
            LoopStatus::Track => LoopStatus::NoLoop,
        },
{
    match status {
        LoopStatus::NoLoop => LoopStatus::Playlist,
        LoopStatus::Playlist => LoopStatus::Track,
        LoopStatus::Track => LoopStatus::NoLoop,
    }
}

/// Whether an absolute seek to `position_micros` stays within the song: a song of known
/// duration cannot be sought past its end.
pub fn position_within_song(position_micros: u64, duration_secs: Option<u64>) -> (r: bool)
    ensures
        r == match duration_secs {
            Some(d) => position_micros <= d * 1_000_000,
            None => true,
        },
{
    match duration_secs {
        Some(d) => (position_micros as u128) <= (d as u128) * 1_000_000,
        None => true,
    }
}

/// What a relative seek by `offset_micros` from `current_micros` does, when the playing
/// song (if any) has the given duration in seconds.
pub fn seek(has_song: bool, duration_secs: Option<u64>, current_micros: u64, offset_micros: i64) -> (r: SeekOutcome)
    requires
        offset_micros != i64::MIN,
    ensures
        r == seek_outcome(has_song, duration_secs, current_micros, offset_micros),
{
    if !has_song {
        return SeekOutcome::NoSong;
    }
    let target: u128 = if offset_micros > 0 {
        (current_micros as u128) + (offset_micros as u128)
    } else {
        let back = (-offset_micros) as u64;
        if current_micros >= back { (current_micros - back) as u128 } else { 0 }
    };
    match duration_secs {
        Some(d) => {
            if (d as u128) * 1_000_000 <= target {
                SeekOutcome::NextSong
            } else {
                SeekOutcome::SeekTo(target)
            }
        },
        None => SeekOutcome::SeekTo(target),
    }
}

/// The id of the song that a `sanic://song/<id>` URI names.
pub fn song_id_from_uri(uri: &str) -> (r: Result<String, InvalidResponseError>)
    ensures
        r is Ok <==> has_prefix(uri@, song_uri_prefix()),
        r matches Ok(id) ==> song_uri_prefix() + id@ == uri@,
        r matches Err(e) ==> e.msg@ == invalid_uri_msg(),
{
    proof {
        reveal_strlit("sanic://song/");
    }
    if !starts_with(uri, "sanic://song/") {
        return Err(InvalidResponseError::new("Invalid URI, should be sanic://song/<song-id>"));
    }
    let len = uri.unicode_len();
    let id = uri.substring_char(13, len);
    let ghost p = song_uri_prefix();
    assert(uri@.subrange(0, 13) == p);
    assert(p + id@ =~= uri@);
    Ok(String::from_str(id))
}

/// Whether an absolute seek requested over D-Bus is carried out: the position is not
/// negative, a song is playing, the request names that song's entry and the position
/// lies within the song.
pub fn set_position_accepted(position_micros: i64, current: Option<&SongEntry>, track_id: &str) -> (r: bool)
    ensures
        r == (position_micros >= 0 && match current {
            Some(e) => song_dbus_path(e.uuid) == track_id@ && match e.song.duration {
                Some(d) => position_micros <= d * 1_000_000,
                None => true,
            },
            None => false,
        }),
{
    if position_micros < 0 {
        return false;
    }
    match current {
        None => false,
        Some(e) => {
            let path = e.dbus_path();
            if !str_eq(path.as_str(), track_id) {
                return false;
            }
            position_within_song(position_micros as u64, e.song.duration)
        },
    }
}

/// Removes the entry at queue index `index` and tells whether it was the one playing
/// (so that playback must restart with the entry that takes its place).
pub fn remove_song(track_list: &mut TrackList, index: usize) -> (r: (SongEntry, bool))
    requires
        index < old(track_list)@.songs.len(),
        old(track_list)@.shuffled ==> old(track_list)@.current < old(track_list)@.order.len(),
    ensures
        r.0 == old(track_list)@.songs[index as int],
        final(track_list)@ == after_remove(old(track_list)@, index as int),
        r.1 == (entry_at(old(track_list)@, old(track_list)@.current as int) matches Some(e) && e.uuid == r.0.uuid),
{
    let playing: Option<u128> = match track_list.current() {
        Some(e) => Some(e.uuid),
        None => None,
    };
    let e = track_list.remove_song(index);
    let restart = match playing {
        Some(u) => u == e.uuid,
        None => false,
    };
    (e, restart)
}

impl TrackList {
    /// The queue index of the first entry published under `path`.
    pub fn position_of_path(&self, path: &str) -> (r: Option<usize>)
        ensures
            match r {
                Some(i) => path_position(self@.songs, path@) == i,
                None => path_position(self@.songs, path@) == -1,
            },
    {
        let songs = self.get_songs();
        proof {
            lemma_path_position(songs@, path@);
        }
        let n = songs.len();
        let mut i: usize = 0;
        while i < n
            invariant
                n == songs@.len(),
                songs@ == self@.songs,
                i <= n,
                forall|j: int| 0 <= j < i ==> song_dbus_path(#[trigger] songs@[j].uuid) != path@,
                -1 <= path_position(songs@, path@) < songs@.len(),
                path_position(songs@, path@) >= 0 ==> song_dbus_path(songs@[path_position(songs@, path@)].uuid) == path@,
                forall|j: int| 0 <= j < songs@.len() && (path_position(songs@, path@) < 0 || j < path_position(songs@, path@))
                    ==> song_dbus_path(#[trigger] songs@[j].uuid) != path@,
            decreases n - i,
        {
            let p = songs[i].dbus_path();
            if str_eq(p.as_str(), path) {
                assert(song_dbus_path(songs@[i as int].uuid) == path@);
                return Some(i);
            }
            i = i + 1;
        }
        None
    }

    /// The queue index for a track added after the track `after_track`: the top for
    /// "no track", the place after that track if it is queued, otherwise none.
    pub fn index_after_track(&self, after_track: &str) -> (r: Option<usize>)
        requires
            self@.songs.len() < usize::MAX,
        ensures
            r == index_after(self@.songs, after_track@),
    {
        proof {
            lemma_path_position(self@.songs, after_track@);
        }
        if str_eq(after_track, "/org/mpris/MediaPlayer2/TrackList/NoTrack") {
            Some(0)
        } else {
            match self.position_of_path(after_track) {
                Some(i) => Some(i + 1),
                None => None,
            }
        }
    }

    /// The object path of the track before queue index `index` ("no track" at the top).
    pub fn path_before(&self, index: usize) -> (r: String)
        requires
            index <= self@.songs.len(),
        ensures
            r@ == if index == 0 { no_track_path() } else { song_dbus_path(self@.songs[index - 1].uuid) },
    {
        if index == 0 {
            String::from_str("/org/mpris/MediaPlayer2/TrackList/NoTrack")
        } else {
            self.get_songs()[index - 1].dbus_path()
        }
    }

    /// The object paths of the queued entries, in queue order.
    pub fn track_paths(&self) -> (r: Vec<String>)
        ensures
            r@.len() == self@.songs.len(),
            forall|i: int| 0 <= i < r@.len() ==> #[trigger] r@[i]@ == song_dbus_path(self@.songs[i].uuid),
    {
        let songs = self.get_songs();
        let mut r: Vec<String> = Vec::new();
        let n = songs.len();
        let mut i: usize = 0;
        while i < n
            invariant
                n == songs@.len(),
                songs@ == self@.songs,
                i <= n,
                r@.len() == i,
                forall|j: int| 0 <= j < i ==> #[trigger] r@[j]@ == song_dbus_path(self@.songs[j].uuid),
            decreases n - i,
        {
            r.push(songs[i].dbus_path());
            i = i + 1;
        }
        r
    }

    /// The queued entries published under the given paths, in the order of the paths;
    /// paths that name no entry are skipped.
    pub fn entries_for_paths(&self, paths: &Vec<String>) -> (r: Vec<SongEntry>)
        ensures
            r@ == entries_for(self@.songs, paths@),
    {
        let mut r: Vec<SongEntry> = Vec::new();
        let n = paths.len();
        let mut i: usize = 0;
        while i < n
            invariant
                n == paths@.len(),
                i <= n,
                r@ == entries_for(self@.songs, paths@.take(i as int)),
            decreases n - i,
        {
            assert(paths@.take(i + 1).drop_last() =~= paths@.take(i as int));
            proof {
                lemma_path_position(self@.songs, paths@[i as int]@);
            }
            match self.position_of_path(paths[i].as_str()) {
                Some(p) => {
                    r.push(self.get_songs()[p].clone());
                },
                None => {},
            }
            i = i + 1;
        }
        assert(paths@.take(n as int) =~= paths@);
        r
    }

    /// Queues `songs` (after emptying the queue when `clear_previous`), then, when
    /// `set_index` is given, selects the `set_index`-th of the new songs. Returns whether
    /// the playing song changed: when a song was selected or the queue had been empty.
    pub fn queue_songs(&mut self, songs: Vec<Rc<Song>>, set_index: Option<usize>, clear_previous: bool) -> (changed: bool)
        requires
            clear_previous ==> songs@.len() <= usize::MAX,
            !clear_previous ==> old(self)@.songs.len() + songs@.len() <= usize::MAX,
            !clear_previous && old(self)@.shuffled ==> old(self)@.current <= old(self)@.order.len(),
            set_index matches Some(i) ==> (if clear_previous { i as int } else { old(self)@.songs.len() + i }) <= usize::MAX,
        ensures
            exists|w: TrackListView| #[trigger] is_append_of(queue_base(old(self)@, clear_previous), w, songs@)
                && final(self)@ == match set_index {
                    Some(i) => after_set_current(
                        w,
                        (if clear_previous { i as int } else { old(self)@.songs.len() + i }) as usize,
                    ),
                    None => w,
                },
            changed == (set_index is Some || (clear_previous || old(self)@.songs.len() == 0)),
    {
        let len = if clear_previous {
            self.clear();
            0
        } else {
            self.songs_len()
        };
        let ghost cleared = self@;
        proof {
            if clear_previous {
                assert(cleared.songs =~= Seq::<SongEntry>::empty());
                assert(cleared.order =~= Seq::<usize>::empty());
            }
            assert(cleared == queue_base(old(self)@, clear_previous));
        }
        self.add_songs(songs);
        let ghost w = self@;
        assert(is_append_of(queue_base(old(self)@, clear_previous), w, songs@));
        match set_index {
            Some(index) => {
                self.set_current(len + index);
                true
            },
            None => len == 0,
        }
    }

    /// The number of queued entries.
    pub fn songs_len(&self) -> (n: usize)
        ensures
            n == self@.songs.len(),
    {
        self.get_songs().len()
    }

    /// The position of the new entry after adding a track at `index` (or at the end)
    /// and the object path of the track before it.
    pub fn added_track_position(&self, index: Option<usize>) -> (r: (usize, String))
        requires
            self@.songs.len() > 0,
            index matches Some(i) ==> i < self@.songs.len(),
        ensures
            r.0 == match index {
                Some(i) => i,
                None => (self@.songs.len() - 1) as usize,
            },
            r.1@ == if r.0 == 0 { no_track_path() } else { song_dbus_path(self@.songs[r.0 - 1].uuid) },
    {
        let new_i = match index {
            Some(i) => i,
            None => self.songs_len() - 1,
        };
        (new_i, self.path_before(new_i))
    }

    /// The object path of the entry that is playing, for announcing a replaced track
    /// list: the entry at queue index `current_i` if there is one, otherwise "no track".
    pub fn replaced_current_path(&self, current_i: Option<usize>) -> (r: String)
        ensures
            r@ == match current_i {
                Some(i) => if i < self@.songs.len() { song_dbus_path(self@.songs[i as int].uuid) } else { no_track_path() },
                None => no_track_path(),
            },
    {
        match current_i {
            Some(i) => {
                if i < self.songs_len() {
                    self.get_songs()[i].dbus_path()
                } else {
                    String::from_str("/org/mpris/MediaPlayer2/TrackList/NoTrack")
                }
            },
            None => String::from_str("/org/mpris/MediaPlayer2/TrackList/NoTrack"),
        }
    }
}

/// The queue that `queue_songs` adds to: an empty, reset one when clearing first.
pub open spec fn queue_base(v: TrackListView, clear_previous: bool) -> TrackListView {
    if clear_previous {
        TrackListView {
            songs: Seq::empty(),
            current: 0,
            order: Seq::empty(),
            shuffled: false,
            loop_status: LoopStatus::NoLoop,
        }
    } else {
        v
    }
}

/// The entries named by `paths`, in the order of the paths, skipping paths that name none.
pub open spec fn entries_for(songs: Seq<SongEntry>, paths: Seq<String>) -> Seq<SongEntry>
    decreases paths.len(),
{
    if paths.len() == 0 {
        Seq::empty()
    } else {
        let rest = entries_for(songs, paths.drop_last());
        let p = path_position(songs, paths.last()@);
        if p >= 0 { rest.push(songs[p]) } else { rest }
    }
}

/// The metadata that the media-player service publishes for a queue entry. The length
/// is in milliseconds; the rating is the song's rating out of 5 (the service shows it
/// divided by 5).
#[derive(Debug, Clone)]
pub struct SongMetadata {
    pub track_id: String,
    pub title: Option<String>,
    pub art_url: Option<String>,
    pub length_millis: Option<i64>,
    pub album: Option<String>,
    pub artists: Option<Vec<String>>,
    pub album_artists: Option<Vec<String>>,
    pub genres: Option<Vec<String>>,
    pub comment: Option<Vec<String>>,
    pub composer: Option<Vec<String>>,
    pub last_used: Option<String>,
    pub use_count: Option<i32>,
    pub track_number: Option<i32>,
    pub user_rating: Option<u8>,
    pub disc_number: Option<i32>,
    pub audio_bpm: Option<i32>,
}

/// The view of an optional string.
pub open spec fn text_view(s: Option<String>) -> Option<Seq<char>> {
    match s {
        Some(v) => Some(v@),
        None => None,
    }
}

/// The view of an optional list of strings.
pub open spec fn texts_view(v: Option<Vec<String>>) -> Option<Seq<Seq<char>>> {
    match v {
        Some(l) => Some(string_views(l@)),
        None => None,
    }
}

/// The names of an optional list of artists.
pub open spec fn opt_artist_names(v: Option<Vec<Artist>>) -> Option<Seq<Seq<char>>> {
    match v {
        Some(l) => Some(artist_names(l@)),
        None => None,
    }
}

/// The names of a list of genres, in order.
pub open spec fn genre_names(v: Seq<Genre>) -> Seq<Seq<char>> {
    Seq::new(v.len(), |i: int| v[i].name@)
}

/// A text as a list of one text, where there is one.
pub open spec fn single_text(s: Option<String>) -> Option<Seq<Seq<char>>> {
    match s {
        Some(v) => Some(seq![v@]),
        None => None,
    }
}

/// A length in whole seconds as milliseconds, taken as a 64-bit signed value.
pub open spec fn millis_of(secs: u64) -> i64 {
    (secs as int * 1000) as i64
}

/// Whether `m` is the metadata of the entry `song` (none: no track), where `art_url` is
/// the URL under which the song's cover is offered.
pub open spec fn metadata_of(song: Option<SongEntry>, art_url: Option<String>, m: SongMetadata) -> bool {
    match song {
        None => {
            &&& m.track_id@ == no_track_path()
            &&& m.title is None && m.art_url is None && m.length_millis is None && m.album is None
            &&& m.artists is None && m.album_artists is None && m.genres is None && m.comment is None
            &&& m.composer is None && m.last_used is None && m.use_count is None && m.track_number is None
            &&& m.user_rating is None && m.disc_number is None && m.audio_bpm is None
        },
        Some(e) => {
            let s = *e.song;
            &&& m.track_id@ == song_dbus_path(e.uuid)
            &&& text_view(m.title) == Some(s.title@)
            &&& text_view(m.art_url) == (if s.cover_art is Some { text_view(art_url) } else { None })
            &&& m.length_millis == (match s.duration {
                Some(d) => Some(millis_of(d)),
                None => None,
            })
            &&& text_view(m.album) == text_view(s.album)
            &&& texts_view(m.artists) == opt_artist_names(s.artists)
            &&& texts_view(m.album_artists) == opt_artist_names(s.album_artists)
            &&& texts_view(m.genres) == (match s.genres {
                Some(g) => Some(genre_names(g@)),
                None => None,
            })
            &&& texts_view(m.comment) == single_text(s.comment)
            &&& texts_view(m.composer) == single_text(s.display_composer)
            &&& text_view(m.last_used) == text_view(s.played)
            &&& m.use_count == (match s.play_count {
                Some(n) => Some(n as i32),
                None => None,
            })
            &&& m.track_number == s.track
            &&& m.user_rating == s.user_rating
            &&& m.disc_number == (match s.disc_number {
                Some(d) => Some(d as i32),
                None => None,
            })
            &&& m.audio_bpm == (match s.bpm {
                Some(b) => Some(b as i32),
                None => None,
            })
        },
    }
}

/// The metadata of an entry names the song's own artists, in order (none exactly when the
/// song lists none), separately from its album artists and its genres, which are named
/// likewise; its title is the song's title and its track id is the entry's object path.
pub proof fn law_metadata_names(e: SongEntry, art_url: Option<String>, m: SongMetadata)
    requires
        metadata_of(Some(e), art_url, m),
    ensures
        m.title matches Some(t) && t@ == e.song.title@,
        m.track_id@ == "/me/quartzy/sanicrs/song/"@ + hex_fixed(e.uuid as nat, 32),
        m.artists is None <==> e.song.artists is None,
        e.song.artists matches Some(l) ==> (m.artists matches Some(n) && n@.len() == l@.len()
            && forall|i: int| 0 <= i < l@.len() ==> #[trigger] n@[i]@ == l@[i].name@),
        m.album_artists is None <==> e.song.album_artists is None,
        e.song.album_artists matches Some(l) ==> (m.album_artists matches Some(n) && n@.len() == l@.len()
            && forall|i: int| 0 <= i < l@.len() ==> #[trigger] n@[i]@ == l@[i].name@),
        m.genres is None <==> e.song.genres is None,
        e.song.genres matches Some(l) ==> (m.genres matches Some(n) && n@.len() == l@.len()
            && forall|i: int| 0 <= i < l@.len() ==> #[trigger] n@[i]@ == l@[i].name@),
{
    let s = *e.song;
    match s.artists {
        Some(l) => {
            let n = m.artists->0;
            assert(string_views(n@) == artist_names(l@));
            assert(string_views(n@).len() == n@.len());
            assert(artist_names(l@).len() == l@.len());
            assert forall|i: int| 0 <= i < l@.len() implies #[trigger] n@[i]@ == l@[i].name@ by {
                assert(string_views(n@)[i] == artist_names(l@)[i]);
            }
        },
        None => {},
    }
    match s.album_artists {
        Some(l) => {
            let n = m.album_artists->0;
            assert(string_views(n@) == artist_names(l@));
            assert(string_views(n@).len() == n@.len());
            assert(artist_names(l@).len() == l@.len());
            assert forall|i: int| 0 <= i < l@.len() implies #[trigger] n@[i]@ == l@[i].name@ by {
                assert(string_views(n@)[i] == artist_names(l@)[i]);
            }
        },
        None => {},
    }
    match s.genres {
        Some(l) => {
            let n = m.genres->0;
            assert(string_views(n@) == genre_names(l@));
            assert(string_views(n@).len() == n@.len());
            assert(genre_names(l@).len() == l@.len());
            assert forall|i: int| 0 <= i < l@.len() implies #[trigger] n@[i]@ == l@[i].name@ by {
                assert(string_views(n@)[i] == genre_names(l@)[i]);
            }
        },
        None => {},
    }
}

/// The other metadata of an entry, field by field: its album, comment, composer and
/// last play come from the song's album, comment, composer and last play; its length is
/// the song's duration in milliseconds; its play count, disc number and tempo are the
/// song's (where they fit the published type); its track number and rating are the
/// song's; it offers a cover URL exactly when the song has a cover. Without an entry,
/// only the "no track" path is published.
pub proof fn law_metadata_fields(song: Option<SongEntry>, art_url: Option<String>, m: SongMetadata)
    requires
        metadata_of(song, art_url, m),
    ensures
        song is None ==> m.track_id@ == "/org/mpris/MediaPlayer2/TrackList/NoTrack"@ && m.title is None
            && m.artists is None && m.album is None && m.length_millis is None,
        song matches Some(e) ==> ({
            let s = *e.song;
            &&& m.album is None <==> s.album is None
            &&& m.album matches Some(x) ==> x@ == s.album->0@
            &&& m.comment is None <==> s.comment is None
            &&& m.comment matches Some(x) ==> x@.len() == 1 && x@[0]@ == s.comment->0@
            &&& m.composer is None <==> s.display_composer is None
            &&& m.composer matches Some(x) ==> x@.len() == 1 && x@[0]@ == s.display_composer->0@
            &&& m.last_used is None <==> s.played is None
            &&& m.last_used matches Some(x) ==> x@ == s.played->0@
            &&& m.length_millis is None <==> s.duration is None
            &&& (match s.duration { Some(d) => d * 1000 <= i64::MAX ==> m.length_millis == Some((d * 1000) as i64), None => true })
            &&& m.use_count is None <==> s.play_count is None
            &&& (match s.play_count { Some(x) => x <= i32::MAX ==> m.use_count == Some(x as i32), None => true })
            &&& m.disc_number is None <==> s.disc_number is None
            &&& (match s.disc_number { Some(x) => x <= i32::MAX ==> m.disc_number == Some(x as i32), None => true })
            &&& m.audio_bpm is None <==> s.bpm is None
            &&& (match s.bpm { Some(x) => x <= i32::MAX ==> m.audio_bpm == Some(x as i32), None => true })
            &&& m.track_number == s.track
            &&& m.user_rating == s.user_rating
            &&& m.art_url is Some ==> s.cover_art is Some
            &&& s.cover_art is Some ==> (m.art_url is None <==> art_url is None) && (m.art_url matches Some(x) ==> x@ == art_url->0@)
        }),
{
    if let Some(e) = song {
        let s = *e.song;
        if let Some(x) = m.comment {
            assert(string_views(x@) == seq![s.comment->0@]);
            assert(string_views(x@).len() == x@.len());
            assert(string_views(x@)[0] == x@[0]@);
        }
        if let Some(x) = m.composer {
            assert(string_views(x@) == seq![s.display_composer->0@]);
            assert(string_views(x@).len() == x@.len());
            assert(string_views(x@)[0] == x@[0]@);
        }
    }
}

/// The names of `genres`, in order.
fn genre_name_strings(genres: &Vec<Genre>) -> (r: Vec<String>)
    ensures
        string_views(r@) == genre_names(genres@),
{
    let mut r: Vec<String> = Vec::new();
    let n = genres.len();
    let mut i: usize = 0;
    while i < n
        invariant
            n == genres@.len(),
            i <= n,
            r@.len() == i,
            forall|j: int| 0 <= j < i ==> #[trigger] r@[j]@ == genres@[j].name@,
        decreases n - i,
    {
        r.push(genres[i].name.clone());
        i = i + 1;
    }
    assert(string_views(r@) =~= genre_names(genres@));
    r
}

/// The names of an optional list of artists.
fn opt_names(artists: &Option<Vec<Artist>>) -> (r: Option<Vec<String>>)
    ensures
        texts_view(r) == opt_artist_names(*artists),
{
    match artists {
        Some(l) => Some(artist_name_strings(l)),
        None => None,
    }
}

/// A copy of an optional string.
fn copy_text(s: &Option<String>) -> (r: Option<String>)
    ensures
        text_view(r) == text_view(*s),
{
    match s {
        Some(v) => Some(v.clone()),
        None => None,
    }
}

/// A text as a list of one text, where there is one.
fn single(s: &Option<String>) -> (r: Option<Vec<String>>)
    ensures
        texts_view(r) == single_text(*s),
{
    match s {
        Some(v) => {
            let mut l: Vec<String> = Vec::new();
            l.push(v.clone());
            assert(string_views(l@) =~= seq![v@]);
            Some(l)
        },
        None => None,
    }
}

/// The metadata of the entry `song`, or that of no track; `art_url` is the URL under
/// which the song's cover is offered, used when the song has a cover.
pub fn get_song_metadata(song: Option<&SongEntry>, art_url: Option<String>) -> (m: SongMetadata)
    ensures
        metadata_of(match song {
            Some(e) => Some(*e),
            None => None,
        }, art_url, m),
{
    match song {
        None => SongMetadata {
            track_id: String::from_str("/org/mpris/MediaPlayer2/TrackList/NoTrack"),
            title: None,
            art_url: None,
            length_millis: None,
            album: None,
            artists: None,
            album_artists: None,
            genres: None,
            comment: None,
            composer: None,
            last_used: None,
            use_count: None,
            track_number: None,
            user_rating: None,
            disc_number: None,
            audio_bpm: None,
        },
        Some(e) => {
            let s: &Song = &e.song;
            SongMetadata {
                track_id: e.dbus_path(),
                title: Some(s.title.clone()),
                art_url: match &s.cover_art {
                    Some(_) => art_url,
                    None => None,
                },
                length_millis: match s.duration {
                    Some(d) => Some(((d as u128) * 1000u128) as i64),
                    None => None,
                },
                album: copy_text(&s.album),
                artists: opt_names(&s.artists),
                album_artists: opt_names(&s.album_artists),
                genres: match &s.genres {
                    Some(g) => Some(genre_name_strings(g)),
                    None => None,
                },
                comment: single(&s.comment),
                composer: single(&s.display_composer),
                last_used: copy_text(&s.played),
                use_count: match s.play_count {
                    Some(n) => Some(n as i32),
                    None => None,
                },
                track_number: s.track,
                user_rating: s.user_rating,
                disc_number: match s.disc_number {
                    Some(d) => Some(d as i32),
                    None => None,
                },
                audio_bpm: match s.bpm {
                    Some(b) => Some(b as i32),
                    None => None,
                },
            }
        },
    }
}

} // verus!
