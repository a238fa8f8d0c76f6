//! The OpenSubsonic data model: songs, albums, artists, lyrics and the
//! envelopes and errors of server responses, with the text that the player
//! shows for them.
use vstd::prelude::*;
use crate::text::{decimal, join, signed_decimal, push_decimal, push_signed_decimal, str_eq};

verus! {

/// The fields of a server reply that carries no payload.
#[derive(Debug, Clone)]
pub struct OpenSubsonicResponseEmpty {
    pub status: String,
    pub version: String,
    /// The server's `type` field (its implementation name).
    pub response_type: String,
    pub server_version: String,
    pub open_subsonic: bool,
    pub error: Option<SubsonicError>,
}

/// The outer object of every reply, named `subsonic-response` on the wire.
#[derive(Debug, Clone)]
pub struct GenericResponse<T> {
    pub inner: T,
}

/// A server reply with a payload of type `T`.
#[derive(Debug, Clone)]
pub struct OpenSubsonicResponse<T> {
    pub status: String,
    pub version: String,
    /// The server's `type` field (its implementation name).
    pub response_type: String,
    pub server_version: String,
    pub open_subsonic: bool,
    pub error: Option<SubsonicError>,
    pub inner: T,
}

/// A list of songs, as the server sends it.
#[derive(Debug)]
pub struct Songs {
    pub song: Vec<Song>,
}

/// The kinds of album lists that the server can produce.
#[derive(Debug, PartialEq, Eq, Structural, Clone, Copy)]
pub enum AlbumListType {
    Random,
    Newest,
    Highest,
    Frequent,
    Recent,
    AlphabeticalByName,
    AlphabeticalByArtist,
    Starred,
    ByYear,
    ByGenre,
}

/// The wire name of each album list type.
pub open spec fn album_list_type_name(t: AlbumListType) -> Seq<char> {
    match t {
        AlbumListType::Random => "random"@,
        AlbumListType::Newest => "newest"@,
        AlbumListType::Highest => "highest"@,
        AlbumListType::Frequent => "frequent"@,
        AlbumListType::Recent => "recent"@,
        AlbumListType::AlphabeticalByName => "alphabeticalByName"@,
        AlbumListType::AlphabeticalByArtist => "alphabeticalByArtist"@,
        AlbumListType::Starred => "starred"@,
        AlbumListType::ByYear => "byYear"@,
        AlbumListType::ByGenre => "byGenre"@,
    }
}

impl AlbumListType {
    /// The name under which the server knows this list type.
    pub fn into(self) -> (s: &'static str)
        ensures
            s@ == album_list_type_name(self),
    {
        match self {
            AlbumListType::Random => "random",
            AlbumListType::Newest => "newest",
            AlbumListType::Highest => "highest",
            AlbumListType::Frequent => "frequent",
            AlbumListType::Recent => "recent",
            AlbumListType::AlphabeticalByName => "alphabeticalByName",
            AlbumListType::AlphabeticalByArtist => "alphabeticalByArtist",
            AlbumListType::Starred => "starred",
            AlbumListType::ByYear => "byYear",
            AlbumListType::ByGenre => "byGenre",
        }
    }
}

/// The server extensions that this client makes use of.
#[derive(Debug, PartialEq, Eq, Structural, Hash, Clone, Copy)]
pub enum SupportedExtensions {
    FormPost,
    SongLyrics,
    ApiKeyAuthentication,
}

/// The extension that a server-side extension name stands for, if this client uses it.
pub open spec fn extension_named(name: Seq<char>) -> Option<SupportedExtensions> {
    if name == "formPost"@ {
        Some(SupportedExtensions::FormPost)
    } else if name == "songLyrics"@ {
        Some(SupportedExtensions::SongLyrics)
    } else if name == "apiKeyAuthentication"@ {
        Some(SupportedExtensions::ApiKeyAuthentication)
    } else {
        None
    }
}

/// The message of the error for an extension that this client does not use.
pub open spec fn unsupported_extension_msg() -> Seq<char> {
    "Unsupported extension type (non fatal)"@
}

impl SupportedExtensions {
    /// Recognises an extension by its server-side name.
    pub fn try_from(value: &String) -> (r: Result<SupportedExtensions, InvalidResponseError>)
        ensures
            r is Ok <==> extension_named(value@) is Some,
            r matches Ok(e) ==> extension_named(value@) == Some(e),
            r matches Err(e) ==> e.msg@ == unsupported_extension_msg(),
    {
        if str_eq(value.as_str(), "formPost") {
            Ok(SupportedExtensions::FormPost)
        } else if str_eq(value.as_str(), "songLyrics") {
            Ok(SupportedExtensions::SongLyrics)
        } else if str_eq(value.as_str(), "apiKeyAuthentication") {
            Ok(SupportedExtensions::ApiKeyAuthentication)
        } else {
            Err(InvalidResponseError::new("Unsupported extension type (non fatal)"))
        }
    }
}

/// The items that the user has starred.
#[derive(Debug)]
pub struct Starred {
    pub artists: Option<Vec<Artist>>,
    pub albums: Option<Vec<Album>>,
    pub songs: Option<Vec<Song>>,
}

/// One line of synchronised lyrics: its start in milliseconds and its text.
#[derive(Debug, Default, Clone)]
pub struct LyricsLine {
    pub start: u32,
    pub value: String,
}

/// The lines of a lyrics document.
#[derive(Debug, Default, Clone)]
pub enum LyricsLines {
    Synced(Vec<LyricsLine>),
    NotSynced(Vec<String>),
    /// No lines at all.
    #[default]
    NoLines,
}

/// One lyrics document of a song.
#[derive(Debug, Clone)]
pub struct LyricsList {
    pub display_artist: Option<String>,
    pub display_title: Option<String>,
    pub lang: String,
    pub offset: Option<i64>,
    pub synced: bool,
    pub lines: LyricsLines,
}

impl LyricsList {
    /// Puts the parsed lines into the document; it counts as synchronised exactly when
    /// the lines carry start times.
    pub fn set_lines(&mut self, lines: LyricsLines)
        ensures
            final(self).synced == lines is Synced,
            final(self).lines == lines,
            final(self).display_artist == old(self).display_artist,
            final(self).display_title == old(self).display_title,
            final(self).lang == old(self).lang,
            final(self).offset == old(self).offset,
    {
        self.synced = match &lines {
            LyricsLines::Synced(_) => true,
            _ => false,
        };
        self.lines = lines;
    }
}

/// The server's license information.
#[derive(Debug, Clone)]
pub struct License {
    pub valid: bool,
    pub email: Option<String>,
    pub license_expires: Option<String>,
    pub trial_expires: Option<String>,
}

/// An extension that the server announces, with its versions.
#[derive(Debug, Clone)]
pub struct Extension {
    pub name: String,
    pub versions: Vec<i32>,
}

/// A genre.
#[derive(Debug, Clone)]
pub struct Genre {
    pub name: String,
}

/// A possibly partial calendar date.
#[derive(Debug, Clone)]
pub struct ItemDate {
    pub year: Option<u32>,
    pub month: Option<u32>,
    pub day: Option<u32>,
}

/// An artist, with its albums where the server sent them.
#[derive(Debug)]
pub struct Artist {
    pub id: String,
    pub name: String,
    pub cover_art: Option<String>,
    pub artist_image_url: Option<String>,
    pub album_count: Option<u32>,
    pub starred: Option<String>,
    pub music_brainz_id: Option<String>,
    pub sort_name: Option<String>,
    pub roles: Option<Vec<String>>,
    pub albums: Option<Vec<Album>>,
}

/// A contributor of a song and the role they had.
#[derive(Debug)]
pub struct Contributor {
    pub role: String,
    pub sub_role: Option<String>,
    pub artist: Artist,
}

/// ReplayGain values of a song, each held as the IEEE-754 bit pattern of
/// the 32-bit float that the server sent.
#[derive(Debug, Clone)]
pub struct ReplayGain {
    pub track_gain_bits: Option<u32>,
    pub album_gain_bits: Option<u32>,
    pub track_peak_bits: Option<u32>,
    pub album_peak_bits: Option<u32>,
    pub base_gain_bits: Option<u32>,
    pub fallback_gain_bits: Option<u32>,
}

/// The title of one disc of an album.
#[derive(Debug, Clone)]
pub struct DiscTitle {
    pub disc: u32,
    pub title: String,
}

/// A record label.
#[derive(Debug, Clone)]
pub struct RecordLabel {
    pub name: String,
}

/// An album; `duration` is in whole seconds.
#[derive(Debug)]
pub struct Album {
    pub id: String,
    pub name: String,
    pub version: Option<String>,
    pub artist: Option<String>,
    pub artist_id: Option<String>,
    pub cover_art: Option<String>,
    pub song_count: u32,
    pub duration: u64,
    pub play_count: Option<u64>,
    pub created: String,
    pub starred: Option<String>,
    pub year: Option<u32>,
    pub genre: Option<String>,
    pub played: Option<String>,
    pub user_rating: Option<u8>,
    pub record_labels: Option<Vec<RecordLabel>>,
    pub music_brainz_id: Option<String>,
    pub genres: Option<Vec<Genre>>,
    pub artists: Option<Vec<Artist>>,
    pub display_artists: Option<String>,
    pub release_type: Option<Vec<String>>,
    pub moods: Option<Vec<String>>,
    pub sort_name: Option<String>,
    pub original_release_date: Option<ItemDate>,
    pub release_date: Option<ItemDate>,
    pub is_compilation: Option<bool>,
    pub explicit_status: Option<String>,
    pub disc_titles: Option<Vec<DiscTitle>>,
    pub songs: Option<Vec<Song>>,
}

/// A song; `duration` is in whole seconds and `average_rating_bits` is the
/// IEEE-754 bit pattern of the 32-bit float that the server sent.
#[derive(Debug, Default)]
pub struct Song {
    pub id: String,
    pub parent: Option<String>,
    pub is_dir: Option<bool>,
    pub title: String,
    pub album: Option<String>,
    pub artist: Option<String>,
    pub track: Option<i32>,
    pub year: Option<i32>,
    pub genre: Option<String>,
    pub cover_art: Option<String>,
    pub size: Option<u64>,
    pub content_type: Option<String>,
    pub suffix: Option<String>,
    pub transcoded_content_type: Option<String>,
    pub transcoded_suffix: Option<String>,
    pub duration: Option<u64>,
    pub bit_rate: Option<u32>,
    pub bit_depth: Option<u32>,
    pub sampling_rate: Option<u32>,
    pub channel_count: Option<u32>,
    pub path: Option<String>,
    pub is_video: Option<bool>,
    pub user_rating: Option<u8>,
    pub average_rating_bits: Option<u32>,
    pub play_count: Option<u64>,
    pub disc_number: Option<u32>,
    pub created: Option<String>,
    pub starred: Option<String>,
    pub album_id: Option<String>,
    pub artist_id: Option<String>,
    /// The server's `type` field.
    pub song_type: Option<String>,
    pub media_type: Option<String>,
    pub bookmark_position: Option<u64>,
    pub original_width: Option<u32>,
    pub original_height: Option<u32>,
    pub played: Option<String>,
    pub bpm: Option<u32>,
    pub comment: Option<String>,
    pub sort_name: Option<String>,
    pub music_brainz_id: Option<String>,
    pub isrc: Option<Vec<String>>,
    pub genres: Option<Vec<Genre>>,
    pub artists: Option<Vec<Artist>>,
    pub display_artists: Option<String>,
    pub album_artists: Option<Vec<Artist>>,
    pub display_album_artists: Option<String>,
    pub contributors: Option<Vec<Contributor>>,
    pub display_composer: Option<String>,
    pub moods: Option<Vec<String>>,
    pub replay_gain: Option<ReplayGain>,
    pub explicit_status: Option<String>,
}

/// The results of a search.
#[derive(Debug)]
pub struct Search3Results {
    pub artist: Option<Vec<Artist>>,
    pub album: Option<Vec<Album>>,
    pub song: Option<Vec<Song>>,
}

/// An error that the server reported.
#[derive(Debug, Clone)]
pub struct SubsonicError {
    pub code: i32,
    pub message: String,
}

/// A reply that this client could not make sense of.
#[derive(Debug, Clone)]
pub struct InvalidResponseError {
    pub msg: String,
}

/// The text shown for a server error.
pub open spec fn subsonic_error_text(code: i32, message: Seq<char>) -> Seq<char> {
    "Error from subsonic (code "@ + signed_decimal(code as int) + "): "@ + message
}

/// The text shown for a reply that could not be understood.
pub open spec fn invalid_response_text(msg: Seq<char>) -> Seq<char> {
    "Invalid Subsonic response: "@ + msg
}

impl SubsonicError {
    /// The text of this error, as the user sees it.
    pub fn to_string(&self) -> (s: String)
        ensures
            s@ == subsonic_error_text(self.code, self.message@),
    {
        let mut s = String::new();
        s.append("Error from subsonic (code ");
        push_signed_decimal(&mut s, self.code as i64);
        s.append("): ");
        s.append(self.message.as_str());
        s
    }

    /// The short description of this kind of error.
    pub fn description(&self) -> (s: &'static str)
        ensures
            s@ == "Subsonic error"@,
    {
        "Subsonic error"
    }
}

impl InvalidResponseError {
    /// An error with the given message.
    pub fn new(message: &str) -> (e: InvalidResponseError)
        ensures
            e.msg@ == message@,
    {
        InvalidResponseError { msg: String::from_str(message) }
    }

    /// An error with the given message, on the heap.
    pub fn new_boxed(message: &str) -> (e: Box<InvalidResponseError>)
        ensures
            e.msg@ == message@,
    {
        Box::new(InvalidResponseError { msg: String::from_str(message) })
    }

    /// The text of this error, as the user sees it.
    pub fn to_string(&self) -> (s: String)
        ensures
            s@ == invalid_response_text(self.msg@),
    {
        let mut s = String::new();
        s.append("Invalid Subsonic response: ");
        s.append(self.msg.as_str());
        s
    }

    /// The short description of this kind of error.
    pub fn description(&self) -> (s: &'static str)
        ensures
            s@ == "Invalid Subsonic response"@,
    {
        "Invalid Subsonic response"
    }
}

/// The text for a duration of `secs` seconds: hours and minutes appear only
/// when needed, as in `1h 2m 3s`, `2m 3s` or `3s`.
pub open spec fn duration_text(secs: nat) -> Seq<char> {
    let hrs = secs / 3600;
    let mins = (secs / 60) % 60;
    let s = secs % 60;
    if hrs != 0 {
        decimal(hrs) + "h "@ + decimal(mins) + "m "@ + decimal(s) + "s"@
    } else if mins != 0 {
        decimal(mins) + "m "@ + decimal(s) + "s"@
    } else {
        decimal(s) + "s"@
    }
}

/// Renders a duration given in whole seconds.
pub fn duration_display_str(duration_secs: u64) -> (s: String)
    ensures
        s@ == duration_text(duration_secs as nat),
{
    let mut secs = duration_secs;
    let mut mins = secs / 60;
    let hrs = mins / 60;
    mins = mins % 60;
    secs = secs % 60;
    assert(hrs == duration_secs / 3600) by (nonlinear_arith)
        requires hrs == (duration_secs / 60) / 60;
    let mut s = String::new();
    if hrs != 0 {
        push_decimal(&mut s, hrs);
        s.append("h ");
        push_decimal(&mut s, mins);
        s.append("m ");
    } else if mins != 0 {
        push_decimal(&mut s, mins);
        s.append("m ");
    }
    push_decimal(&mut s, secs);
    s.append("s");
    s
}

/// The name shown when nothing else names the artist.
pub open spec fn unknown_artist() -> Seq<char> {
    "Unknown artist"@
}

/// The artist text used when the item has no list of artists.
pub open spec fn fallback_artists(display: Option<String>, artist: Option<String>) -> Seq<char> {
    match display {
        Some(d) => d@,
        None => match artist {
            Some(a) => a@,
            None => unknown_artist(),
        },
    }
}

/// A link to an artist's page, for markup text.
pub open spec fn artist_link(id: Seq<char>, escaped_name: Seq<char>) -> Seq<char> {
    "<a href=\""@ + id + "\" title=\"View artist\" class=\"normal-link\">"@ + escaped_name + "</a>"@
}

/// The separator between artist links.
pub open spec fn link_separator() -> Seq<char> {
    "•"@
}

/// The separator between artist names in plain text.
pub open spec fn name_separator() -> Seq<char> {
    ", "@
}

/// The links for a list of artists, given their names already escaped for markup.
pub open spec fn artist_links(artists: Seq<Artist>, escaped: Seq<Seq<char>>) -> Seq<Seq<char>> {
    Seq::new(artists.len(), |i: int| artist_link(artists[i].id@, escaped[i]))
}

/// The names of a list of artists.
pub open spec fn artist_names(artists: Seq<Artist>) -> Seq<Seq<char>> {
    Seq::new(artists.len(), |i: int| artists[i].name@)
}

/// The views of a list of strings.
pub open spec fn string_views(v: Seq<String>) -> Seq<Seq<char>> {
    Seq::new(v.len(), |i: int| v[i]@)
}

/// The markup text for the artists of an item.
pub open spec fn artists_markup(
    artists: Option<Vec<Artist>>,
    escaped: Seq<Seq<char>>,
    display: Option<String>,
    artist: Option<String>,
) -> Seq<char> {
    match artists {
        Some(list) => join(artist_links(list@, escaped), link_separator()),
        None => fallback_artists(display, artist),
    }
}

/// The plain text for the artists of an item.
pub open spec fn artists_plain(
    artists: Option<Vec<Artist>>,
    display: Option<String>,
    artist: Option<String>,
) -> Seq<char> {
    match artists {
        Some(list) => join(artist_names(list@), name_separator()),
        None => fallback_artists(display, artist),
    }
}

/// Joins the strings of `parts` with `sep` between neighbours.
pub fn join_strings(parts: &Vec<String>, sep: &str) -> (r: String)
    ensures
        r@ == join(string_views(parts@), sep@),
{
    let ghost views = string_views(parts@);
    let mut r = String::new();
    let n = parts.len();
    let mut i: usize = 0;
    while i < n
        invariant
            n == parts@.len(),
            views == string_views(parts@),
            i <= n,
            r@ == join(views.take(i as int), sep@),
        decreases n - i,
    {
        if i == 0 {
            r.append(parts[i].as_str());
            assert(views.take(1) =~= seq![views[0]]);
        } else {
            r.append(sep);
            r.append(parts[i].as_str());
            assert(views.take(i + 1).drop_last() =~= views.take(i as int));
        }
        i = i + 1;
    }
    assert(views.take(n as int) =~= views);
    r
}

/// The links for `artists`, with `escaped[i]` standing for the escaped name of `artists[i]`.
fn artist_link_strings(artists: &Vec<Artist>, escaped: &Vec<String>) -> (r: Vec<String>)
    requires
        escaped@.len() == artists@.len(),
    ensures
        string_views(r@) == artist_links(artists@, string_views(escaped@)),
{
    let mut r: Vec<String> = Vec::new();
    let n = artists.len();
    let mut i: usize = 0;
    while i < n
        invariant
            n == artists@.len(),
            escaped@.len() == n,
            i <= n,
            r@.len() == i,
            forall|j: int| 0 <= j < i ==> #[trigger] r@[j]@ == artist_link(artists@[j].id@, escaped@[j]@),
        decreases n - i,
    {
        let mut s = String::new();
        s.append("<a href=\"");
        s.append(artists[i].id.as_str());
        s.append("\" title=\"View artist\" class=\"normal-link\">");
        s.append(escaped[i].as_str());
        s.append("</a>");
        r.push(s);
        i = i + 1;
    }
    assert(string_views(r@) =~= artist_links(artists@, string_views(escaped@)));
    r
}

/// The names of `artists`, in order.
pub(crate) fn artist_name_strings(artists: &Vec<Artist>) -> (r: Vec<String>)
    ensures
        string_views(r@) == artist_names(artists@),
{
    let mut r: Vec<String> = Vec::new();
    let n = artists.len();
    let mut i: usize = 0;
    while i < n
        invariant
            n == artists@.len(),
            i <= n,
            r@.len() == i,
            forall|j: int| 0 <= j < i ==> #[trigger] r@[j]@ == artists@[j].name@,
        decreases n - i,
    {
        r.push(artists[i].name.clone());
        i = i + 1;
    }
    assert(string_views(r@) =~= artist_names(artists@));
    r
}

/// The fallback artist text, when no list of artists is known.
fn fallback_artist_string(display: &Option<String>, artist: &Option<String>) -> (r: String)
    ensures
        r@ == fallback_artists(*display, *artist),
{
    match display {
        Some(d) => d.clone(),
        None => match artist {
            Some(a) => a.clone(),
            None => String::from_str("Unknown artist"),
        },
    }
}

/// The markup for a list of artists (or the fallback text).
fn markup_for(
    artists: &Option<Vec<Artist>>,
    escaped_names: &Vec<String>,
    display: &Option<String>,
    artist: &Option<String>,
) -> (r: String)
    requires
        artists matches Some(list) ==> escaped_names@.len() == list@.len(),
    ensures
        r@ == artists_markup(*artists, string_views(escaped_names@), *display, *artist),
{
    match artists {
        Some(list) => {
            let links = artist_link_strings(list, escaped_names);
            join_strings(&links, "•")
        },
        None => fallback_artist_string(display, artist),
    }
}

/// The plain text for a list of artists (or the fallback text).
fn plain_for(artists: &Option<Vec<Artist>>, display: &Option<String>, artist: &Option<String>) -> (r: String)
    ensures
        r@ == artists_plain(*artists, *display, *artist),
{
    match artists {
        Some(list) => {
            let names = artist_name_strings(list);
            join_strings(&names, ", ")
        },
        None => fallback_artist_string(display, artist),
    }
}

impl Song {
    /// The artists of the song as markup: one link per artist, separated by `•`,
    /// where `escaped_names[i]` is the name of the `i`-th artist escaped for markup;
    /// without a list of artists, the display text, the artist field or "Unknown artist".
    pub fn artists(&self, escaped_names: &Vec<String>) -> (r: String)
        requires
            self.artists matches Some(list) ==> escaped_names@.len() == list@.len(),
        ensures
            r@ == artists_markup(self.artists, string_views(escaped_names@), self.display_artists, self.artist),
    {
        markup_for(&self.artists, escaped_names, &self.display_artists, &self.artist)
    }

    /// The artists of the song as plain text, separated by `, `.
    pub fn artists_no_markup(&self) -> (r: String)
        ensures
            r@ == artists_plain(self.artists, self.display_artists, self.artist),
    {
        plain_for(&self.artists, &self.display_artists, &self.artist)
    }

    /// Whether the user has starred the song.
    pub fn is_starred(&self) -> (r: bool)
        ensures
            r == self.starred is Some,
    {
        self.starred.is_some()
    }
}

impl Album {
    /// The artists of the album as markup, as for a song.
    pub fn artists(&self, escaped_names: &Vec<String>) -> (r: String)
        requires
            self.artists matches Some(list) ==> escaped_names@.len() == list@.len(),
        ensures
            r@ == artists_markup(self.artists, string_views(escaped_names@), self.display_artists, self.artist),
    {
        markup_for(&self.artists, escaped_names, &self.display_artists, &self.artist)
    }

    /// The artists of the album as plain text, separated by `, `.
    pub fn artists_no_markup(&self) -> (r: String)
        ensures
            r@ == artists_plain(self.artists, self.display_artists, self.artist),
    {
        plain_for(&self.artists, &self.display_artists, &self.artist)
    }

    /// Whether the user has starred the album.
    pub fn is_starred(&self) -> (r: bool)
        ensures
            r == self.starred is Some,
    {
        self.starred.is_some()
    }
}

impl Artist {
    /// Whether the user has starred the artist.
    pub fn is_starred(&self) -> (r: bool)
        ensures
            r == self.starred is Some,
    {
        self.starred.is_some()
    }
}

} // verus!
