//! What the player's windows compute before they draw: lyrics timing, the
//! state of each queue row, colour schemes, time labels and the fields of the
//! information dialog.
use vstd::prelude::*;
use crate::bindings::{to_uppercase, uppercased};
use crate::text::{decimal, join, push_decimal};
use crate::types::{
    artists_plain, duration_display_str, duration_text, string_views, join_strings, Album, Artist, LyricsLine,
    LyricsLines, LyricsList, Song, Starred,
};

verus! {

/// Where an item stands relative to what is playing.
#[derive(Debug, PartialEq, Eq, Structural, Clone, Copy, Default)]
pub enum PositionState {
    Passed,
    Current,
    #[default]
    Upcoming,
}

/// The style class of each position state.
pub open spec fn position_state_name(p: PositionState) -> Seq<char> {
    match p {
        PositionState::Passed => "passed"@,
        PositionState::Current => "current"@,
        PositionState::Upcoming => "upcoming"@,
    }
}

impl PositionState {
    /// The style class under which rows in this state are drawn.
    pub fn as_ref(&self) -> (s: &'static str)
        ensures
            s@ == position_state_name(*self),
    {
        match self {
            PositionState::Passed => "passed",
            PositionState::Current => "current",
            PositionState::Upcoming => "upcoming",
        }
    }
}

/// The sizes at which covers are drawn.
#[derive(Debug, PartialEq, Eq, Structural, Clone, Copy, Default)]
pub enum CoverSize {
    #[default]
    Huge,
    Large,
    Small,
}

/// The edge length, in pixels, of a cover of each size.
pub open spec fn cover_edge(size: CoverSize) -> i32 {
    match size {
        CoverSize::Huge => 512,
        CoverSize::Large => 192,
        CoverSize::Small => 64,
    }
}

/// The style class of each cover size.
pub open spec fn cover_size_name(size: CoverSize) -> Seq<char> {
    match size {
        CoverSize::Huge => "huge"@,
        CoverSize::Large => "large"@,
        CoverSize::Small => "small"@,
    }
}

impl CoverSize {
    /// The style class of covers of this size.
    pub fn as_ref(&self) -> (s: &'static str)
        ensures
            s@ == cover_size_name(*self),
    {
        match self {
            CoverSize::Huge => "huge",
            CoverSize::Large => "large",
            CoverSize::Small => "small",
        }
    }

    /// The measurement of a cover of this size, in either direction: minimum and natural
    /// size are the edge length, and there is no baseline.
    pub fn measure(&self) -> (m: (i32, i32, i32, i32))
        ensures
            m == (cover_edge(*self), cover_edge(*self), -1i32, -1i32),
    {
        match self {
            CoverSize::Huge => (512, 512, -1, -1),
            CoverSize::Large => (192, 192, -1, -1),
            CoverSize::Small => (64, 64, -1, -1),
        }
    }
}

/// The offset of a lyrics document, zero when none is given.
pub open spec fn lyrics_offset(list: LyricsList) -> i64 {
    match list.offset {
        Some(o) => o,
        None => 0,
    }
}

/// The lines shown for a lyrics document: synced lines shifted by the offset (the sum
/// taken as a 32-bit value), unsynced lines at time zero, nothing otherwise.
pub open spec fn shown_lines(list: LyricsList) -> Seq<(u32, Seq<char>)> {
    match list.lines {
        LyricsLines::Synced(lines) => Seq::new(lines@.len(), |i: int|
            (((lines@[i].start as i64) + lyrics_offset(list)) as u32, lines@[i].value@)),
        LyricsLines::NotSynced(items) => Seq::new(items@.len(), |i: int| (0u32, items@[i]@)),
        LyricsLines::NoLines => Seq::empty(),
    }
}

/// The lines of a lyrics document are shown in the document's order: unsynchronised
/// texts each at time zero; synchronised lines with their own text, at their own start
/// when the document has no offset and shifted by the offset otherwise (when the shifted
/// start is a valid time); a document without lines shows none.
pub proof fn law_shown_lyrics(list: LyricsList)
    ensures
        list.lines matches LyricsLines::NotSynced(items) ==> shown_lines(list).len() == items@.len()
            && forall|i: int| 0 <= i < items@.len() ==> #[trigger] shown_lines(list)[i] == (0u32, items@[i]@),
        list.lines matches LyricsLines::Synced(ls) ==> shown_lines(list).len() == ls@.len()
            && forall|i: int| 0 <= i < ls@.len() ==> {
                &&& (#[trigger] shown_lines(list)[i]).1 == ls@[i].value@
                &&& match list.offset {
                    Some(o) => 0 <= ls@[i].start + o <= u32::MAX ==> shown_lines(list)[i].0 == ls@[i].start + o,
                    None => shown_lines(list)[i].0 == ls@[i].start,
                }
            },
        list.lines is NoLines ==> shown_lines(list).len() == 0,
{
    match list.lines {
        LyricsLines::Synced(ls) => {
            assert forall|i: int| 0 <= i < ls@.len() implies {
                &&& (#[trigger] shown_lines(list)[i]).1 == ls@[i].value@
                &&& match list.offset {
                    Some(o) => 0 <= ls@[i].start + o <= u32::MAX ==> shown_lines(list)[i].0 == ls@[i].start + o,
                    None => shown_lines(list)[i].0 == ls@[i].start,
                }
            } by {
                let x: int = ls@[i].start as i64 + lyrics_offset(list);
                assert(0 <= x <= u32::MAX ==> x as u32 == x);
            }
        },
        _ => {},
    }
}

/// The views of lyrics lines.
pub open spec fn line_views(lines: Seq<LyricsLine>) -> Seq<(u32, Seq<char>)> {
    Seq::new(lines.len(), |i: int| (lines[i].start, lines[i].value@))
}

/// The lines of a lyrics document as they are shown.
pub fn from_list(lines: &LyricsList) -> (r: Vec<LyricsLine>)
    requires
        lines.lines matches LyricsLines::Synced(ls) ==> forall|i: int| 0 <= i < ls@.len() ==>
            i64::MIN <= #[trigger] ls@[i].start + lyrics_offset(*lines) <= i64::MAX,
    ensures
        line_views(r@) == shown_lines(*lines),
{
    let offset: i64 = match lines.offset {
        Some(o) => o,
        None => 0,
    };
    let mut r: Vec<LyricsLine> = Vec::new();
    match &lines.lines {
        LyricsLines::Synced(ls) => {
            let n = ls.len();
            let mut i: usize = 0;
            while i < n
                invariant
                    n == ls@.len(),
                    offset == lyrics_offset(*lines),
                    lines.lines == LyricsLines::Synced(*ls),
                    forall|j: int| 0 <= j < ls@.len() ==> i64::MIN <= #[trigger] ls@[j].start + offset <= i64::MAX,
                    i <= n,
                    r@.len() == i,
                    forall|j: int| 0 <= j < i ==> #[trigger] r@[j].start
                        == ((ls@[j].start as i64) + offset) as u32 && r@[j].value@ == ls@[j].value@,
                decreases n - i,
            {
                let start = ((ls[i].start as i64) + offset) as u32;
                r.push(LyricsLine { start, value: ls[i].value.clone() });
                i = i + 1;
            }
            assert(line_views(r@) =~= shown_lines(*lines));
        },
        LyricsLines::NotSynced(items) => {
            let n = items.len();
            let mut i: usize = 0;
            while i < n
                invariant
                    n == items@.len(),
                    i <= n,
                    r@.len() == i,
                    forall|j: int| 0 <= j < i ==> #[trigger] r@[j].start == 0u32 && r@[j].value@ == items@[j]@,
                decreases n - i,
            {
                r.push(LyricsLine { start: 0, value: items[i].clone() });
                i = i + 1;
            }
            assert(line_views(r@) =~= shown_lines(*lines));
        },
        LyricsLines::NoLines => {
            assert(line_views(r@) =~= shown_lines(*lines));
        },
    }
    r
}

/// Whether a lyrics document has synchronised lines.
pub fn lyrics_synced(lines: &LyricsLines) -> (r: bool)
    ensures
        r == lines is Synced,
{
    match lines {
        LyricsLines::Synced(_) => true,
        _ => false,
    }
}

/// The state of a lyrics line that starts at `prev_start_ms`, followed by a line that
/// starts at `next_start_ms`, when playback is at `pos_ns` nanoseconds.
pub open spec fn lyric_state(pos_ns: u64, prev_start_ms: u32, next_start_ms: u32) -> PositionState {
    if pos_ns > prev_start_ms * 1_000_000 {
        if pos_ns > next_start_ms * 1_000_000 { PositionState::Passed } else { PositionState::Current }
    } else if pos_ns < prev_start_ms * 1_000_000 {
        PositionState::Upcoming
    } else {
        PositionState::Current
    }
}

/// The states of all lyrics lines but the last (whose state is left as it was), at
/// playback position `pos_ns` nanoseconds: a line is passed once the next line has
/// started, current from its own start until then, upcoming before its start.
pub fn lyric_states(starts_ms: &Vec<u32>, pos_ns: u64) -> (r: Vec<PositionState>)
    requires
        starts_ms@.len() >= 1,
    ensures
        r@.len() == starts_ms@.len() - 1,
        forall|i: int| 0 <= i < r@.len() ==> #[trigger] r@[i] == lyric_state(pos_ns, starts_ms@[i], starts_ms@[i + 1]),
{
    let mut r: Vec<PositionState> = Vec::new();
    let n = starts_ms.len();
    let mut i: usize = 1;
    while i < n
        invariant
            n == starts_ms@.len(),
            1 <= i <= n,
            r@.len() == i - 1,
            forall|j: int| 0 <= j < r@.len() ==> #[trigger] r@[j] == lyric_state(pos_ns, starts_ms@[j], starts_ms@[j + 1]),
        decreases n - i,
    {
        let start = (starts_ms[i] as u128) * 1_000_000;
        let prev_start = (starts_ms[i - 1] as u128) * 1_000_000;
        let pos = pos_ns as u128;
        let state = if pos > prev_start {
            if pos > start { PositionState::Passed } else { PositionState::Current }
        } else if pos < prev_start {
            PositionState::Upcoming
        } else {
            PositionState::Current
        };
        r.push(state);
        i = i + 1;
    }
    r
}

/// The state of queue row `i` when the entry at `pos` is playing.
pub open spec fn row_state(i: int, pos: int) -> PositionState {
    if i < pos { PositionState::Passed } else if i > pos { PositionState::Upcoming } else { PositionState::Current }
}

/// The states of `n` queue rows when the entry at `pos` is playing.
pub fn row_states(n: usize, pos: usize) -> (r: Vec<PositionState>)
    ensures
        r@.len() == n,
        forall|i: int| 0 <= i < n ==> #[trigger] r@[i] == row_state(i, pos as int),
{
    let mut r: Vec<PositionState> = Vec::new();
    let mut i: usize = 0;
    while i < n
        invariant
            i <= n,
            r@.len() == i,
            forall|j: int| 0 <= j < i ==> #[trigger] r@[j] == row_state(j, pos as int),
        decreases n - i,
    {
        let state = if i < pos {
            PositionState::Passed
        } else if i > pos {
            PositionState::Upcoming
        } else {
            PositionState::Current
        };
        r.push(state);
        i = i + 1;
    }
    r
}

/// A colour of a palette.
#[derive(Debug, PartialEq, Eq, Structural, Clone, Copy, Default)]
pub struct Rgb {
    pub r: u8,
    pub g: u8,
    pub b: u8,
}

/// The number of colours of a colour scheme.
pub const BG_COLORS: usize = 4;

/// The black that fills a colour scheme when the palette is empty.
pub open spec fn black() -> Rgb {
    Rgb { r: 0, g: 0, b: 0 }
}

/// The colour scheme made from a palette: its colours repeated in turn to fill the
/// four places (black when the palette is empty).
pub open spec fn scheme_from(colors: Seq<Rgb>) -> Seq<Rgb> {
    Seq::new(4, |i: int| if colors.len() > 0 { colors[i % colors.len() as int] } else { black() })
}

/// The colour scheme of an optional palette.
pub fn vec_to_arr(colors: Option<Vec<Rgb>>) -> (r: Option<[Rgb; 4]>)
    ensures
        opt_scheme(r) == scheme_of(colors),
{
    match colors {
        Some(c) => {
            let n = c.len();
            let black = Rgb { r: 0, g: 0, b: 0 };
            let a0 = if n > 0 { c[0] } else { black };
            let a1 = if n > 0 { c[1 % n] } else { black };
            let a2 = if n > 0 { c[2 % n] } else { black };
            let a3 = if n > 0 { c[3 % n] } else { black };
            let a = [a0, a1, a2, a3];
            assert(a@.len() == 4);
            assert(a@[0] == a0);
            assert(a@[1] == a1);
            assert(a@[2] == a2);
            assert(a@[3] == a3);
            assert(scheme_from(c@)[0] == a0);
            assert(scheme_from(c@)[1] == a1);
            assert(scheme_from(c@)[2] == a2);
            assert(scheme_from(c@)[3] == a3);
            assert(a@ =~= scheme_from(c@));
            Some(a)
        },
        None => None,
    }
}

/// The CSS declaration of one colour of a scheme.
pub open spec fn color_decl(prefix: Seq<char>, i: nat, c: Rgb) -> Seq<char> {
    prefix + decimal(i) + ":rgb("@ + decimal(c.r as nat) + ","@ + decimal(c.g as nat) + ","@
        + decimal(c.b as nat) + ");"@
}

/// The CSS declarations of a scheme, in order.
pub open spec fn scheme_decls(prefix: Seq<char>, colors: Seq<Rgb>) -> Seq<char>
    decreases colors.len(),
{
    if colors.len() == 0 {
        Seq::empty()
    } else {
        scheme_decls(prefix, colors.drop_last()) + color_decl(prefix, (colors.len() - 1) as nat, colors.last())
    }
}

/// The style sheet that colours the window: the current song's scheme and the scheme
/// of the view on top, where present.
pub open spec fn colors_css(song: Option<Seq<Rgb>>, view: Option<Seq<Rgb>>) -> Seq<char> {
    ":root {"@
        + match song { Some(c) => scheme_decls("--song-color-"@, c), None => Seq::empty() }
        + match view { Some(c) => scheme_decls("--view-color-"@, c), None => Seq::empty() }
        + "}"@
}

/// Appends the CSS declarations of a scheme.
fn push_scheme(css: &mut String, prefix: &str, colors: &[Rgb; 4])
    ensures
        final(css)@ == old(css)@ + scheme_decls(prefix@, colors@),
{
    let mut i: usize = 0;
    while i < 4
        invariant
            i <= 4,
            colors@.len() == 4,
            css@ == old(css)@ + scheme_decls(prefix@, colors@.take(i as int)),
        decreases 4 - i,
    {
        let c = colors[i];
        css.append(prefix);
        push_decimal(css, i as u64);
        css.append(":rgb(");
        push_decimal(css, c.r as u64);
        css.append(",");
        push_decimal(css, c.g as u64);
        css.append(",");
        push_decimal(css, c.b as u64);
        css.append(");");
        assert(colors@.take(i + 1).drop_last() =~= colors@.take(i as int));
        i = i + 1;
    }
    assert(colors@.take(4) =~= colors@);
}

/// The view of an optional scheme.
pub open spec fn opt_scheme(s: Option<[Rgb; 4]>) -> Option<Seq<Rgb>> {
    match s {
        Some(a) => Some(a@),
        None => None,
    }
}

/// The style sheet for the current song's scheme and the view's scheme.
pub fn update_colors(song: Option<[Rgb; 4]>, view: Option<[Rgb; 4]>) -> (css: String)
    ensures
        css@ == colors_css(opt_scheme(song), opt_scheme(view)),
{
    let mut css = String::from_str(":root {");
    let ghost head = css@;
    match &song {
        Some(c) => push_scheme(&mut css, "--song-color-", c),
        None => {},
    }
    let ghost mid = css@;
    match &view {
        Some(c) => push_scheme(&mut css, "--view-color-", c),
        None => {},
    }
    css.append("}");
    css
}

/// The scheme of an optional palette.
pub open spec fn scheme_of(colors: Option<Vec<Rgb>>) -> Option<Seq<Rgb>> {
    match colors {
        Some(c) => Some(scheme_from(c@)),
        None => None,
    }
}

/// The stack of colour schemes of the views that are open, the top one being shown.
pub struct ViewColors {
    stack: Vec<Option<[Rgb; 4]>>,
}

impl View for ViewColors {
    type V = Seq<Option<Seq<Rgb>>>;

    closed spec fn view(&self) -> Seq<Option<Seq<Rgb>>> {
        Seq::new(self.stack@.len(), |i: int| opt_scheme(self.stack@[i]))
    }
}

impl ViewColors {
    /// No view open.
    pub fn new() -> (v: ViewColors)
        ensures
            v@.len() == 0,
    {
        ViewColors { stack: Vec::new() }
    }

    /// A view opens with this palette.
    pub fn push(&mut self, colors: Option<Vec<Rgb>>)
        ensures
            final(self)@ == old(self)@.push(scheme_of(colors)),
    {
        let a = vec_to_arr(colors);
        self.stack.push(a);
        assert(self@ =~= old(self)@.push(scheme_of(colors)));
    }

    /// The top view closes.
    pub fn pop(&mut self)
        ensures
            final(self)@ == if old(self)@.len() > 0 { old(self)@.drop_last() } else { old(self)@ },
    {
        let _ = self.stack.pop();
        assert(self@ =~= if old(self)@.len() > 0 { old(self)@.drop_last() } else { old(self)@ });
    }

    /// All views close.
    pub fn clear(&mut self)
        ensures
            final(self)@.len() == 0,
    {
        self.stack.clear();
    }

    /// The top view's palette changes (or, with no view open, a view opens with it).
    pub fn set(&mut self, colors: Option<Vec<Rgb>>)
        ensures
            final(self)@ == if old(self)@.len() == 0 {
                old(self)@.push(scheme_of(colors))
            } else {
                old(self)@.update(old(self)@.len() - 1, scheme_of(colors))
            },
    {
        let a = vec_to_arr(colors);
        let len = self.stack.len();
        if len == 0 {
            self.stack.push(a);
        } else {
            self.stack[len - 1] = a;
        }
        assert(self@ =~= if old(self)@.len() == 0 {
            old(self)@.push(scheme_of(colors))
        } else {
            old(self)@.update(old(self)@.len() - 1, scheme_of(colors))
        });
    }

    /// The scheme shown: the top view's, if a view is open and has one.
    pub fn top(&self) -> (r: Option<[Rgb; 4]>)
        ensures
            opt_scheme(r) == if self@.len() > 0 { self@.last() } else { None },
    {
        let len = self.stack.len();
        if len > 0 {
            self.stack[len - 1]
        } else {
            None
        }
    }
}

/// `n` as two decimal digits (for numbers below 100).
pub open spec fn two_digits(n: nat) -> Seq<char> {
    if n < 10 { seq!['0'] + decimal(n) } else { decimal(n) }
}

/// Whether a list of starred items is shown: only when it is present and not empty.
pub open spec fn section_shown<T>(list: Option<Vec<T>>) -> bool {
    match list {
        Some(l) => l@.len() > 0,
        None => false,
    }
}

/// Which sections of the starred items are shown, for songs, albums and artists: a
/// section without items is hidden.
pub fn starred_sections(starred: &Starred) -> (r: (bool, bool, bool))
    ensures
        r == (section_shown(starred.songs), section_shown(starred.albums), section_shown(starred.artists)),
{
    let songs = match &starred.songs {
        Some(l) => l.len() > 0,
        None => false,
    };
    let albums = match &starred.albums {
        Some(l) => l.len() > 0,
        None => false,
    };
    let artists = match &starred.artists {
        Some(l) => l.len() > 0,
        None => false,
    };
    (songs, albums, artists)
}

/// The label of an album's number of songs on its page, as in `12 songs`.
pub fn song_count_label(count: u32) -> (s: String)
    ensures
        s@ == decimal(count as nat) + " songs"@,
{
    let mut s = String::new();
    push_decimal(&mut s, count as u64);
    s.append(" songs");
    s
}

/// The caption of an album's number of songs in the album carousel, as in `Song count: 12`.
pub fn song_count_caption(count: u32) -> (s: String)
    ensures
        s@ == "Song count: "@ + decimal(count as nat),
{
    let mut s = String::from_str("Song count: ");
    push_decimal(&mut s, count as u64);
    s
}

/// The `minutes:seconds` label of a time in whole seconds.
pub open spec fn minutes_seconds(secs: nat) -> Seq<char> {
    decimal(secs / 60) + seq![':'] + two_digits(secs % 60)
}

/// The `minutes:seconds` label of a time in whole seconds.
pub fn time_label(secs: u64) -> (s: String)
    ensures
        s@ == minutes_seconds(secs as nat),
{
    let mut s = String::new();
    push_decimal(&mut s, secs / 60);
    proof {
        reveal_strlit(":");
        reveal_strlit("0");
    }
    s.append(":");
    let rest = secs % 60;
    if rest < 10 {
        s.append("0");
    }
    push_decimal(&mut s, rest);
    s
}

/// The kinds of items that can be searched.
#[derive(Debug, PartialEq, Eq, Structural, Clone, Copy)]
pub enum SearchType {
    Song,
    Album,
    Artist,
}

/// A search request from the search bar.
#[derive(Debug, Clone)]
pub enum SearchMsg {
    Search(String, SearchType),
}

/// The search type chosen in the drop-down (songs, albums, artists); an unknown choice
/// searches songs and is reported as an error.
pub fn search_type_for(selected: u32) -> (r: (SearchType, bool))
    ensures
        r == if selected == 0 {
            (SearchType::Song, false)
        } else if selected == 1 {
            (SearchType::Album, false)
        } else if selected == 2 {
            (SearchType::Artist, false)
        } else {
            (SearchType::Song, true)
        },
{
    if selected == 0 {
        (SearchType::Song, false)
    } else if selected == 1 {
        (SearchType::Album, false)
    } else if selected == 2 {
        (SearchType::Artist, false)
    } else {
        (SearchType::Song, true)
    }
}

/// The page of the album carousel after scrolling by `step` from `pos`, kept within
/// the `n_pages` pages.
pub fn carousel_target(pos: u32, step: i32, n_pages: u32) -> (r: u32)
    requires
        n_pages > 0,
        i32::MIN <= (pos as i32) + step <= i32::MAX,
    ensures
        r == if (pos as i32) + step <= 0 {
            0
        } else if (pos as i32) + step >= n_pages - 1 {
            (n_pages - 1) as u32
        } else {
            ((pos as i32) + step) as u32
        },
{
    let p = (pos as i32) + step;
    let clamped: u32 = if p < 0 { 0 } else { p as u32 };
    if clamped < n_pages - 1 { clamped } else { n_pages - 1 }
}

/// The row to highlight for a song of an album: its track number counted from zero.
pub fn album_highlight(track: Option<i32>) -> (r: Option<u32>)
    requires
        track matches Some(t) ==> t != 0,
    ensures
        r == match track {
            Some(t) => Some(((t as u32) - 1) as u32),
            None => None,
        },
{
    match track {
        Some(t) => {
            assert(t != 0 ==> t as u32 != 0) by (bit_vector);
            Some((t as u32) - 1)
        },
        None => None,
    }
}

/// The file-type label of a song: suffix and bit rate, upper-cased, when both are known.
pub fn song_filetype(song: &Song) -> (r: Option<String>)
    ensures
        match (song.suffix, song.bit_rate) {
            (Some(suf), Some(rate)) => r matches Some(t) && t@ == uppercased(suf@ + seq!['/'] + decimal(rate as nat)),
            _ => r is None,
        },
{
    match (&song.suffix, song.bit_rate) {
        (Some(suf), Some(rate)) => {
            let mut s = suf.clone();
            proof {
                reveal_strlit("/");
            }
            s.append("/");
            assert(s@ == suf@ + seq!['/']);
            push_decimal(&mut s, rate as u64);
            assert(s@ == suf@ + seq!['/'] + decimal(rate as nat));
            Some(to_uppercase(s.as_str()))
        },
        _ => None,
    }
}

/// The duration label of a song, if its duration is known.
pub fn song_duration_label(song: &Song) -> (r: Option<String>)
    ensures
        match song.duration {
            Some(d) => r matches Some(t) && t@ == duration_text(d as nat),
            None => r is None,
        },
{
    match song.duration {
        Some(d) => Some(duration_display_str(d)),
        None => None,
    }
}

/// The album-count label of an artist, if known.
pub fn artist_album_count(artist: &Artist) -> (r: Option<String>)
    ensures
        match artist.album_count {
            Some(c) => r matches Some(t) && t@ == decimal(c as nat),
            None => r is None,
        },
{
    match artist.album_count {
        Some(c) => {
            let mut s = String::new();
            push_decimal(&mut s, c as u64);
            Some(s)
        },
        None => None,
    }
}

/// The text shown for an unknown value.
pub open spec fn unknown() -> Seq<char> {
    "Unknown"@
}

/// The text of an optional string, or "Unknown".
pub open spec fn text_or_unknown(s: Option<String>) -> Seq<char> {
    match s {
        Some(v) => v@,
        None => unknown(),
    }
}

/// The decimal text of an optional number, or "Unknown".
pub open spec fn number_or_unknown(n: Option<u64>) -> Seq<char> {
    match n {
        Some(v) => decimal(v as nat),
        None => unknown(),
    }
}

/// The views of labelled fields.
pub open spec fn field_views(v: Seq<(String, String)>) -> Seq<(Seq<char>, Seq<char>)> {
    Seq::new(v.len(), |i: int| (v[i].0@, v[i].1@))
}

fn text_or_unknown_string(s: &Option<String>) -> (r: String)
    ensures
        r@ == text_or_unknown(*s),
{
    match s {
        Some(v) => v.clone(),
        None => String::from_str("Unknown"),
    }
}

fn number_or_unknown_string(n: Option<u64>) -> (r: String)
    ensures
        r@ == number_or_unknown(n),
{
    match n {
        Some(v) => {
            let mut s = String::new();
            push_decimal(&mut s, v);
            s
        },
        None => String::from_str("Unknown"),
    }
}

/// A widened optional number.
pub open spec fn widen(n: Option<u32>) -> Option<u64> {
    match n {
        Some(v) => Some(v as u64),
        None => None,
    }
}

fn widen_exec(n: Option<u32>) -> (r: Option<u64>)
    ensures
        r == widen(n),
{
    match n {
        Some(v) => Some(v as u64),
        None => None,
    }
}

/// The ISRC codes of a song joined by `, `, or "Unknown".
pub open spec fn isrc_text(isrc: Option<Vec<String>>) -> Seq<char> {
    match isrc {
        Some(v) => join(string_views(v@), ", "@),
        None => unknown(),
    }
}

/// The duration text of a song, or "Unknown".
pub open spec fn duration_or_unknown(d: Option<u64>) -> Seq<char> {
    match d {
        Some(s) => duration_text(s as nat),
        None => unknown(),
    }
}

/// The fields that the information dialog lists for a song.
pub open spec fn song_fields(song: Song) -> Seq<(Seq<char>, Seq<char>)> {
    seq![
        ("ID"@, song.id@),
        ("Title"@, song.title@),
        ("Artist"@, artists_plain(song.artists, song.display_artists, song.artist)),
        ("Path"@, text_or_unknown(song.path)),
        ("Duration"@, duration_or_unknown(song.duration)),
        ("Play count"@, number_or_unknown(song.play_count)),
        ("Created"@, text_or_unknown(song.created)),
        ("Bit rate"@, number_or_unknown(widen(song.bit_rate))),
        ("Bit depth"@, number_or_unknown(widen(song.bit_depth))),
        ("Channel count"@, number_or_unknown(widen(song.channel_count))),
        ("Sampling rate"@, number_or_unknown(widen(song.sampling_rate))),
        ("MusicBrainz ID"@, text_or_unknown(song.music_brainz_id)),
        ("ISRC"@, isrc_text(song.isrc)),
    ]
}

/// Builds the labelled field `(label, value)`.
fn field(label: &str, value: String) -> (f: (String, String))
    ensures
        f.0@ == label@,
        f.1@ == value@,
{
    (String::from_str(label), value)
}

/// The fields that the information dialog lists for a song.
pub fn song_info_fields(song: &Song) -> (r: Vec<(String, String)>)
    ensures
        field_views(r@) == song_fields(*song),
{
    let mut r: Vec<(String, String)> = Vec::new();
    r.push(field("ID", song.id.clone()));
    r.push(field("Title", song.title.clone()));
    r.push(field("Artist", song.artists_no_markup()));
    r.push(field("Path", text_or_unknown_string(&song.path)));
    r.push(field("Duration", match song.duration {
        Some(d) => duration_display_str(d),
        None => String::from_str("Unknown"),
    }));
    r.push(field("Play count", number_or_unknown_string(song.play_count)));
    r.push(field("Created", text_or_unknown_string(&song.created)));
    r.push(field("Bit rate", number_or_unknown_string(widen_exec(song.bit_rate))));
    r.push(field("Bit depth", number_or_unknown_string(widen_exec(song.bit_depth))));
    r.push(field("Channel count", number_or_unknown_string(widen_exec(song.channel_count))));
    r.push(field("Sampling rate", number_or_unknown_string(widen_exec(song.sampling_rate))));
    r.push(field("MusicBrainz ID", text_or_unknown_string(&song.music_brainz_id)));
    r.push(field("ISRC", match &song.isrc {
        Some(v) => join_strings(v, ", "),
        None => String::from_str("Unknown"),
    }));
    assert(field_views(r@) =~= song_fields(*song));
    r
}

/// The fields that the information dialog lists for an album.
pub open spec fn album_fields(album: Album) -> Seq<(Seq<char>, Seq<char>)> {
    seq![
        ("Artist"@, artists_plain(album.artists, album.display_artists, album.artist)),
        ("ID"@, album.id@),
        ("Name"@, album.name@),
        ("Song count"@, decimal(album.song_count as nat)),
        ("Duration"@, duration_text(album.duration as nat)),
        ("Play count"@, number_or_unknown(album.play_count)),
        ("MusicBrainz ID"@, text_or_unknown(album.music_brainz_id)),
        ("Year"@, number_or_unknown(widen(album.year))),
    ]
}

/// The fields that the information dialog lists for an album.
pub fn album_info_fields(album: &Album) -> (r: Vec<(String, String)>)
    ensures
        field_views(r@) == album_fields(*album),
{
    let mut r: Vec<(String, String)> = Vec::new();
    r.push(field("Artist", album.artists_no_markup()));
    r.push(field("ID", album.id.clone()));
    r.push(field("Name", album.name.clone()));
    let mut count = String::new();
    push_decimal(&mut count, album.song_count as u64);
    r.push(field("Song count", count));
    r.push(field("Duration", duration_display_str(album.duration)));
    r.push(field("Play count", number_or_unknown_string(album.play_count)));
    r.push(field("MusicBrainz ID", text_or_unknown_string(&album.music_brainz_id)));
    r.push(field("Year", number_or_unknown_string(widen_exec(album.year))));
    assert(field_views(r@) =~= album_fields(*album));
    r
}

/// The fields that the information dialog lists for an artist.
pub open spec fn artist_fields(artist: Artist) -> Seq<(Seq<char>, Seq<char>)> {
    seq![
        ("ID"@, artist.id@),
        ("Name"@, artist.name@),
        ("Album count"@, number_or_unknown(widen(artist.album_count))),
        ("MusicBrainz ID"@, text_or_unknown(artist.music_brainz_id)),
    ]
}

/// The fields that the information dialog lists for an artist.
pub fn artist_info_fields(artist: &Artist) -> (r: Vec<(String, String)>)
    ensures
        field_views(r@) == artist_fields(*artist),
{
    let mut r: Vec<(String, String)> = Vec::new();
    r.push(field("ID", artist.id.clone()));
    r.push(field("Name", artist.name.clone()));
    r.push(field("Album count", number_or_unknown_string(widen_exec(artist.album_count))));
    r.push(field("MusicBrainz ID", text_or_unknown_string(&artist.music_brainz_id)));
    assert(field_views(r@) =~= artist_fields(*artist));
    r
}

/// The summary of a song for the player's first window (id, title, artist, album,
/// cover and duration in seconds).
#[derive(Debug, Clone)]
pub struct SongInfo {
    pub id: String,
    pub title: String,
    pub artist: String,
    pub album: String,
    pub cover_art_id: Option<String>,
    pub duration: u64,
}

/// The object path of a song summary: the id with each `-` turned into `/`.
pub open spec fn song_info_path(id: Seq<char>) -> Seq<char> {
    "/me/quartzy/sanicrs/track/"@ + Seq::new(id.len(), |i: int| if id[i] == '-' { '/' } else { id[i] })
}

impl SongInfo {
    /// The D-Bus object path of the summarised song.
    pub fn dbus_path(&self) -> (s: String)
        ensures
            s@ == song_info_path(self.id@),
    {
        let mut s = String::from_str("/me/quartzy/sanicrs/track/");
        let ghost head = s@;
        let id = self.id.as_str();
        let n = id.unicode_len();
        let mut i: usize = 0;
        proof {
            reveal_strlit("/");
        }
        while i < n
            invariant
                n == id@.len(),
                id@ == self.id@,
                i <= n,
                s@ == head + Seq::new(i as nat, |j: int| if id@[j] == '-' { '/' } else { id@[j] }),
            decreases n - i,
        {
            let ghost before = s@;
            let c = id.get_char(i);
            if c == '-' {
                proof {
                    reveal_strlit("/");
                }
                s.append("/");
                assert(s@ =~= before.push('/'));
            } else {
                let one = id.substring_char(i, i + 1);
                assert(one@ =~= seq![id@[i as int]]);
                s.append(one);
                assert(s@ =~= before.push(id@[i as int]));
            }
            assert(Seq::new((i + 1) as nat, |j: int| if id@[j] == '-' { '/' } else { id@[j] })
                =~= Seq::new(i as nat, |j: int| if id@[j] == '-' { '/' } else { id@[j] }).push(
                    if id@[i as int] == '-' { '/' } else { id@[i as int] }));
            i = i + 1;
        }
        s
    }

    /// The summary of a song of known duration; the artist is the display text, the
    /// artist field or "Unknown Artist", the album "Unknown Album" when none is given.
    pub fn from_song(song: &Song) -> (r: SongInfo)
        requires
            song.duration is Some,
        ensures
            r.id@ == song.id@,
            r.title@ == song.title@,
            r.artist@ == match song.display_artists {
                Some(d) => d@,
                None => match song.artist {
                    Some(a) => a@,
                    None => "Unknown Artist"@,
                },
            },
            r.album@ == match song.album {
                Some(a) => a@,
                None => "Unknown Album"@,
            },
            r.cover_art_id == song.cover_art,
            Some(r.duration) == song.duration,
    {
        SongInfo {
            id: song.id.clone(),
            title: song.title.clone(),
            artist: match &song.display_artists {
                Some(d) => d.clone(),
                None => match &song.artist {
                    Some(a) => a.clone(),
                    None => String::from_str("Unknown Artist"),
                },
            },
            album: match &song.album {
                Some(a) => a.clone(),
                None => String::from_str("Unknown Album"),
            },
            cover_art_id: match &song.cover_art {
                Some(c) => Some(c.clone()),
                None => None,
            },
            duration: match song.duration {
                Some(d) => d,
                None => 0,
            },
        }
    }
}

} // verus!
