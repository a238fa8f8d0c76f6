//! The play queue: its songs, the position of the song being played, the
//! shuffled order and the loop mode, with the moves that the player makes on it.
use vstd::prelude::*;
use std::rc::Rc;
use crate::bindings::{random_index_in, rc_share, shuffle_indices, uuid_simple_text, uuid_v4};
use crate::text::hex_fixed;
use crate::types::Song;

verus! {

broadcast use {
    vstd::seq_lib::group_seq_properties,
    vstd::seq_lib::group_to_multiset_ensures,
};

/// How the queue continues when a song ends.
#[derive(Debug, PartialEq, Eq, Structural, Clone, Copy)]
pub enum LoopStatus {
    /// Play to the end of the queue and stop.
    NoLoop,
    /// Repeat the current song.
    Track,
    /// Start again at the top of the queue after its last song.
    Playlist,
}

/// How ReplayGain adjusts the volume.
#[derive(Debug, PartialEq, Eq, Structural, Clone, Copy, Default)]
pub enum ReplayGainMode {
    /// No adjustment.
    #[default]
    Disabled,
    /// Adjust each track by its own gain.
    Track,
    /// Adjust by the album's gain.
    Album,
}

/// The mode stored in the settings as `v`, and whether `v` is unknown.
pub open spec fn mode_from_setting(v: u8) -> (ReplayGainMode, bool) {
    if v == 0 {
        (ReplayGainMode::Disabled, false)
    } else if v == 1 {
        (ReplayGainMode::Track, false)
    } else if v == 2 {
        (ReplayGainMode::Album, false)
    } else {
        (ReplayGainMode::Disabled, true)
    }
}

impl ReplayGainMode {
    /// The mode stored in the settings as `v` (0, 1 or 2); any other value gives no
    /// adjustment and is reported as unknown (the second part of the result).
    pub fn from_setting(v: u8) -> (r: (ReplayGainMode, bool))
        ensures
            r == mode_from_setting(v),
    {
        if v == 0 {
            (ReplayGainMode::Disabled, false)
        } else if v == 1 {
            (ReplayGainMode::Track, false)
        } else if v == 2 {
            (ReplayGainMode::Album, false)
        } else {
            (ReplayGainMode::Disabled, true)
        }
    }

    /// The value under which the mode is stored in the settings.
    pub fn to_setting(self) -> (v: u8)
        ensures
            v == match self {
                ReplayGainMode::Disabled => 0u8,
                ReplayGainMode::Track => 1u8,
                ReplayGainMode::Album => 2u8,
            },
    {
        match self {
            ReplayGainMode::Disabled => 0,
            ReplayGainMode::Track => 1,
            ReplayGainMode::Album => 2,
        }
    }

    /// How the audio filter is set up: whether the ReplayGain filter is used (rather
    /// than a pass-through) and whether it works in album mode.
    pub fn filter_setup(self) -> (r: (bool, bool))
        ensures
            r == match self {
                ReplayGainMode::Album => (true, true),
                ReplayGainMode::Track => (true, false),
                ReplayGainMode::Disabled => (false, true),
            },
    {
        match self {
            ReplayGainMode::Album => (true, true),
            ReplayGainMode::Track => (true, false),
            ReplayGainMode::Disabled => (false, true),
        }
    }
}

/// The player's settings; the volume is held as the IEEE-754 bit pattern of a 64-bit float.
#[derive(Debug, Clone, Copy)]
pub struct PlayerSettings {
    pub replay_gain_mode: ReplayGainMode,
    pub volume_bits: u64,
    pub should_scrobble: bool,
}

impl PlayerSettings {
    /// The settings before any are loaded: no ReplayGain, full volume, scrobbling on.
    pub fn default_settings() -> (s: PlayerSettings)
        ensures
            s.replay_gain_mode == ReplayGainMode::Disabled,
            s.volume_bits == 0x3ff0_0000_0000_0000u64,
            s.should_scrobble,
    {
        PlayerSettings { replay_gain_mode: ReplayGainMode::Disabled, volume_bits: 0x3ff0_0000_0000_0000u64, should_scrobble: true }
    }

    /// Takes the stored settings; returns whether the stored ReplayGain mode was unknown.
    pub fn load_settings(&mut self, mode: u8, volume_bits: u64, should_scrobble: bool) -> (unknown_mode: bool)
        ensures
            (final(self).replay_gain_mode, unknown_mode) == mode_from_setting(mode),
            final(self).volume_bits == volume_bits,
            final(self).should_scrobble == should_scrobble,
    {
        let (m, unknown) = ReplayGainMode::from_setting(mode);
        self.replay_gain_mode = m;
        self.volume_bits = volume_bits;
        self.should_scrobble = should_scrobble;
        unknown
    }
}

/// The direction in which a queue entry is moved.
#[derive(Debug, PartialEq, Eq, Structural, Clone, Copy)]
pub enum MoveDirection {
    Up,
    Down,
}

/// One entry of the queue: a song and the identifier of this occurrence of it.
#[derive(Debug)]
pub struct SongEntry {
    pub uuid: u128,
    pub song: Rc<Song>,
}

impl Clone for SongEntry {
    fn clone(&self) -> (r: Self)
        ensures
            r == *self,
    {
        SongEntry { uuid: self.uuid, song: rc_share(&self.song) }
    }
}

/// The D-Bus object path of a queue entry.
pub open spec fn song_dbus_path(uuid: u128) -> Seq<char> {
    "/me/quartzy/sanicrs/song/"@ + hex_fixed(uuid as nat, 32)
}

impl SongEntry {
    /// A new entry for `song`, with a fresh random identifier.
    pub fn new(song: Rc<Song>) -> (e: SongEntry)
        ensures
            e.song == song,
            (e.uuid >> 76u128) & 0xfu128 == 4u128,
            (e.uuid >> 62u128) & 0x3u128 == 2u128,
    {
        SongEntry { uuid: uuid_v4(), song }
    }

    /// The D-Bus object path under which this entry is published.
    pub fn dbus_path(&self) -> (s: String)
        ensures
            s@ == song_dbus_path(self.uuid),
    {
        let mut s = String::from_str("/me/quartzy/sanicrs/song/");
        let hex = uuid_simple_text(self.uuid);
        s.append(hex.as_str());
        s
    }
}

/// The abstract state of a queue.
pub struct TrackListView {
    /// The entries, in queue order.
    pub songs: Seq<SongEntry>,
    /// The playing position: an index into `songs`, or into `order` when shuffled.
    pub current: nat,
    /// The shuffled order: the queue indices in the order in which they are played.
    pub order: Seq<usize>,
    pub shuffled: bool,
    pub loop_status: LoopStatus,
}

/// The play queue.
pub struct TrackList {
    songs: Vec<SongEntry>,
    current: usize,
    shuffled_order: Vec<usize>,
    shuffled: bool,
    loop_status: LoopStatus,
}

impl View for TrackList {
    type V = TrackListView;

    closed spec fn view(&self) -> TrackListView {
        TrackListView {
            songs: self.songs@,
            current: self.current as nat,
            order: self.shuffled_order@,
            shuffled: self.shuffled,
            loop_status: self.loop_status,
        }
    }
}

/// The same queue with another playing position.
pub open spec fn with_current(v: TrackListView, c: nat) -> TrackListView {
    TrackListView { songs: v.songs, current: c, order: v.order, shuffled: v.shuffled, loop_status: v.loop_status }
}

/// The sequence `lo, lo + 1, ..., hi - 1` of queue indices.
pub open spec fn index_range(lo: int, hi: int) -> Seq<usize> {
    Seq::new((hi - lo) as nat, |i: int| (lo + i) as usize)
}

/// Whether `order` holds each index of a queue of `n` entries exactly once.
pub open spec fn is_index_permutation(order: Seq<usize>, n: nat) -> bool {
    order.to_multiset() == index_range(0, n as int).to_multiset()
}

/// The first place of the shuffled order that `set_shuffle(true)` shuffles: the one
/// after the playing position, or the top when the playing entry is the last one.
pub open spec fn shuffle_start(v: TrackListView) -> int {
    if v.current + 1 >= v.songs.len() { 0 } else { v.current + 1int }
}

/// Whether `w` is `v` with shuffling turned on: the same entries and playing position,
/// and an order that keeps the places before `shuffle_start(v)` and holds the remaining
/// queue indices in some order.
pub open spec fn is_shuffle_of(v: TrackListView, w: TrackListView) -> bool {
    let len = v.songs.len() as int;
    let start = shuffle_start(v);
    &&& w.songs == v.songs
    &&& w.current == v.current
    &&& w.loop_status == v.loop_status
    &&& w.shuffled
    &&& w.order.len() == len
    &&& w.order.subrange(0, start) == index_range(0, start)
    &&& w.order.subrange(start, len).to_multiset() == index_range(start, len).to_multiset()
}

/// Whether `w` is `v` with entries for `added` appended: the old entries stay, the new
/// ones hold the added songs in order, and when shuffled each new index is placed in
/// the order at or after the playing position.
pub open spec fn is_append_of(v: TrackListView, w: TrackListView, added: Seq<Rc<Song>>) -> bool {
    let n0 = v.songs.len() as int;
    &&& w.songs.len() == v.songs.len() + added.len()
    &&& w.songs.subrange(0, n0) == v.songs
    &&& forall|i: int| 0 <= i < added.len() ==> #[trigger] w.songs[n0 + i].song == added[i]
    &&& w.current == v.current
    &&& w.shuffled == v.shuffled
    &&& w.loop_status == v.loop_status
    &&& !v.shuffled ==> w.order == v.order
    &&& v.shuffled ==> {
        &&& w.order.len() == v.order.len() + added.len()
        &&& w.order.take(v.current as int) == v.order.take(v.current as int)
        &&& w.order.to_multiset() == v.order.to_multiset().add(index_range(n0, n0 + added.len()).to_multiset())
    }
}

/// The queue after moving on by one song.
pub open spec fn after_next(v: TrackListView) -> TrackListView {
    match v.loop_status {
        LoopStatus::NoLoop => with_current(v, v.current + 1),
        LoopStatus::Track => v,
        LoopStatus::Playlist => if v.current != v.songs.len() - 1 {
            with_current(v, v.current + 1)
        } else {
            with_current(v, 0)
        },
    }
}

/// Whether moving on by one song runs past the end of the queue.
pub open spec fn next_ends_queue(v: TrackListView) -> bool {
    v.loop_status == LoopStatus::NoLoop && v.current + 1 >= v.songs.len()
}

/// The queue after going back by one song (it stays at the top).
pub open spec fn after_previous(v: TrackListView) -> TrackListView {
    if v.current != 0 {
        with_current(v, (v.current - 1) as nat)
    } else {
        v
    }
}

/// The first position of `x` in `s`, or -1 when it does not occur.
pub open spec fn position_of(s: Seq<usize>, x: usize) -> int
    decreases s.len(),
{
    if s.len() == 0 {
        -1
    } else if s[0] == x {
        0
    } else {
        let p = position_of(s.drop_first(), x);
        if p < 0 { -1 } else { p + 1 }
    }
}

/// The queue after selecting the entry at queue index `index`.
pub open spec fn after_set_current(v: TrackListView, index: usize) -> TrackListView {
    if !v.shuffled {
        with_current(v, index as nat)
    } else {
        let p = position_of(v.order, index);
        with_current(v, if p >= 0 { p as nat } else { index as nat })
    }
}

/// The queue after removing the entry at queue index `index`.
pub open spec fn after_remove(v: TrackListView, index: int) -> TrackListView {
    TrackListView {
        songs: v.songs.remove(index),
        current: if v.current > index && v.current != 0 { (v.current - 1) as nat } else { v.current },
        order: v.order,
        shuffled: v.shuffled,
        loop_status: v.loop_status,
    }
}

/// The entry played at playing position `i`.
pub open spec fn entry_at(v: TrackListView, i: int) -> Option<SongEntry> {
    let j = if v.shuffled { v.order[i] as int } else { i };
    if 0 <= j < v.songs.len() {
        Some(v.songs[j])
    } else {
        None
    }
}

/// The queue index of the entry being played, if the queue is not empty.
pub open spec fn current_index_of(v: TrackListView) -> Option<usize> {
    if v.songs.len() > 0 {
        if v.shuffled {
            Some(v.order[v.current as int])
        } else {
            Some(v.current as usize)
        }
    } else {
        None
    }
}

/// The queue index at which `insert_song` puts the new entry.
pub open spec fn insert_position(v: TrackListView, index: Option<usize>) -> int {
    match index {
        Some(i) => i as int,
        None => v.songs.len() as int,
    }
}

/// The playing position after `insert_song`: it moves down by one when the new entry
/// goes at or above it.
pub open spec fn current_after_insert(v: TrackListView, index: Option<usize>) -> int {
    match index {
        Some(i) => if i <= v.current { v.current + 1int } else { v.current as int },
        None => v.current as int,
    }
}

/// `s` with the elements at `i` and `j` exchanged.
pub open spec fn swap_seq<T>(s: Seq<T>, i: int, j: int) -> Seq<T> {
    s.update(i, s[j]).update(j, s[i])
}

/// The neighbour index that an entry moves to, if the move is possible.
pub open spec fn move_target(len: nat, index: int, direction: MoveDirection) -> Option<int> {
    match direction {
        MoveDirection::Up => if index == 0 { None } else { Some(index - 1) },
        MoveDirection::Down => if index == len - 1 { None } else { Some(index + 1) },
    }
}

/// The queue index `x` with the indices `a` and `b` exchanged.
pub open spec fn exchanged(x: usize, a: usize, b: usize) -> usize {
    if x == a { b } else if x == b { a } else { x }
}

/// The shuffled order with the queue indices `a` and `b` exchanged wherever they occur.
pub open spec fn exchange_values(order: Seq<usize>, a: usize, b: usize) -> Seq<usize> {
    Seq::new(order.len(), |p: int| exchanged(order[p], a, b))
}

/// The queue after moving the entry at `index` to `target`. When shuffled, the two
/// queue indices are exchanged in the shuffled order, so that every entry is still
/// played at the same place of that order.
pub open spec fn after_move(v: TrackListView, index: int, target: int) -> TrackListView {
    TrackListView {
        songs: swap_seq(v.songs, index, target),
        current: if v.shuffled {
            v.current
        } else if index == v.current {
            target as nat
        } else if target == v.current {
            index as nat
        } else {
            v.current
        },
        order: if v.shuffled { exchange_values(v.order, index as usize, target as usize) } else { v.order },
        shuffled: v.shuffled,
        loop_status: v.loop_status,
    }
}

/// When moving the entry at `index` in `direction` can be done without failing.
pub open spec fn move_song_allowed(v: TrackListView, index: int, direction: MoveDirection) -> bool {
    (direction == MoveDirection::Down ==> v.songs.len() > 0)
    && match move_target(v.songs.len(), index, direction) {
        None => true,
        Some(t) => {
            &&& 0 <= index < v.songs.len()
            &&& 0 <= t < v.songs.len()
            &&& v.shuffled ==> {
                &&& v.order.contains(index as usize)
                &&& v.order.contains(t as usize)
                &&& v.current < v.order.len()
            }
        },
    }
}

/// The first position of `x` is where it first occurs.
proof fn lemma_position_of(s: Seq<usize>, x: usize)
    ensures
        position_of(s, x) >= 0 ==> {
            &&& position_of(s, x) < s.len()
            &&& s[position_of(s, x)] == x
            &&& forall|j: int| 0 <= j < position_of(s, x) ==> s[j] != x
        },
        position_of(s, x) < 0 ==> position_of(s, x) == -1 && !s.contains(x),
    decreases s.len(),
{
    if s.len() > 0 && s[0] != x {
        lemma_position_of(s.drop_first(), x);
        if position_of(s, x) >= 0 {
            assert forall|j: int| 0 <= j < position_of(s, x) implies s[j] != x by {
                if j > 0 {
                    assert(s[j] == s.drop_first()[j - 1]);
                }
            }
        } else {
            assert forall|j: int| 0 <= j < s.len() implies s[j] != x by {
                if j > 0 {
                    assert(s[j] == s.drop_first()[j - 1]);
                    assert(!s.drop_first().contains(x));
                }
            }
        }
    }
}

/// The first position of `x` in `v`, if it occurs.
fn first_position(v: &Vec<usize>, x: usize) -> (r: Option<usize>)
    ensures
        match r {
            Some(p) => position_of(v@, x) == p,
            None => position_of(v@, x) == -1,
        },
{
    proof {
        lemma_position_of(v@, x);
    }
    let n = v.len();
    let mut i: usize = 0;
    while i < n
        invariant
            n == v@.len(),
            i <= n,
            forall|j: int| 0 <= j < i ==> v@[j] != x,
            position_of(v@, x) >= 0 ==> {
                &&& position_of(v@, x) < v@.len()
                &&& v@[position_of(v@, x)] == x
                &&& forall|j: int| 0 <= j < position_of(v@, x) ==> v@[j] != x
            },
            position_of(v@, x) < 0 ==> position_of(v@, x) == -1 && !v@.contains(x),
        decreases n - i,
    {
        if v[i] == x {
            assert(v@[i as int] == x);
            assert(v@.contains(x));
            return Some(i);
        }
        i = i + 1;
    }
    None
}

impl TrackList {
    /// An empty queue, not shuffled and not looping.
    pub fn new() -> (t: TrackList)
        ensures
            t@.songs.len() == 0,
            t@.current == 0,
            t@.order.len() == 0,
            !t@.shuffled,
            t@.loop_status == LoopStatus::NoLoop,
    {
        TrackList {
            songs: Vec::new(),
            current: 0,
            shuffled: false,
            loop_status: LoopStatus::NoLoop,
            shuffled_order: Vec::new(),
        }
    }

    /// Whether the queue is played in shuffled order.
    pub fn is_suffled(&self) -> (r: bool)
        ensures
            r == self@.shuffled,
    {
        self.shuffled
    }

    /// The loop mode.
    pub fn loop_status(&self) -> (r: LoopStatus)
        ensures
            r == self@.loop_status,
    {
        self.loop_status
    }

    /// Sets the loop mode.
    pub fn set_loop_status(&mut self, loop_status: LoopStatus)
        ensures
            final(self)@ == (TrackListView { loop_status, ..old(self)@ }),
    {
        self.loop_status = loop_status;
    }

    /// Turns shuffling on or off. Turning it on makes a new order: the entries up to
    /// and including the playing one keep their places and the rest are shuffled;
    /// when the playing entry is the last one (or past it), the whole queue is shuffled.
    pub fn set_shuffle(&mut self, shuffle: bool)
        requires
            shuffle ==> old(self)@.current < usize::MAX,
        ensures
            final(self)@.songs == old(self)@.songs,
            final(self)@.current == old(self)@.current,
            final(self)@.loop_status == old(self)@.loop_status,
            final(self)@.shuffled == shuffle,
            !shuffle ==> final(self)@.order == old(self)@.order,
            shuffle ==> is_shuffle_of(old(self)@, final(self)@),
    {
        if shuffle {
            let len = self.songs.len();
            let start: usize = if self.current + 1 >= len { 0 } else { self.current + 1 };
            let mut tail: Vec<usize> = Vec::new();
            let mut i: usize = start;
            while i < len
                invariant
                    start <= i <= len,
                    tail@ == index_range(start as int, i as int),
                decreases len - i,
            {
                tail.push(i);
                i = i + 1;
                assert(tail@ =~= index_range(start as int, i as int));
            }
            let ghost unshuffled = tail@;
            shuffle_indices(&mut tail);
            proof {
                vstd::seq_lib::to_multiset_len(tail@);
                vstd::seq_lib::to_multiset_len(unshuffled);
            }
            let mut order: Vec<usize> = Vec::new();
            let mut k: usize = 0;
            while k < start
                invariant
                    k <= start <= len,
                    order@ == index_range(0, k as int),
                decreases start - k,
            {
                order.push(k);
                k = k + 1;
                assert(order@ =~= index_range(0, k as int));
            }
            let ghost head = order@;
            let ghost shuffled_tail = tail@;
            order.append(&mut tail);
            assert(order@.subrange(0, start as int) =~= head);
            assert(order@.subrange(start as int, len as int) =~= shuffled_tail);
            self.shuffled_order = order;
        }
        self.shuffled = shuffle;
    }

    /// Selects the entry at queue index `index` as the playing one. When shuffled, the
    /// playing position becomes the first place of `index` in the shuffled order
    /// (or `index` itself when it has none).
    pub fn set_current(&mut self, index: usize)
        ensures
            final(self)@ == after_set_current(old(self)@, index),
    {
        if !self.shuffled {
            self.current = index;
        } else {
            let found = first_position(&self.shuffled_order, index);
            self.current = match found {
                Some(p) => p,
                None => index,
            };
        }
    }

    /// Removes and returns the entry at queue index `index`; the playing position moves
    /// up by one when it was below the removed entry.
    pub fn remove_song(&mut self, index: usize) -> (e: SongEntry)
        requires
            index < old(self)@.songs.len(),
        ensures
            e == old(self)@.songs[index as int],
            final(self)@ == after_remove(old(self)@, index as int),
    {
        if self.current > index && self.current != 0 {
            self.current -= 1;
        }
        self.songs.remove(index)
    }

    /// Empties the queue and resets shuffling and the loop mode.
    pub fn clear(&mut self)
        ensures
            final(self)@.songs.len() == 0,
            final(self)@.order.len() == 0,
            final(self)@.current == 0,
            !final(self)@.shuffled,
            final(self)@.loop_status == LoopStatus::NoLoop,
    {
        self.songs.clear();
        self.shuffled_order.clear();
        self.current = 0;
        self.shuffled = false;
        self.loop_status = LoopStatus::NoLoop;
    }

    /// Whether the queue has no entries.
    pub fn empty(&self) -> (r: bool)
        ensures
            r == (self@.songs.len() == 0),
    {
        self.songs.len() == 0
    }

    /// Moves on by one song according to the loop mode; returns whether this ran past
    /// the end of the queue.
    pub fn next(&mut self) -> (over: bool)
        requires
            old(self)@.loop_status != LoopStatus::Track ==> old(self)@.current < usize::MAX,
            old(self)@.loop_status == LoopStatus::Playlist ==> old(self)@.songs.len() > 0,
        ensures
            final(self)@ == after_next(old(self)@),
            over == next_ends_queue(old(self)@),
    {
        match self.loop_status {
            LoopStatus::NoLoop => {
                self.current += 1;
                self.current >= self.songs.len()
            },
            LoopStatus::Track => false,
            LoopStatus::Playlist => {
                if self.current != self.songs.len() - 1 {
                    self.current += 1;
                } else {
                    self.current = 0;
                }
                false
            },
        }
    }

    /// Goes back by one song, staying at the top of the queue.
    pub fn previous(&mut self)
        ensures
            final(self)@ == after_previous(old(self)@),
    {
        if self.current != 0 {
            self.current -= 1;
        }
    }

    /// The entry played at playing position `i` (through the shuffled order when shuffled).
    pub fn song_at_index(&self, i: usize) -> (r: Option<&SongEntry>)
        requires
            self@.shuffled ==> i < self@.order.len(),
        ensures
            match r {
                Some(e) => entry_at(self@, i as int) == Some(*e),
                None => entry_at(self@, i as int) is None,
            },
    {
        let j = if self.shuffled { self.shuffled_order[i] } else { i };
        if j < self.songs.len() {
            Some(&self.songs[j])
        } else {
            None
        }
    }

    /// The entry being played.
    pub fn current(&self) -> (r: Option<&SongEntry>)
        requires
            self@.shuffled ==> self@.current < self@.order.len(),
        ensures
            match r {
                Some(e) => entry_at(self@, self@.current as int) == Some(*e),
                None => entry_at(self@, self@.current as int) is None,
            },
    {
        self.song_at_index(self.current)
    }

    /// The queue index of the entry being played, if the queue is not empty.
    pub fn current_index(&self) -> (r: Option<usize>)
        requires
            self@.songs.len() > 0 && self@.shuffled ==> self@.current < self@.order.len(),
        ensures
            r == current_index_of(self@),
    {
        if self.songs.len() > 0 {
            if self.shuffled {
                Some(self.shuffled_order[self.current])
            } else {
                Some(self.current)
            }
        } else {
            None
        }
    }

    /// Inserts `song` at queue index `index` (or at the end), with a fresh identifier.
    /// The playing position follows the playing entry. When shuffled, the new entry's
    /// index is put at a random place of the shuffled order at or after the playing position.
    pub fn insert_song(&mut self, song: Rc<Song>, index: Option<usize>)
        requires
            old(self)@.songs.len() < usize::MAX,
            index matches Some(i) ==> i <= old(self)@.songs.len(),
            current_after_insert(old(self)@, index) <= usize::MAX,
            old(self)@.shuffled ==> current_after_insert(old(self)@, index) <= old(self)@.order.len(),
        ensures
            final(self)@.songs.len() == old(self)@.songs.len() + 1,
            final(self)@.songs[insert_position(old(self)@, index)].song == song,
            final(self)@.songs == old(self)@.songs.insert(
                insert_position(old(self)@, index),
                final(self)@.songs[insert_position(old(self)@, index)],
            ),
            final(self)@.current == current_after_insert(old(self)@, index),
            final(self)@.shuffled == old(self)@.shuffled,
            final(self)@.loop_status == old(self)@.loop_status,
            !old(self)@.shuffled ==> final(self)@.order == old(self)@.order,
            old(self)@.shuffled ==> exists|p: int|
                current_after_insert(old(self)@, index) <= p <= old(self)@.order.len()
                && final(self)@.order == #[trigger] old(self)@.order.insert(
                    p,
                    insert_position(old(self)@, index) as usize,
                ),
    {
        let entry = SongEntry::new(song);
        let pos = match index {
            Some(i) => {
                if i <= self.current {
                    self.current += 1;
                }
                self.songs.insert(i, entry);
                i
            },
            None => {
                self.songs.push(entry);
                self.songs.len() - 1
            },
        };
        assert(pos as int == insert_position(old(self)@, index));
        assert(self.songs@ =~= old(self)@.songs.insert(pos as int, self.songs@[pos as int]));
        if self.shuffled {
            let ghost order_before = self.shuffled_order@;
            let p = random_index_in(self.current, self.shuffled_order.len());
            self.shuffled_order.insert(p, pos);
            assert(self.shuffled_order@ == order_before.insert(p as int, pos));
            assert(self.shuffled_order@ == old(self)@.order.insert(
                p as int,
                insert_position(old(self)@, index) as usize,
            ));
        }
    }

    /// Appends `songs` to the queue, each with a fresh identifier. When shuffled, the
    /// index of each new entry is put at a random place of the shuffled order at or
    /// after the playing position.
    pub fn add_songs(&mut self, songs: Vec<Rc<Song>>)
        requires
            old(self)@.songs.len() + songs@.len() <= usize::MAX,
            old(self)@.shuffled ==> old(self)@.current <= old(self)@.order.len(),
        ensures
            is_append_of(old(self)@, final(self)@, songs@),
    {
        let ghost old_v = self@;
        let prev_n = self.songs.len();
        let n = songs.len();
        let mut k: usize = 0;
        while k < n
            invariant
                n == songs@.len(),
                prev_n == old_v.songs.len(),
                prev_n + n <= usize::MAX,
                k <= n,
                self.songs@.len() == prev_n + k,
                self.songs@.subrange(0, prev_n as int) == old_v.songs,
                forall|i: int| 0 <= i < k ==> #[trigger] self.songs@[prev_n + i].song == songs@[i],
                self.current == old_v.current,
                self.shuffled == old_v.shuffled,
                self.loop_status == old_v.loop_status,
                !self.shuffled ==> self.shuffled_order@ == old_v.order,
                self.shuffled ==> {
                    &&& self.current <= old_v.order.len()
                    &&& self.shuffled_order@.len() == old_v.order.len() + k
                    &&& self.shuffled_order@.take(self.current as int) == old_v.order.take(self.current as int)
                    &&& self.shuffled_order@.to_multiset() == old_v.order.to_multiset().add(
                        index_range(prev_n as int, prev_n + k).to_multiset())
                },
            decreases n - k,
        {
            let ghost before = self.songs@;
            self.songs.push(SongEntry::new(rc_share(&songs[k])));
            assert(self.songs@.subrange(0, prev_n as int) =~= before.subrange(0, prev_n as int));
            if self.shuffled {
                let ghost order_before = self.shuffled_order@;
                let p = random_index_in(self.current, self.shuffled_order.len());
                self.shuffled_order.insert(p, prev_n + k);
                proof {
                    assert(self.shuffled_order@.take(self.current as int)
                        =~= order_before.take(self.current as int));
                    assert(index_range(prev_n as int, prev_n + k + 1)
                        =~= index_range(prev_n as int, prev_n + k).push((prev_n + k) as usize));
                    vstd::seq_lib::to_multiset_insert(order_before, p as int, (prev_n + k) as usize);
                    vstd::seq_lib::to_multiset_build(index_range(prev_n as int, prev_n + k), (prev_n + k) as usize);
                    assert(self.shuffled_order@.to_multiset() =~= old_v.order.to_multiset().add(
                        index_range(prev_n as int, prev_n + k + 1).to_multiset()));
                }
            }
            k = k + 1;
        }
        assert(self.songs@.subrange(0, prev_n as int) == old_v.songs);
    }

    /// The entries, in queue order.
    pub fn get_songs(&self) -> (r: &Vec<SongEntry>)
        ensures
            r@ == self@.songs,
    {
        &self.songs
    }

    /// Moves the entry at queue index `index` one place up or down, exchanging it with
    /// its neighbour (and, when shuffled, exchanging the two queue indices in the shuffled
    /// order, so that the play order of the entries is unaffected). Returns `None` when
    /// there is no neighbour in that direction, otherwise the
    /// queue index of the playing entry after the move.
    #[verifier::rlimit(40)]
    pub fn move_song(&mut self, index: usize, direction: MoveDirection) -> (r: Option<usize>)
        requires
            move_song_allowed(old(self)@, index as int, direction),
        ensures
            match move_target(old(self)@.songs.len(), index as int, direction) {
                None => r is None && final(self)@ == old(self)@,
                Some(t) => {
                    &&& final(self)@ == after_move(old(self)@, index as int, t)
                    &&& r == current_index_of(final(self)@)
                },
            },
    {
        let new_i = match direction {
            MoveDirection::Up => {
                if index == 0 {
                    return None;
                } else {
                    index - 1
                }
            },
            MoveDirection::Down => {
                if index == self.songs.len() - 1 {
                    return None;
                } else {
                    index + 1
                }
            },
        };
        let ghost old_v = self@;
        let lo = if index < new_i { index } else { new_i };
        let hi = lo + 1;
        let e = self.songs.remove(hi);
        self.songs.insert(lo, e);
        assert(self.songs@ =~= swap_seq(old_v.songs, index as int, new_i as int));
        if self.shuffled {
            exchange_in(&mut self.shuffled_order, index, new_i);
        } else {
            if index == self.current {
                self.current = new_i;
            } else if new_i == self.current {
                self.current = index;
            }
        }
        self.current_index()
    }
}

/// Exchanges the queue indices `a` and `b` wherever they occur in `order`.
fn exchange_in(order: &mut Vec<usize>, a: usize, b: usize)
    ensures
        final(order)@ == exchange_values(old(order)@, a, b),
{
    let ghost before = order@;
    let n = order.len();
    let mut p: usize = 0;
    while p < n
        invariant
            n == before.len(),
            order@.len() == n,
            p <= n,
            forall|q: int| 0 <= q < p ==> #[trigger] order@[q] == exchanged(before[q], a, b),
            forall|q: int| p <= q < n ==> #[trigger] order@[q] == before[q],
        decreases n - p,
    {
        let x = order[p];
        let y = if x == a { b } else if x == b { a } else { x };
        order.set(p, y);
        p = p + 1;
    }
    assert(order@ =~= exchange_values(before, a, b));
}

/// Going back after moving on returns to the same place, whenever moving on advanced
/// by one (no loop, or looping the playlist away from its last entry).
pub proof fn law_previous_undoes_next(v: TrackListView)
    requires
        v.loop_status == LoopStatus::NoLoop
            || (v.loop_status == LoopStatus::Playlist && v.current != v.songs.len() - 1),
    ensures
        after_previous(after_next(v)) == v,
{
}

/// Moving an entry down and then moving it back up restores the queue, its playing
/// position and its shuffled order.
pub proof fn law_move_down_then_up_restores(v: TrackListView, i: int)
    requires
        0 <= i,
        i + 1 < v.songs.len(),
        v.shuffled ==> i + 1 < v.order.len(),
    ensures
        move_target(v.songs.len(), i, MoveDirection::Down) == Some(i + 1),
        move_target(after_move(v, i, i + 1).songs.len(), i + 1, MoveDirection::Up) == Some(i),
        after_move(after_move(v, i, i + 1), i + 1, i) == v,
{
    let w = after_move(v, i, i + 1);
    let u = after_move(w, i + 1, i);
    assert(u.songs =~= v.songs);
    if v.shuffled {
        assert(u.order =~= v.order);
    }
}

/// Moving an entry keeps the same entry playing (queue not shuffled): the playing
/// position follows the entry that was playing.
pub proof fn law_move_keeps_playing_entry(v: TrackListView, index: int, target: int)
    requires
        !v.shuffled,
        0 <= index < v.songs.len(),
        0 <= target < v.songs.len(),
        v.current < v.songs.len(),
    ensures
        entry_at(after_move(v, index, target), after_move(v, index, target).current as int)
            == entry_at(v, v.current as int),
{
}

/// Moving an entry of a shuffled queue leaves unchanged the order in which the
/// entries are played, and the playing position.
pub proof fn law_shuffled_move_keeps_play_order(v: TrackListView, index: usize, target: usize)
    requires
        v.shuffled,
        index < v.songs.len(),
        target < v.songs.len(),
    ensures
        after_move(v, index as int, target as int).current == v.current,
        after_move(v, index as int, target as int).order.len() == v.order.len(),
        forall|p: int| 0 <= p < v.order.len() ==> #[trigger] entry_at(after_move(v, index as int, target as int), p) == entry_at(v, p),
{
    let w = after_move(v, index as int, target as int);
    assert forall|p: int| 0 <= p < v.order.len() implies #[trigger] entry_at(w, p) == entry_at(v, p) by {
        let x = v.order[p];
        assert(w.order[p] == exchanged(x, index, target));
        if x == index {
            assert(w.songs[target as int] == v.songs[index as int]);
        } else if x == target {
            assert(w.songs[index as int] == v.songs[target as int]);
        } else if 0 <= x < v.songs.len() {
            assert(w.songs[x as int] == v.songs[x as int]);
        }
    }
}

/// Removing another entry keeps the same entry playing (queue not shuffled).
pub proof fn law_remove_keeps_playing_entry(v: TrackListView, index: int)
    requires
        !v.shuffled,
        0 <= index < v.songs.len(),
        v.current < v.songs.len(),
        index != v.current,
    ensures
        entry_at(after_remove(v, index), after_remove(v, index).current as int)
            == entry_at(v, v.current as int),
{
}

/// Inserting an entry keeps the same entry playing (queue not shuffled), whatever
/// entry is inserted.
pub proof fn law_insert_keeps_playing_entry(v: TrackListView, index: Option<usize>, e: SongEntry)
    requires
        !v.shuffled,
        v.current < v.songs.len(),
        index matches Some(i) ==> i <= v.songs.len(),
    ensures
        ({
            let w = TrackListView {
                songs: v.songs.insert(insert_position(v, index), e),
                current: current_after_insert(v, index) as nat,
                order: v.order,
                shuffled: v.shuffled,
                loop_status: v.loop_status,
            };
            entry_at(w, w.current as int) == entry_at(v, v.current as int)
        }),
{
}

/// Selecting an entry makes it the playing one: without shuffling for any index of the
/// queue, and with shuffling for any index that the shuffled order holds.
pub proof fn law_set_current_selects(v: TrackListView, index: usize)
    requires
        index < v.songs.len(),
        v.shuffled ==> v.order.contains(index),
    ensures
        current_index_of(after_set_current(v, index)) == Some(index),
{
    if v.shuffled {
        lemma_position_of(v.order, index);
    }
}

/// The orders that turning shuffling on may give are exactly these: when an entry after
/// the playing one exists, the places up to and including the playing position keep
/// their own indices and the later places hold the later indices in any order (so the
/// next entry may be any of them); when the playing entry is the last one, the whole
/// queue in any order.
pub proof fn law_shuffle_orders(v: TrackListView, w: TrackListView)
    requires
        w.songs == v.songs,
        w.current == v.current,
        w.loop_status == v.loop_status,
        w.shuffled,
        w.order.len() == v.songs.len(),
    ensures
        v.current + 1 < v.songs.len() ==> (is_shuffle_of(v, w) <==> (
            (forall|i: int| 0 <= i <= v.current ==> #[trigger] w.order[i] == i as usize)
            && w.order.subrange(v.current + 1int, v.songs.len() as int).to_multiset()
                == index_range(v.current + 1int, v.songs.len() as int).to_multiset())),
        v.current + 1 >= v.songs.len() ==> (is_shuffle_of(v, w) <==> w.order.to_multiset()
            == index_range(0, v.songs.len() as int).to_multiset()),
{
    let len = v.songs.len() as int;
    if v.current + 1 < len {
        let c: int = v.current + 1int;
        assert(shuffle_start(v) == c);
        if is_shuffle_of(v, w) {
            assert forall|i: int| 0 <= i <= v.current implies #[trigger] w.order[i] == i as usize by {
                assert(w.order.subrange(0, c)[i] == index_range(0, c)[i]);
            }
        }
        if (forall|i: int| 0 <= i <= v.current ==> #[trigger] w.order[i] == i as usize) {
            assert(w.order.subrange(0, c) =~= index_range(0, c));
        }
    } else {
        assert(shuffle_start(v) == 0);
        assert(w.order.subrange(0, 0) =~= index_range(0, 0));
        assert(w.order.subrange(0, len) =~= w.order);
    }
}

/// Turning shuffling on holds every queue index exactly once in the order.
pub proof fn law_shuffle_is_permutation(v: TrackListView, w: TrackListView)
    requires
        is_shuffle_of(v, w),
    ensures
        is_index_permutation(w.order, w.songs.len()),
{
    let len = v.songs.len() as int;
    let start = shuffle_start(v);
    assert(w.order =~= w.order.subrange(0, start) + w.order.subrange(start, len));
    assert(index_range(0, len) =~= index_range(0, start) + index_range(start, len));
    vstd::seq_lib::lemma_multiset_commutative(w.order.subrange(0, start), w.order.subrange(start, len));
    vstd::seq_lib::lemma_multiset_commutative(index_range(0, start), index_range(start, len));
}

/// Turning shuffling on keeps the playing entry when it is not the last one.
pub proof fn law_shuffle_keeps_playing_entry(v: TrackListView, w: TrackListView)
    requires
        !v.shuffled,
        v.current + 1 < v.songs.len() <= usize::MAX,
        is_shuffle_of(v, w),
    ensures
        current_index_of(w) == current_index_of(v),
        entry_at(w, w.current as int) == entry_at(v, v.current as int),
{
    let start = shuffle_start(v);
    assert(w.order.subrange(0, start)[v.current as int] == w.order[v.current as int]);
    assert(index_range(0, start)[v.current as int] == v.current as usize);
    assert(w.order[v.current as int] == v.current as usize);
}

/// Appending songs keeps the shuffled order a permutation of the queue indices.
pub proof fn law_append_keeps_permutation(v: TrackListView, w: TrackListView, added: Seq<Rc<Song>>)
    requires
        v.shuffled,
        is_index_permutation(v.order, v.songs.len()),
        is_append_of(v, w, added),
    ensures
        is_index_permutation(w.order, w.songs.len()),
{
    let n0 = v.songs.len() as int;
    let n1 = n0 + added.len();
    assert(index_range(0, n1) =~= index_range(0, n0) + index_range(n0, n1));
    vstd::seq_lib::lemma_multiset_commutative(index_range(0, n0), index_range(n0, n1));
}

} // verus!
