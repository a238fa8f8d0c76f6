//! The in-memory caches of songs, albums, artists and lyrics, keyed by id. A
//! cached item is shared by every part of the player that shows it, and the
//! caches never replace an item that they hold, except to complete it.
use vstd::prelude::*;
use std::rc::Rc;
use vstd::hash_map::StringHashMap;
use crate::bindings::rc_share;
use crate::client::{
    law_search3_params, search3_params, star_request_spec, request_view, ActionRequest, ClientError, OpenSubsonicClient,
};
use crate::text::decimal;
use crate::types::{Album, Artist, LyricsList, Search3Results, Song};

verus! {

/// Items that are cached under an id.
pub trait Keyed {
    /// The id under which the item is cached.
    spec fn key(&self) -> Seq<char>;

    /// The id under which the item is cached.
    fn key_str(&self) -> (r: &str)
        ensures
            r@ == self.key();
}

impl Keyed for Song {
    open spec fn key(&self) -> Seq<char> {
        self.id@
    }

    fn key_str(&self) -> (r: &str) {
        self.id.as_str()
    }
}

impl Keyed for Artist {
    open spec fn key(&self) -> Seq<char> {
        self.id@
    }

    fn key_str(&self) -> (r: &str) {
        self.id.as_str()
    }
}

/// An album as the cache holds it: its data and, once loaded, its songs.
#[derive(Debug)]
pub struct AlbumObject {
    pub album: Rc<Album>,
    pub songs: Option<Vec<Rc<Song>>>,
}

impl Keyed for AlbumObject {
    open spec fn key(&self) -> Seq<char> {
        self.album.id@
    }

    fn key_str(&self) -> (r: &str) {
        self.album.id.as_str()
    }
}

impl AlbumObject {
    /// An album whose songs are not loaded yet.
    pub fn new(album: Album) -> (a: AlbumObject)
        ensures
            *a.album == album,
            a.songs is None,
    {
        AlbumObject { album: Rc::new(album), songs: None }
    }

    /// Whether the album's songs are loaded.
    pub fn has_songs(&self) -> (r: bool)
        ensures
            r == self.songs is Some,
    {
        self.songs.is_some()
    }

    /// The album's id.
    pub fn id(&self) -> (r: String)
        ensures
            r@ == self.album.id@,
    {
        self.album.id.clone()
    }
}

/// What a cache `m` holds under `id`, if anything.
pub open spec fn cache_lookup<T>(m: Map<Seq<char>, Rc<T>>, id: Seq<char>) -> Option<Rc<T>> {
    if m.contains_key(id) {
        Some(m[id])
    } else {
        None
    }
}

/// Whether every item of `m` is cached under its own id.
pub open spec fn keyed<T: Keyed>(m: Map<Seq<char>, Rc<T>>) -> bool {
    forall|k: Seq<char>| #[trigger] m.contains_key(k) ==> m[k].key() == k
}

/// `m` with `x` added under its id, unless the id is already cached.
pub open spec fn keep_first<T: Keyed>(m: Map<Seq<char>, Rc<T>>, x: Rc<T>) -> Map<Seq<char>, Rc<T>> {
    if m.contains_key(x.key()) {
        m
    } else {
        m.insert(x.key(), x)
    }
}

/// `m` with each of `xs` added in turn, each only if its id is not yet cached.
pub open spec fn keep_all<T: Keyed>(m: Map<Seq<char>, Rc<T>>, xs: Seq<Rc<T>>) -> Map<Seq<char>, Rc<T>>
    decreases xs.len(),
{
    if xs.len() == 0 {
        m
    } else {
        keep_first(keep_all(m, xs.drop_last()), xs.last())
    }
}

/// Adding items keeps every cached item and caches each added id.
pub proof fn lemma_keep_all<T: Keyed>(m: Map<Seq<char>, Rc<T>>, xs: Seq<Rc<T>>)
    ensures
        forall|k: Seq<char>| m.contains_key(k) ==> #[trigger] keep_all(m, xs).contains_key(k) && keep_all(m, xs)[k] == m[k],
        forall|i: int| 0 <= i < xs.len() ==> keep_all(m, xs).contains_key(#[trigger] xs[i].key()),
    decreases xs.len(),
{
    if xs.len() > 0 {
        lemma_keep_all(m, xs.drop_last());
        let prev = keep_all(m, xs.drop_last());
        assert forall|k: Seq<char>| m.contains_key(k) implies #[trigger] keep_all(m, xs).contains_key(k)
            && keep_all(m, xs)[k] == m[k] by {
            assert(prev.contains_key(k) && prev[k] == m[k]);
        }
        assert forall|i: int| 0 <= i < xs.len() implies keep_all(m, xs).contains_key(#[trigger] xs[i].key()) by {
            if i < xs.len() - 1 {
                assert(xs[i] == xs.drop_last()[i]);
            }
        }
    }
}

/// Wraps each of `v` for sharing, keeping the order.
fn share_all<T>(v: Vec<T>) -> (r: Vec<Rc<T>>)
    ensures
        r@.len() == v@.len(),
        forall|i: int| 0 <= i < v@.len() ==> *#[trigger] r@[i] == v@[i],
{
    let ghost orig = v@;
    let mut v = v;
    let mut rev: Vec<Rc<T>> = Vec::new();
    while v.len() > 0
        invariant
            v@.len() + rev@.len() == orig.len(),
            v@ == orig.take(v@.len() as int),
            forall|i: int| 0 <= i < rev@.len() ==> *#[trigger] rev@[i] == orig[orig.len() - 1 - i],
        decreases v@.len(),
    {
        let ghost before = v@;
        let x = v.pop().unwrap();
        assert(v@ =~= orig.take(v@.len() as int)) by {
            assert(before.drop_last() =~= v@);
        }
        rev.push(Rc::new(x));
    }
    let mut out: Vec<Rc<T>> = Vec::new();
    while rev.len() > 0
        invariant
            rev@.len() + out@.len() == orig.len(),
            forall|i: int| 0 <= i < rev@.len() ==> *#[trigger] rev@[i] == orig[orig.len() - 1 - i],
            forall|i: int| 0 <= i < out@.len() ==> *#[trigger] out@[i] == orig[i],
        decreases rev@.len(),
    {
        let x = rev.pop().unwrap();
        out.push(x);
    }
    out
}

/// Caches each of `items` in turn unless its id is cached already, and returns for each
/// the item that the cache holds for its id afterwards.
fn add_all<T: Keyed>(map: &mut StringHashMap<Rc<T>>, items: &Vec<Rc<T>>) -> (r: Vec<Rc<T>>)
    ensures
        final(map)@ == keep_all(old(map)@, items@),
        r@.len() == items@.len(),
        forall|i: int| 0 <= i < items@.len() ==> #[trigger] r@[i] == final(map)@[items@[i].key()],
{
    let mut r: Vec<Rc<T>> = Vec::new();
    let n = items.len();
    let mut i: usize = 0;
    while i < n
        invariant
            n == items@.len(),
            i <= n,
            map@ == keep_all(old(map)@, items@.take(i as int)),
            r@.len() == i,
            forall|j: int| 0 <= j < i ==> map@.contains_key(#[trigger] items@[j].key()) && r@[j] == map@[items@[j].key()],
        decreases n - i,
    {
        let ghost before = map@;
        assert(items@.take(i + 1).drop_last() =~= items@.take(i as int));
        let item = &items[i];
        let key = item.key_str();
        match map.get(key) {
            Some(existing) => {
                let shared = rc_share(existing);
                r.push(shared);
            },
            None => {
                map.insert(String::from_str(key), rc_share(item));
                r.push(rc_share(item));
            },
        }
        assert forall|j: int| 0 <= j < i + 1 implies map@.contains_key(#[trigger] items@[j].key())
            && r@[j] == map@[items@[j].key()] by {
            if j < i {
                assert(before.contains_key(items@[j].key()));
            }
        }
        i = i + 1;
    }
    assert(items@.take(n as int) =~= items@);
    r
}

/// Caches `item` unless its id is cached, and returns what the cache then holds for it.
fn get_or_add<T: Keyed>(map: &mut StringHashMap<Rc<T>>, item: Rc<T>) -> (r: Rc<T>)
    ensures
        final(map)@ == keep_first(old(map)@, item),
        r == final(map)@[item.key()],
{
    let key = String::from_str(item.key_str());
    match map.get(key.as_str()) {
        Some(existing) => rc_share(existing),
        None => {
            map.insert(key, rc_share(&item));
            item
        },
    }
}

/// What the cache holds under `id`, if anything.
fn lookup<T>(map: &StringHashMap<Rc<T>>, id: &str) -> (r: Option<Rc<T>>)
    ensures
        match r {
            Some(x) => map@.contains_key(id@) && x == map@[id@],
            None => !map@.contains_key(id@),
        },
{
    match map.get(id) {
        Some(x) => Some(rc_share(x)),
        None => None,
    }
}

/// The parameters of a search for songs only.
pub open spec fn song_search_params(query: Seq<char>, count: u32, offset: Option<u32>) -> Seq<(Seq<char>, Seq<char>)> {
    search3_params(query, Some(0), None, Some(0), None, Some(count), offset, None)
}

/// The parameters of a search for albums only.
pub open spec fn album_search_params(query: Seq<char>, count: u32, offset: Option<u32>) -> Seq<(Seq<char>, Seq<char>)> {
    search3_params(query, Some(0), None, Some(count), offset, Some(0), None, None)
}

/// The parameters of a search for artists only.
pub open spec fn artist_search_params(query: Seq<char>, count: u32, offset: Option<u32>) -> Seq<(Seq<char>, Seq<char>)> {
    search3_params(query, Some(count), offset, Some(0), None, Some(0), None, None)
}

/// A search for one kind of item asks for `count` items of that kind from `offset` (0
/// when none is given) and for no item of the other kinds, on the query.
pub proof fn law_search_pages(query: Seq<char>, count: u32, offset: Option<u32>)
    ensures
        ({
            let at = decimal(match offset { Some(o) => o as nat, None => 0 });
            let n = decimal(count as nat);
            let zero = decimal(0);
            let songs = song_search_params(query, count, offset);
            let albums = album_search_params(query, count, offset);
            let artists = artist_search_params(query, count, offset);
            &&& songs == seq![("query"@, query), ("artistCount"@, zero), ("artistOffset"@, zero),
                ("albumCount"@, zero), ("albumOffset"@, zero), ("songCount"@, n), ("songOffset"@, at)]
            &&& albums == seq![("query"@, query), ("artistCount"@, zero), ("artistOffset"@, zero),
                ("albumCount"@, n), ("albumOffset"@, at), ("songCount"@, zero), ("songOffset"@, zero)]
            &&& artists == seq![("query"@, query), ("artistCount"@, n), ("artistOffset"@, at),
                ("albumCount"@, zero), ("albumOffset"@, zero), ("songCount"@, zero), ("songOffset"@, zero)]
        }),
{
    law_search3_params(query, Some(0), None, Some(0), None, Some(count), offset, None);
    law_search3_params(query, Some(0), None, Some(count), offset, Some(0), None, None);
    law_search3_params(query, Some(count), offset, Some(0), None, Some(0), None, None);
    assert(song_search_params(query, count, offset) =~= seq![("query"@, query), ("artistCount"@, decimal(0)),
        ("artistOffset"@, decimal(0)), ("albumCount"@, decimal(0)), ("albumOffset"@, decimal(0)),
        ("songCount"@, decimal(count as nat)), ("songOffset"@, decimal(match offset { Some(o) => o as nat, None => 0 }))]);
    assert(album_search_params(query, count, offset) =~= seq![("query"@, query), ("artistCount"@, decimal(0)),
        ("artistOffset"@, decimal(0)), ("albumCount"@, decimal(count as nat)),
        ("albumOffset"@, decimal(match offset { Some(o) => o as nat, None => 0 })), ("songCount"@, decimal(0)),
        ("songOffset"@, decimal(0))]);
    assert(artist_search_params(query, count, offset) =~= seq![("query"@, query), ("artistCount"@, decimal(count as nat)),
        ("artistOffset"@, decimal(match offset { Some(o) => o as nat, None => 0 })), ("albumCount"@, decimal(0)),
        ("albumOffset"@, decimal(0)), ("songCount"@, decimal(0)), ("songOffset"@, decimal(0))]);
}

/// The cache of songs.
pub struct SongCache {
    cache: StringHashMap<Rc<Song>>,
}

impl View for SongCache {
    type V = Map<Seq<char>, Rc<Song>>;

    closed spec fn view(&self) -> Map<Seq<char>, Rc<Song>> {
        self.cache@
    }
}

impl SongCache {
    /// An empty cache.
    pub fn new() -> (c: SongCache)
        ensures
            c@ == Map::<Seq<char>, Rc<Song>>::empty(),
    {
        SongCache { cache: StringHashMap::new() }
    }

    /// The cached song with the id of `song`, caching `song` if there is none.
    pub fn get_song_cached(&mut self, song: Song) -> (r: Rc<Song>)
        ensures
            final(self)@ == keep_first(old(self)@, Rc::new(song)),
            r == final(self)@[song.id@],
            old(self)@.contains_key(song.id@) ==> r == old(self)@[song.id@],
            !old(self)@.contains_key(song.id@) ==> *r == song,
    {
        get_or_add(&mut self.cache, Rc::new(song))
    }

    /// The cached song with this id, if any.
    pub fn cached_song(&self, id: &str) -> (r: Option<Rc<Song>>)
        ensures
            r == cache_lookup(self@, id@),
    {
        lookup(&self.cache, id)
    }

    /// Caches a song fetched from the server under the id by which it was asked for.
    pub fn insert_fetched(&mut self, id: &str, song: Rc<Song>)
        ensures
            final(self)@ == old(self)@.insert(id@, song),
    {
        self.cache.insert(String::from_str(id), song);
    }

    /// Takes the server's reply to a request for the song `id` (made because it was not
    /// cached): the fetched song is cached under `id` and returned; an error is returned
    /// with the cache unchanged.
    pub fn song_from_reply(&mut self, id: &str, reply: Result<Song, ClientError>) -> (r: Result<Rc<Song>, ClientError>)
        ensures
            match reply {
                Ok(s) => (r matches Ok(x) && *x == s && final(self)@ == old(self)@.insert(id@, x)),
                Err(e) => r == Err::<Rc<Song>, ClientError>(e) && final(self)@ == old(self)@,
            },
    {
        match reply {
            Ok(s) => {
                let x = Rc::new(s);
                self.insert_fetched(id, rc_share(&x));
                Ok(x)
            },
            Err(e) => Err(e),
        }
    }

    /// Caches each of `songs` unless its id is cached already, and returns for each the
    /// song that the cache holds for its id.
    pub fn add_songs(&mut self, songs: Vec<Song>) -> (r: Vec<Rc<Song>>)
        ensures
            exists|shared: Seq<Rc<Song>>| shared.len() == songs@.len()
                && (forall|i: int| 0 <= i < shared.len() ==> *#[trigger] shared[i] == songs@[i])
                && final(self)@ == #[trigger] keep_all(old(self)@, shared),
            r@.len() == songs@.len(),
            forall|i: int| 0 <= i < songs@.len() ==> #[trigger] r@[i] == final(self)@[songs@[i].id@],
    {
        let shared = share_all(songs);
        let r = add_all(&mut self.cache, &shared);
        assert(forall|i: int| 0 <= i < shared@.len() ==> #[trigger] shared@[i].key() == songs@[i].id@);
        assert(shared@.len() == songs@.len()
            && (forall|i: int| 0 <= i < shared@.len() ==> *#[trigger] shared@[i] == songs@[i])
            && self@ == keep_all(old(self)@, shared@));
        r
    }

    /// The search request for songs only: `count` songs from `offset`.
    pub fn search(client: &OpenSubsonicClient, query: &str, count: u32, offset: Option<u32>) -> (r: ActionRequest)
        ensures
            request_view(r) == ("search3"@, song_search_params(query@, count, offset)),
    {
        client.search3(query, Some(0), None, Some(0), None, Some(count), offset, None)
    }

    /// Caches the songs of search results; fails when the results hold no song list.
    pub fn search_results(&mut self, results: Search3Results) -> (r: Result<Vec<Rc<Song>>, ClientError>)
        ensures
            results.song is None ==> final(self)@ == old(self)@
                && (r matches Err(ClientError::Message(m)) && m@ == "No songs found"@),
            results.song matches Some(list) ==> (r matches Ok(v) && v@.len() == list@.len()
                && (exists|shared: Seq<Rc<Song>>| shared.len() == list@.len()
                    && (forall|i: int| 0 <= i < shared.len() ==> *#[trigger] shared[i] == list@[i])
                    && final(self)@ == #[trigger] keep_all(old(self)@, shared))
                && forall|i: int| 0 <= i < list@.len() ==> #[trigger] v@[i] == final(self)@[list@[i].id@]),
    {
        match results.song {
            Some(songs) => Ok(self.add_songs(songs)),
            None => Err(ClientError::Message(String::from_str("No songs found"))),
        }
    }

    /// The request that toggles the star of `song` (unstar when starred, star otherwise)
    /// and the value of its starred field once the server has done so.
    pub fn toggle_starred(client: &OpenSubsonicClient, song: &Song) -> (r: (Result<ActionRequest, ClientError>, Option<String>))
        ensures
            star_toggled(song.starred, r.1),
            star_request_spec(
                toggle_action(song.starred is Some), toggle_empty_msg(song.starred is Some),
                seq![song.id], Seq::empty(), Seq::empty(), r.0),
    {
        let mut ids: Vec<String> = Vec::new();
        ids.push(song.id.clone());
        assert(ids@ =~= seq![song.id]);
        let none: Vec<String> = Vec::new();
        assert(none@ =~= Seq::<String>::empty());
        if song.is_starred() {
            (client.unstar(&ids, &none, &none), None)
        } else {
            (client.star(&ids, &none, &none), Some(String::from_str("yes")))
        }
    }
}

/// The call that toggles a star: unstar when starred, star otherwise.
pub open spec fn toggle_action(starred: bool) -> Seq<char> {
    if starred { "unstar"@ } else { "star"@ }
}

/// The error of a toggle call that names nothing.
pub open spec fn toggle_empty_msg(starred: bool) -> Seq<char> {
    if starred {
        "No song, album or artist specified to be unstarred"@
    } else {
        "No song, album or artist specified to be starred"@
    }
}

/// Whether `after` is the starred field once the toggle of a field `before` succeeded:
/// cleared when it was set, `yes` when it was clear.
pub open spec fn star_toggled(before: Option<String>, after: Option<String>) -> bool {
    match before {
        Some(_) => after is None,
        None => after matches Some(v) && v@ == "yes"@,
    }
}

/// The cache of albums.
pub struct AlbumCache {
    cache: StringHashMap<Rc<AlbumObject>>,
}

impl View for AlbumCache {
    type V = Map<Seq<char>, Rc<AlbumObject>>;

    closed spec fn view(&self) -> Map<Seq<char>, Rc<AlbumObject>> {
        self.cache@
    }
}

/// What the album cache `m` knows of the album `id`.
pub open spec fn album_lookup(m: Map<Seq<char>, Rc<AlbumObject>>, id: Seq<char>) -> AlbumLookup {
    if m.contains_key(id) {
        if m[id].songs is Some {
            AlbumLookup::Complete(m[id])
        } else {
            AlbumLookup::NeedsSongs
        }
    } else {
        AlbumLookup::Missing
    }
}

/// What the album cache knows of an album.
#[derive(Debug)]
pub enum AlbumLookup {
    /// The album and its songs are cached.
    Complete(Rc<AlbumObject>),
    /// The album is cached without its songs: they must be fetched.
    NeedsSongs,
    /// The album is not cached: it must be fetched.
    Missing,
}

impl AlbumCache {
    /// An empty cache.
    pub fn new() -> (c: AlbumCache)
        ensures
            c@ == Map::<Seq<char>, Rc<AlbumObject>>::empty(),
    {
        AlbumCache { cache: StringHashMap::new() }
    }

    /// Caches each album unless its id is cached already (albums of an album list or of
    /// search results), and returns for each the album that the cache holds for its id.
    pub fn add_albums(&mut self, albums: Vec<Album>) -> (r: Vec<Rc<AlbumObject>>)
        ensures
            exists|shared: Seq<Rc<AlbumObject>>| shared.len() == albums@.len()
                && (forall|i: int| 0 <= i < shared.len() ==>
                    *(#[trigger] shared[i]).album == albums@[i] && shared[i].songs is None)
                && final(self)@ == #[trigger] keep_all(old(self)@, shared),
            r@.len() == albums@.len(),
            forall|i: int| 0 <= i < albums@.len() ==> #[trigger] r@[i] == final(self)@[albums@[i].id@],
    {
        let objects = albums_to_objects(albums);
        let r = add_all(&mut self.cache, &objects);
        assert(forall|i: int| 0 <= i < objects@.len() ==> #[trigger] objects@[i].key() == albums@[i].id@);
        assert(objects@.len() == albums@.len()
            && (forall|i: int| 0 <= i < objects@.len() ==>
                *(#[trigger] objects@[i]).album == albums@[i] && objects@[i].songs is None)
            && self@ == keep_all(old(self)@, objects@));
        r
    }

    /// Takes the server's reply to an album list request: the albums are cached as by
    /// `add_albums` and the cached objects returned; an error is returned with the cache
    /// unchanged.
    pub fn album_list_from_reply(&mut self, reply: Result<Vec<Album>, ClientError>) -> (r: Result<
        Vec<Rc<AlbumObject>>,
        ClientError,
    >)
        ensures
            match reply {
                Ok(albums) => (r matches Ok(v) && v@.len() == albums@.len()
                    && (exists|shared: Seq<Rc<AlbumObject>>| shared.len() == albums@.len()
                        && (forall|i: int| 0 <= i < shared.len() ==>
                            *(#[trigger] shared[i]).album == albums@[i] && shared[i].songs is None)
                        && final(self)@ == #[trigger] keep_all(old(self)@, shared))
                    && forall|i: int| 0 <= i < albums@.len() ==> #[trigger] v@[i] == final(self)@[albums@[i].id@]),
                Err(e) => r == Err::<Vec<Rc<AlbumObject>>, ClientError>(e) && final(self)@ == old(self)@,
            },
    {
        match reply {
            Ok(albums) => Ok(self.add_albums(albums)),
            Err(e) => Err(e),
        }
    }

    /// What the cache knows of the album `id`.
    pub fn get_album(&self, id: &str) -> (r: AlbumLookup)
        ensures
            r == album_lookup(self@, id@),
    {
        match lookup(&self.cache, id) {
            Some(a) => {
                if a.has_songs() {
                    AlbumLookup::Complete(a)
                } else {
                    AlbumLookup::NeedsSongs
                }
            },
            None => AlbumLookup::Missing,
        }
    }

    /// Completes (or adds) the album `id` with songs fetched from the server: a cached
    /// album keeps its data and gets the songs, under `id`; otherwise the fetched album is
    /// cached with them under its own id. Returns what the cache then holds.
    pub fn store_album(&mut self, id: &str, fetched: Album, songs: Vec<Rc<Song>>) -> (r: Rc<AlbumObject>)
        ensures
            r.songs == Some(songs),
            old(self)@.contains_key(id@) ==> final(self)@ == old(self)@.insert(id@, r)
                && r.album == old(self)@[id@].album,
            !old(self)@.contains_key(id@) ==> final(self)@ == old(self)@.insert(fetched.id@, r)
                && *r.album == fetched,
    {
        match lookup(&self.cache, id) {
            Some(a) => {
                let object = Rc::new(AlbumObject { album: rc_share(&a.album), songs: Some(songs) });
                self.cache.insert(String::from_str(id), rc_share(&object));
                object
            },
            None => {
                let key = fetched.id.clone();
                let object = Rc::new(AlbumObject { album: Rc::new(fetched), songs: Some(songs) });
                self.cache.insert(key, rc_share(&object));
                object
            },
        }
    }

    /// The search request for albums only: `count` albums from `offset`.
    pub fn search(client: &OpenSubsonicClient, query: &str, count: u32, offset: Option<u32>) -> (r: ActionRequest)
        ensures
            request_view(r) == ("search3"@, album_search_params(query@, count, offset)),
    {
        client.search3(query, Some(0), None, Some(count), offset, Some(0), None, None)
    }

    /// Caches the albums of search results; fails when the results hold no album list.
    pub fn search_results(&mut self, results: Search3Results) -> (r: Result<Vec<Rc<AlbumObject>>, ClientError>)
        ensures
            results.album is None ==> final(self)@ == old(self)@
                && (r matches Err(ClientError::Message(m)) && m@ == "No albums found"@),
            results.album matches Some(list) ==> (r matches Ok(v) && v@.len() == list@.len()
                && (exists|shared: Seq<Rc<AlbumObject>>| shared.len() == list@.len()
                    && (forall|i: int| 0 <= i < shared.len() ==>
                        *(#[trigger] shared[i]).album == list@[i] && shared[i].songs is None)
                    && final(self)@ == #[trigger] keep_all(old(self)@, shared))
                && forall|i: int| 0 <= i < list@.len() ==> #[trigger] v@[i] == final(self)@[list@[i].id@]),
    {
        match results.album {
            Some(albums) => Ok(self.add_albums(albums)),
            None => Err(ClientError::Message(String::from_str("No albums found"))),
        }
    }
}

/// Wraps each album as a cache object without songs, keeping the order.
fn albums_to_objects(albums: Vec<Album>) -> (r: Vec<Rc<AlbumObject>>)
    ensures
        r@.len() == albums@.len(),
        forall|i: int| 0 <= i < albums@.len() ==> *(#[trigger] r@[i]).album == albums@[i] && r@[i].songs is None,
{
    let shared = share_all(albums);
    let mut r: Vec<Rc<AlbumObject>> = Vec::new();
    let n = shared.len();
    let mut i: usize = 0;
    while i < n
        invariant
            n == shared@.len(),
            n == albums@.len(),
            forall|j: int| 0 <= j < n ==> *#[trigger] shared@[j] == albums@[j],
            i <= n,
            r@.len() == i,
            forall|j: int| 0 <= j < i ==> *(#[trigger] r@[j]).album == albums@[j] && r@[j].songs is None,
        decreases n - i,
    {
        r.push(Rc::new(AlbumObject { album: rc_share(&shared[i]), songs: None }));
        i = i + 1;
    }
    r
}

/// The cache of artists.
pub struct ArtistCache {
    cache: StringHashMap<Rc<Artist>>,
}

impl View for ArtistCache {
    type V = Map<Seq<char>, Rc<Artist>>;

    closed spec fn view(&self) -> Map<Seq<char>, Rc<Artist>> {
        self.cache@
    }
}

/// What the artist cache knows of an artist.
#[derive(Debug)]
pub enum ArtistLookup {
    /// The artist and its albums are cached.
    Complete(Rc<Artist>),
    /// The artist is cached without its albums: it must be fetched again.
    NeedsAlbums,
    /// The artist is not cached: it must be fetched.
    Missing,
}

impl ArtistCache {
    /// An empty cache.
    pub fn new() -> (c: ArtistCache)
        ensures
            c@ == Map::<Seq<char>, Rc<Artist>>::empty(),
    {
        ArtistCache { cache: StringHashMap::new() }
    }

    /// What the cache knows of the artist `id`.
    pub fn get_artist(&self, id: &str) -> (r: ArtistLookup)
        ensures
            match r {
                ArtistLookup::Complete(a) => self@.contains_key(id@) && a == self@[id@] && a.albums is Some,
                ArtistLookup::NeedsAlbums => self@.contains_key(id@) && self@[id@].albums is None,
                ArtistLookup::Missing => !self@.contains_key(id@),
            },
    {
        match lookup(&self.cache, id) {
            Some(a) => {
                if a.albums.is_some() {
                    ArtistLookup::Complete(a)
                } else {
                    ArtistLookup::NeedsAlbums
                }
            },
            None => ArtistLookup::Missing,
        }
    }

    /// Caches an artist fetched from the server under the id by which it was asked for,
    /// replacing the cached one (which lacked its albums), and returns it.
    pub fn store_artist(&mut self, id: &str, artist: Artist) -> (r: Rc<Artist>)
        ensures
            final(self)@ == old(self)@.insert(id@, r),
            *r == artist,
    {
        let a = Rc::new(artist);
        self.cache.insert(String::from_str(id), rc_share(&a));
        a
    }

    /// Caches each artist unless its id is cached already, and returns for each the
    /// artist that the cache holds for its id.
    pub fn add_artist(&mut self, artists: Vec<Artist>) -> (r: Vec<Rc<Artist>>)
        ensures
            exists|shared: Seq<Rc<Artist>>| shared.len() == artists@.len()
                && (forall|i: int| 0 <= i < shared.len() ==> *#[trigger] shared[i] == artists@[i])
                && final(self)@ == #[trigger] keep_all(old(self)@, shared),
            r@.len() == artists@.len(),
            forall|i: int| 0 <= i < artists@.len() ==> #[trigger] r@[i] == final(self)@[artists@[i].id@],
    {
        let shared = share_all(artists);
        let r = add_all(&mut self.cache, &shared);
        assert(forall|i: int| 0 <= i < shared@.len() ==> #[trigger] shared@[i].key() == artists@[i].id@);
        assert(shared@.len() == artists@.len()
            && (forall|i: int| 0 <= i < shared@.len() ==> *#[trigger] shared@[i] == artists@[i])
            && self@ == keep_all(old(self)@, shared@));
        r
    }

    /// The search request for artists only: `count` artists from `offset`.
    pub fn search(client: &OpenSubsonicClient, query: &str, count: u32, offset: Option<u32>) -> (r: ActionRequest)
        ensures
            request_view(r) == ("search3"@, artist_search_params(query@, count, offset)),
    {
        client.search3(query, Some(count), offset, Some(0), None, Some(0), None, None)
    }

    /// Caches the artists of search results; fails when the results hold no artist list.
    pub fn search_results(&mut self, results: Search3Results) -> (r: Result<Vec<Rc<Artist>>, ClientError>)
        ensures
            results.artist is None ==> final(self)@ == old(self)@
                && (r matches Err(ClientError::Message(m)) && m@ == "No artists found"@),
            results.artist matches Some(list) ==> (r matches Ok(v) && v@.len() == list@.len()
                && (exists|shared: Seq<Rc<Artist>>| shared.len() == list@.len()
                    && (forall|i: int| 0 <= i < shared.len() ==> *#[trigger] shared[i] == list@[i])
                    && final(self)@ == #[trigger] keep_all(old(self)@, shared))
                && forall|i: int| 0 <= i < list@.len() ==> #[trigger] v@[i] == final(self)@[list@[i].id@]),
    {
        match results.artist {
            Some(artists) => Ok(self.add_artist(artists)),
            None => Err(ClientError::Message(String::from_str("No artists found"))),
        }
    }
}

/// The cache of lyrics, by song id.
pub struct LyricsCache {
    cache: StringHashMap<Rc<Vec<LyricsList>>>,
}

impl View for LyricsCache {
    type V = Map<Seq<char>, Rc<Vec<LyricsList>>>;

    closed spec fn view(&self) -> Map<Seq<char>, Rc<Vec<LyricsList>>> {
        self.cache@
    }
}

impl LyricsCache {
    /// An empty cache.
    pub fn new() -> (c: LyricsCache)
        ensures
            c@ == Map::<Seq<char>, Rc<Vec<LyricsList>>>::empty(),
    {
        LyricsCache { cache: StringHashMap::new() }
    }

    /// The cached lyrics of the song `id`, if any.
    pub fn get_lyrics(&self, id: &str) -> (r: Option<Rc<Vec<LyricsList>>>)
        ensures
            r == cache_lookup(self@, id@),
    {
        lookup(&self.cache, id)
    }

    /// Caches the lyrics fetched for the song `id` and returns them.
    pub fn store_lyrics(&mut self, id: &str, lyrics: Vec<LyricsList>) -> (r: Rc<Vec<LyricsList>>)
        ensures
            final(self)@ == old(self)@.insert(id@, r),
            *r == lyrics,
    {
        let l = Rc::new(lyrics);
        self.cache.insert(String::from_str(id), rc_share(&l));
        l
    }
}

/// Adding items whose ids are all cached leaves the cache as it is.
pub proof fn lemma_keep_all_present<T: Keyed>(m: Map<Seq<char>, Rc<T>>, xs: Seq<Rc<T>>)
    requires
        forall|i: int| 0 <= i < xs.len() ==> m.contains_key(#[trigger] xs[i].key()),
    ensures
        keep_all(m, xs) == m,
    decreases xs.len(),
{
    if xs.len() > 0 {
        assert forall|i: int| 0 <= i < xs.drop_last().len() implies m.contains_key(#[trigger] xs.drop_last()[i].key()) by {
            assert(xs.drop_last()[i] == xs[i]);
        }
        lemma_keep_all_present(m, xs.drop_last());
        assert(m.contains_key(xs[xs.len() - 1].key()));
    }
}

/// A song (or lyrics, artist) fetched and cached for `id` is what the next lookup of `id`
/// finds, without a request; lookups of other ids are unaffected.
pub proof fn law_fetched_is_found<T>(m: Map<Seq<char>, Rc<T>>, id: Seq<char>, x: Rc<T>, other: Seq<char>)
    ensures
        cache_lookup(m.insert(id, x), id) == Some(x),
        other != id ==> cache_lookup(m.insert(id, x), other) == cache_lookup(m, other),
{
}

/// An album stored with its songs is complete for the next lookup, which returns that
/// same object without a request.
pub proof fn law_stored_album_is_complete(m: Map<Seq<char>, Rc<AlbumObject>>, id: Seq<char>, a: Rc<AlbumObject>)
    requires
        a.songs is Some,
    ensures
        album_lookup(m.insert(id, a), id) == AlbumLookup::Complete(a),
{
}

/// Adding a list of items a second time (such as the same album list again) changes
/// nothing: every id is already cached, so the same objects are returned.
pub proof fn law_repeat_add_returns_same<T: Keyed>(m: Map<Seq<char>, Rc<T>>, xs: Seq<Rc<T>>, ys: Seq<Rc<T>>)
    requires
        ys.len() == xs.len(),
        forall|i: int| 0 <= i < xs.len() ==> #[trigger] ys[i].key() == xs[i].key(),
    ensures
        keep_all(keep_all(m, xs), ys) == keep_all(m, xs),
{
    lemma_keep_all(m, xs);
    assert forall|i: int| 0 <= i < ys.len() implies keep_all(m, xs).contains_key(#[trigger] ys[i].key()) by {
        assert(ys[i].key() == xs[i].key());
        assert(keep_all(m, xs).contains_key(xs[i].key()));
    }
    lemma_keep_all_present(keep_all(m, xs), ys);
}

/// In a cache that holds every item under its own id, adding items keeps it so, and the
/// item held for each added id has that id.
pub proof fn law_keyed_cache_results<T: Keyed>(m: Map<Seq<char>, Rc<T>>, xs: Seq<Rc<T>>)
    requires
        keyed(m),
    ensures
        keyed(keep_all(m, xs)),
        forall|i: int| 0 <= i < xs.len() ==> (#[trigger] keep_all(m, xs)[xs[i].key()]).key() == xs[i].key(),
    decreases xs.len(),
{
    lemma_keep_all(m, xs);
    if xs.len() > 0 {
        law_keyed_cache_results(m, xs.drop_last());
        let prev = keep_all(m, xs.drop_last());
        assert(keyed(keep_all(m, xs)));
    }
}

/// An album list taken into a cache that holds every album under its own id: each
/// returned object is the one cached under the listed album's id and has that id; the
/// albums cached before stay as they were; every listed id is cached afterwards, and
/// taking the same list again returns the same objects and changes nothing.
pub proof fn law_album_list_results(m: Map<Seq<char>, Rc<AlbumObject>>, xs: Seq<Rc<AlbumObject>>, ys: Seq<Rc<AlbumObject>>)
    requires
        keyed(m),
        ys.len() == xs.len(),
        forall|i: int| 0 <= i < xs.len() ==> #[trigger] ys[i].key() == xs[i].key(),
    ensures
        keyed(keep_all(m, xs)),
        forall|i: int| 0 <= i < xs.len() ==> keep_all(m, xs).contains_key(#[trigger] xs[i].key())
            && keep_all(m, xs)[xs[i].key()].key() == xs[i].key(),
        forall|k: Seq<char>| m.contains_key(k) ==> #[trigger] keep_all(m, xs).contains_key(k)
            && keep_all(m, xs)[k] == m[k],
        keep_all(keep_all(m, xs), ys) == keep_all(m, xs),
{
    lemma_keep_all(m, xs);
    law_keyed_cache_results(m, xs);
    law_repeat_add_returns_same(m, xs, ys);
}

/// Toggling a star twice restores whether the item is starred, and the two calls are a
/// star and an unstar.
pub proof fn law_toggle_twice_restores(a: Option<String>, b: Option<String>, c: Option<String>)
    requires
        star_toggled(a, b),
        star_toggled(b, c),
    ensures
        c is Some <==> a is Some,
        toggle_action(a is Some) != toggle_action(b is Some),
{
    reveal_strlit("unstar");
    reveal_strlit("star");
    assert("unstar"@[0] != "star"@[0]);
}

/// Adding songs to the cache never changes a cached song, and afterwards every added
/// id is cached.
pub proof fn law_cache_keeps_entries<T: Keyed>(m: Map<Seq<char>, Rc<T>>, xs: Seq<Rc<T>>, k: Seq<char>)
    ensures
        m.contains_key(k) ==> keep_all(m, xs).contains_key(k) && keep_all(m, xs)[k] == m[k],
        forall|i: int| 0 <= i < xs.len() ==> keep_all(m, xs).contains_key(#[trigger] xs[i].key()),
{
    lemma_keep_all(m, xs);
    if m.contains_key(k) {
        assert(keep_all(m, xs).contains_key(k) && keep_all(m, xs)[k] == m[k]);
    }
}

/// Caching an item whose id is already cached gives back the cached item and leaves
/// the cache as it was: the first item cached under an id is the one shared.
pub proof fn law_cache_returns_first<T: Keyed>(m: Map<Seq<char>, Rc<T>>, a: Rc<T>, b: Rc<T>)
    requires
        a.key() == b.key(),
    ensures
        keep_first(keep_first(m, a), b) == keep_first(m, a),
        keep_first(keep_first(m, a), b)[b.key()] == (if m.contains_key(a.key()) { m[a.key()] } else { a }),
{
}

} // verus!
