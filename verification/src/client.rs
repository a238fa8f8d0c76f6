//! The OpenSubsonic client's logic: its configuration, the authentication
//! parameters, the request that each API call makes, the checks on replies and
//! the places where covers are cached.
use vstd::prelude::*;
use crate::bindings::{format_url, formatted_url, is_ascii_alphanumeric, md5_digest, md5_hex, pair_views, random_salt};
use crate::text::{decimal, decimal_string, has_prefix, hex_bytes, str_eq};
use crate::types::{
    album_list_type_name, extension_named, AlbumListType, InvalidResponseError, LyricsLine, LyricsLines, LyricsList,
    SubsonicError, SupportedExtensions,
};

verus! {

broadcast use vstd::seq_lib::group_seq_properties;

/// How the client authenticates.
#[derive(Debug, Clone)]
pub enum Credentials {
    UsernamePassword { username: String, password: String },
    ApiKey { key: String },
}

/// The errors of the client.
#[derive(Debug, Clone)]
pub enum ClientError {
    /// The server reported an error.
    Subsonic(SubsonicError),
    /// The reply could not be understood.
    InvalidResponse(InvalidResponseError),
    /// Any other failure, with its message.
    Message(String),
}

/// An API call to make: the action's name and its parameters (besides authentication).
#[derive(Debug, Clone)]
pub struct ActionRequest {
    pub action: String,
    pub params: Vec<(String, String)>,
}

/// The abstract state of a client.
pub struct ClientView {
    pub host: Seq<char>,
    pub credentials: Credentials,
    pub client_name: Seq<char>,
    pub version: Seq<char>,
    pub cover_cache: Option<Seq<char>>,
    pub extensions: Set<SupportedExtensions>,
}

/// A client of an OpenSubsonic server.
#[derive(Debug)]
pub struct OpenSubsonicClient {
    host: String,
    credentials: Credentials,
    client_name: String,
    version: String,
    cover_cache: Option<String>,
    extensions: Vec<SupportedExtensions>,
}

impl View for OpenSubsonicClient {
    type V = ClientView;

    closed spec fn view(&self) -> ClientView {
        ClientView {
            host: self.host@,
            credentials: self.credentials,
            client_name: self.client_name@,
            version: self.version@,
            cover_cache: match self.cover_cache {
                Some(c) => Some(c@),
                None => None,
            },
            extensions: self.extensions@.to_set(),
        }
    }
}

/// The API version that this client speaks.
pub open spec fn api_version() -> Seq<char> {
    "1.15"@
}

/// The path template of every API call.
pub open spec fn rest_path_template() -> Seq<char> {
    "/rest/:action"@
}

/// The substitution that puts the action's name into the path.
pub open spec fn action_substitutes(action: Seq<char>) -> Seq<(Seq<char>, Seq<char>)> {
    seq![("action"@, action)]
}

/// `true` or `false` as text.
pub open spec fn bool_text(b: bool) -> Seq<char> {
    if b { "true"@ } else { "false"@ }
}

/// A parameter list with one more parameter when the value is given.
pub open spec fn push_opt(params: Seq<(Seq<char>, Seq<char>)>, key: Seq<char>, value: Option<Seq<char>>) -> Seq<(Seq<char>, Seq<char>)> {
    match value {
        Some(v) => params.push((key, v)),
        None => params,
    }
}

/// The view of an optional string.
pub open spec fn opt_view(s: Option<String>) -> Option<Seq<char>> {
    match s {
        Some(v) => Some(v@),
        None => None,
    }
}

/// The view of an optional string slice.
pub open spec fn opt_str_view(s: Option<&str>) -> Option<Seq<char>> {
    match s {
        Some(v) => Some(v@),
        None => None,
    }
}

/// The number, or `d` when none is given.
pub open spec fn or_default(o: Option<u32>, d: u32) -> u32 {
    match o {
        Some(v) => v,
        None => d,
    }
}

/// The flag, or `d` when none is given.
pub open spec fn flag_or(o: Option<bool>, d: bool) -> bool {
    match o {
        Some(v) => v,
        None => d,
    }
}

/// The decimal text of the number, where one is given.
pub open spec fn opt_decimal(o: Option<u32>) -> Option<Seq<char>> {
    match o {
        Some(v) => Some(decimal(v as nat)),
        None => None,
    }
}

/// The parameters of a search: the query, then the count and offset of artists, albums
/// and songs (20 and 0 unless given), then the music folder if given.
pub open spec fn search3_params(
    query: Seq<char>,
    artist_count: Option<u32>,
    artist_offset: Option<u32>,
    album_count: Option<u32>,
    album_offset: Option<u32>,
    song_count: Option<u32>,
    song_offset: Option<u32>,
    music_folder_id: Option<Seq<char>>,
) -> Seq<(Seq<char>, Seq<char>)> {
    push_opt(seq![
        ("query"@, query),
        ("artistCount"@, decimal(or_default(artist_count, 20) as nat)),
        ("artistOffset"@, decimal(or_default(artist_offset, 0) as nat)),
        ("albumCount"@, decimal(or_default(album_count, 20) as nat)),
        ("albumOffset"@, decimal(or_default(album_offset, 0) as nat)),
        ("songCount"@, decimal(or_default(song_count, 20) as nat)),
        ("songOffset"@, decimal(or_default(song_offset, 0) as nat)),
    ], "musicFolderId"@, music_folder_id)
}

/// Each parameter of a search request carries its own argument: the query first, then
/// the count and offset of artists, of albums and of songs, each the decimal text of
/// the given value (20 for a missing count, 0 for a missing offset), then the music
/// folder when one is given, and nothing else.
pub proof fn law_search3_params(
    query: Seq<char>,
    artist_count: Option<u32>,
    artist_offset: Option<u32>,
    album_count: Option<u32>,
    album_offset: Option<u32>,
    song_count: Option<u32>,
    song_offset: Option<u32>,
    music_folder_id: Option<Seq<char>>,
)
    ensures
        ({
            let p = search3_params(
                query, artist_count, artist_offset, album_count, album_offset, song_count, song_offset, music_folder_id,
            );
            &&& p.len() == if music_folder_id is Some { 8int } else { 7int }
            &&& p[0] == ("query"@, query)
            &&& p[1] == ("artistCount"@, decimal(match artist_count { Some(x) => x as nat, None => 20 }))
            &&& p[2] == ("artistOffset"@, decimal(match artist_offset { Some(x) => x as nat, None => 0 }))
            &&& p[3] == ("albumCount"@, decimal(match album_count { Some(x) => x as nat, None => 20 }))
            &&& p[4] == ("albumOffset"@, decimal(match album_offset { Some(x) => x as nat, None => 0 }))
            &&& p[5] == ("songCount"@, decimal(match song_count { Some(x) => x as nat, None => 20 }))
            &&& p[6] == ("songOffset"@, decimal(match song_offset { Some(x) => x as nat, None => 0 }))
            &&& music_folder_id matches Some(f) ==> p[7] == ("musicFolderId"@, f)
        }),
{
}

/// The view of a request: its action's name and its parameters.
pub open spec fn request_view(r: ActionRequest) -> (Seq<char>, Seq<(Seq<char>, Seq<char>)>) {
    (r.action@, pair_views(r.params@))
}

/// The message of the error when a server lacks API-key authentication.
pub open spec fn api_key_unsupported_msg() -> Seq<char> {
    "API Key authentication not supported by server"@
}

/// The message of the error for a reply that is not of the OpenSubsonic kind.
pub open spec fn not_open_subsonic_msg() -> Seq<char> {
    "Response not of OpenSubsonic type (probably using an incompatible server)"@
}

/// A salt as the client sends it: 16 ASCII letters and digits.
pub open spec fn valid_salt(salt: Seq<char>) -> bool {
    salt.len() == 16 && forall|i: int| 0 <= i < 16 ==> is_ascii_alphanumeric(#[trigger] salt[i])
}

/// The authentication parameters that the client may send: its name, the API version
/// and the JSON format, then either the user name, a salt and the MD5 token of the
/// password followed by the salt (32 lowercase hexadecimal digits), or the API key.
pub open spec fn valid_auth_params(c: ClientView, auth: Seq<(Seq<char>, Seq<char>)>) -> bool {
    let base = seq![("c"@, c.client_name), ("v"@, c.version), ("f"@, "json"@)];
    match c.credentials {
        Credentials::UsernamePassword { username, password } => exists|salt: Seq<char>|
            #[trigger] valid_salt(salt) && hex_bytes(md5_digest(password@ + salt)).len() == 32 && auth == base + seq![
                ("u"@, username@),
                ("s"@, salt),
                ("t"@, hex_bytes(md5_digest(password@ + salt))),
            ],
        Credentials::ApiKey { key } => auth == base.push(("apiKey"@, key@)),
    }
}

/// The extensions that this client uses among those named in `names`.
pub open spec fn named_extensions(names: Seq<String>) -> Set<SupportedExtensions> {
    Set::new(|e: SupportedExtensions| exists|i: int| 0 <= i < names.len() && #[trigger] extension_named(names[i]@) == Some(e))
}

/// `p` joined after `base` as a file-system path: an absolute `p` stands alone,
/// otherwise a `/` separates the two unless `base` is empty or ends with one.
pub open spec fn path_join(base: Seq<char>, p: Seq<char>) -> Seq<char> {
    if p.len() > 0 && p[0] == '/' {
        p
    } else if base.len() == 0 || base.last() == '/' {
        base + p
    } else {
        base + "/"@ + p
    }
}

/// The default cover cache directory: `sanicrs` under `XDG_CACHE_HOME`, else
/// `.cache/sanicrs` under `HOME`, else none.
pub open spec fn default_cache_dir(xdg_cache_home: Option<Seq<char>>, home: Option<Seq<char>>) -> Option<Seq<char>> {
    match xdg_cache_home {
        Some(p) => Some(path_join(p, "sanicrs"@)),
        None => match home {
            Some(h) => Some(path_join(h, ".cache/sanicrs"@)),
            None => None,
        },
    }
}

/// What a reply to a cover request turned out to be.
#[derive(Debug, PartialEq, Eq, Structural, Clone, Copy)]
pub enum CoverReplyKind {
    /// The status was not a success.
    FailedStatus,
    /// The reply had no `Content-Type`.
    NoContentType,
    /// An error document in XML.
    XmlError,
    /// An error document in JSON.
    JsonError,
    /// The image itself.
    Image,
}

/// The kind of a cover reply, from whether its status is a success and its `Content-Type`.
pub open spec fn cover_reply_kind(success: bool, content_type: Option<Seq<char>>) -> CoverReplyKind {
    if !success {
        CoverReplyKind::FailedStatus
    } else {
        match content_type {
            None => CoverReplyKind::NoContentType,
            Some(t) => if t == "text/xml"@ {
                CoverReplyKind::XmlError
            } else if t == "application/json"@ {
                CoverReplyKind::JsonError
            } else {
                CoverReplyKind::Image
            },
        }
    }
}

/// A parameter.
fn param(key: &str, value: &str) -> (p: (String, String))
    ensures
        p.0@ == key@,
        p.1@ == value@,
{
    (String::from_str(key), String::from_str(value))
}

/// A parameter whose value is the decimal text of `n`.
fn param_decimal(key: &str, n: u32) -> (p: (String, String))
    ensures
        p.0@ == key@,
        p.1@ == decimal(n as nat),
{
    (String::from_str(key), decimal_string(n as u64))
}

/// The number, or `d` when none is given.
fn value_or(o: Option<u32>, d: u32) -> (r: u32)
    ensures
        r == or_default(o, d),
{
    match o {
        Some(v) => v,
        None => d,
    }
}

/// The flag, or `d` when none is given.
fn flag_value_or(o: Option<bool>, d: bool) -> (r: bool)
    ensures
        r == flag_or(o, d),
{
    match o {
        Some(v) => v,
        None => d,
    }
}

/// `true` or `false` as text.
fn bool_string(b: bool) -> (s: String)
    ensures
        s@ == bool_text(b),
{
    if b {
        String::from_str("true")
    } else {
        String::from_str("false")
    }
}

/// An owned copy of an optional string slice.
fn opt_string(o: Option<&str>) -> (r: Option<String>)
    ensures
        opt_view(r) == opt_str_view(o),
{
    match o {
        Some(v) => Some(String::from_str(v)),
        None => None,
    }
}

/// The decimal text of the number, where one is given.
fn opt_decimal_string(o: Option<u32>) -> (r: Option<String>)
    ensures
        opt_view(r) == opt_decimal(o),
{
    match o {
        Some(v) => Some(decimal_string(v as u64)),
        None => None,
    }
}

/// Appends `(key, value)` when a value is given.
fn push_opt_param(params: &mut Vec<(String, String)>, key: &str, value: Option<String>)
    ensures
        pair_views(final(params)@) == push_opt(pair_views(old(params)@), key@, opt_view(value)),
{
    match value {
        Some(v) => {
            let ghost before = pair_views(params@);
            params.push((String::from_str(key), v));
            assert(pair_views(params@) =~= before.push((key@, v@)));
        },
        None => {},
    }
}

/// A request for `action` with these parameters.
fn request(action: &str, params: Vec<(String, String)>) -> (r: ActionRequest)
    ensures
        r.action@ == action@,
        r.params@ == params@,
{
    ActionRequest { action: String::from_str(action), params }
}

/// A request for `action` with the single parameter `id`.
fn id_request(action: &str, id: &str) -> (r: ActionRequest)
    ensures
        request_view(r) == (action@, seq![("id"@, id@)]),
{
    let mut params: Vec<(String, String)> = Vec::new();
    params.push(param("id", id));
    let r = request(action, params);
    assert(pair_views(r.params@) =~= seq![("id"@, id@)]);
    r
}

/// Whether `e` occurs in `v`.
fn contains_extension(v: &Vec<SupportedExtensions>, e: SupportedExtensions) -> (r: bool)
    ensures
        r == v@.contains(e),
{
    let mut i: usize = 0;
    while i < v.len()
        invariant
            i <= v@.len(),
            forall|j: int| 0 <= j < i ==> v@[j] != e,
        decreases v@.len() - i,
    {
        if v[i] == e {
            assert(v@[i as int] == e);
            return true;
        }
        i = i + 1;
    }
    false
}

/// Checks the status fields of a reply: a status other than `ok` or a reported error
/// fails with that error (or "Unknown error"), a reply that is not of the OpenSubsonic
/// kind fails as invalid, anything else passes.
pub fn check_response(status: &str, error: Option<SubsonicError>, open_subsonic: bool) -> (r: Result<(), ClientError>)
    ensures
        (status@ != "ok"@ || error is Some) ==> match error {
            Some(e) => (r matches Err(ClientError::Subsonic(e2)) && e2 == e),
            None => (r matches Err(ClientError::Message(m)) && m@ == "Unknown error"@),
        },
        (status@ == "ok"@ && error is None && !open_subsonic) ==>
            (r matches Err(ClientError::InvalidResponse(e)) && e.msg@ == not_open_subsonic_msg()),
        (status@ == "ok"@ && error is None && open_subsonic) ==> r is Ok,
{
    if !str_eq(status, "ok") || error.is_some() {
        match error {
            Some(e) => Err(ClientError::Subsonic(e)),
            None => Err(ClientError::Message(String::from_str("Unknown error"))),
        }
    } else if !open_subsonic {
        Err(ClientError::InvalidResponse(
            InvalidResponseError::new("Response not of OpenSubsonic type (probably using an incompatible server)"),
        ))
    } else {
        Ok(())
    }
}

/// One element of the `structuredLyrics` array of a lyrics reply, as far as its JSON
/// fields could be read.
#[derive(Debug)]
pub struct LyricsDocumentReply {
    /// The `synced` field, where it is a boolean.
    pub synced: Option<bool>,
    /// The `line` field read as timed lines, where it can be.
    pub timed_lines: Option<Vec<LyricsLine>>,
    /// The `value` text of each element of the `line` field, where it is an array whose
    /// elements all have one.
    pub line_texts: Option<Vec<String>>,
    /// The other fields read as the document's header (without lines), where they can be.
    pub header: Option<LyricsList>,
}

/// What the `lyricsList` object of a successful lyrics reply holds.
#[derive(Debug)]
pub enum LyricsListReply {
    /// `lyricsList` is not an object.
    NotObject,
    /// `lyricsList` has no `structuredLyrics` field.
    NoStructuredLyrics,
    /// `structuredLyrics` is not an array.
    NotArray,
    /// The documents of `structuredLyrics`, in order, each as `lyrics_document` made it.
    Documents(Vec<Option<LyricsList>>),
}

/// The lyrics document that a `structuredLyrics` element gives: a document counts as
/// synchronised when its `synced` field says so (not when it is missing); its lines are
/// then the timed lines, otherwise the line texts. None when the lines or the header
/// cannot be read.
pub open spec fn document_of(d: LyricsDocumentReply) -> Option<LyricsList> {
    let synced = match d.synced {
        Some(b) => b,
        None => false,
    };
    let lines = if synced {
        match d.timed_lines {
            Some(l) => Some(LyricsLines::Synced(l)),
            None => None,
        }
    } else {
        match d.line_texts {
            Some(t) => Some(LyricsLines::NotSynced(t)),
            None => None,
        }
    };
    match lines {
        Some(l) => match d.header {
            Some(h) => Some(LyricsList {
                display_artist: h.display_artist,
                display_title: h.display_title,
                lang: h.lang,
                offset: h.offset,
                synced: l is Synced,
                lines: l,
            }),
            None => None,
        },
        None => None,
    }
}

/// The documents that could be read, in order.
pub open spec fn read_documents(d: Seq<Option<LyricsList>>) -> Seq<LyricsList>
    decreases d.len(),
{
    if d.len() == 0 {
        Seq::empty()
    } else {
        let rest = read_documents(d.drop_first());
        match d[0] {
            Some(x) => seq![x] + rest,
            None => rest,
        }
    }
}

/// The message of the error for a `lyricsList` that is not an object.
pub open spec fn lyrics_not_object_msg() -> Seq<char> {
    "'lyricsList' wasn't object"@
}

/// The message of the error for a `structuredLyrics` that is not an array.
pub open spec fn lyrics_not_array_msg() -> Seq<char> {
    "'structuredLyrics' wasn't an array"@
}

/// The message of the error for a failed reply that carries no readable error.
pub open spec fn no_error_msg() -> Seq<char> {
    "Unknown error"@
}

/// The lyrics document of one `structuredLyrics` element, or none when it cannot be read.
pub fn lyrics_document(d: LyricsDocumentReply) -> (r: Option<LyricsList>)
    ensures
        r == document_of(d),
{
    let synced = match d.synced {
        Some(b) => b,
        None => false,
    };
    let lines = if synced {
        match d.timed_lines {
            Some(l) => Some(LyricsLines::Synced(l)),
            None => None,
        }
    } else {
        match d.line_texts {
            Some(t) => Some(LyricsLines::NotSynced(t)),
            None => None,
        }
    };
    match lines {
        Some(l) => match d.header {
            Some(h) => {
                let mut list = h;
                list.set_lines(l);
                Some(list)
            },
            None => None,
        },
        None => None,
    }
}

/// The lyrics of a reply to a lyrics request: a failed status gives the reported error
/// (or "Unknown error" when none can be read); a `lyricsList` that is not an object, or
/// whose `structuredLyrics` is not an array, is invalid; without `structuredLyrics` there
/// are no lyrics; otherwise the documents that could be read, in order.
pub fn lyrics_from_reply(status_ok: bool, error: Option<SubsonicError>, list: LyricsListReply) -> (r: Result<
    Vec<LyricsList>,
    ClientError,
>)
    ensures
        !status_ok ==> match error {
            Some(e) => (r matches Err(ClientError::Subsonic(e2)) && e2 == e),
            None => (r matches Err(ClientError::Message(m)) && m@ == no_error_msg()),
        },
        status_ok ==> match list {
            LyricsListReply::NotObject => (r matches Err(ClientError::InvalidResponse(e))
                && e.msg@ == lyrics_not_object_msg()),
            LyricsListReply::NotArray => (r matches Err(ClientError::InvalidResponse(e))
                && e.msg@ == lyrics_not_array_msg()),
            LyricsListReply::NoStructuredLyrics => (r matches Ok(v) && v@.len() == 0),
            LyricsListReply::Documents(d) => (r matches Ok(v) && v@ == read_documents(d@)),
        },
{
    if !status_ok {
        return match error {
            Some(e) => Err(ClientError::Subsonic(e)),
            None => Err(ClientError::Message(String::from_str("Unknown error"))),
        };
    }
    match list {
        LyricsListReply::NotObject => Err(ClientError::InvalidResponse(InvalidResponseError::new("'lyricsList' wasn't object"))),
        LyricsListReply::NotArray => Err(ClientError::InvalidResponse(
            InvalidResponseError::new("'structuredLyrics' wasn't an array"),
        )),
        LyricsListReply::NoStructuredLyrics => Ok(Vec::new()),
        LyricsListReply::Documents(d) => {
            let ghost all = d@;
            let mut rest = d;
            let mut v: Vec<LyricsList> = Vec::new();
            while rest.len() > 0
                invariant
                    read_documents(all) == v@ + read_documents(rest@),
                decreases rest@.len(),
            {
                let ghost before = rest@;
                let x = rest.remove(0);
                assert(rest@ =~= before.drop_first());
                match x {
                    Some(l) => {
                        v.push(l);
                    },
                    None => {},
                }
                assert(read_documents(all) =~= v@ + read_documents(rest@));
            }
            Ok(v)
        },
    }
}

/// `p` joined after `base` as a file-system path.
pub fn join_path(base: &str, p: &str) -> (r: String)
    ensures
        r@ == path_join(base@, p@),
{
    let lp = p.unicode_len();
    if lp > 0 && p.get_char(0) == '/' {
        return String::from_str(p);
    }
    let lb = base.unicode_len();
    let mut r = String::from_str(base);
    if lb == 0 || base.get_char(lb - 1) == '/' {
        r.append(p);
    } else {
        proof {
            reveal_strlit("/");
        }
        r.append("/");
        r.append(p);
    }
    r
}

/// The default directory for cached covers, from the values of `XDG_CACHE_HOME`
/// and `HOME` (each none when unset).
pub fn get_default_cache_dir(xdg_cache_home: Option<&str>, home: Option<&str>) -> (r: Option<String>)
    ensures
        opt_view(r) == default_cache_dir(opt_str_view(xdg_cache_home), opt_str_view(home)),
{
    match xdg_cache_home {
        Some(p) => Some(join_path(p, "sanicrs")),
        None => match home {
            Some(h) => Some(join_path(h, ".cache/sanicrs")),
            None => None,
        },
    }
}

/// The kind of a cover reply, from whether its status is a success and its `Content-Type`.
pub fn cover_reply(success: bool, content_type: Option<&str>) -> (k: CoverReplyKind)
    ensures
        k == cover_reply_kind(success, opt_str_view(content_type)),
{
    if !success {
        CoverReplyKind::FailedStatus
    } else {
        match content_type {
            None => CoverReplyKind::NoContentType,
            Some(t) => {
                if str_eq(t, "text/xml") {
                    CoverReplyKind::XmlError
                } else if str_eq(t, "application/json") {
                    CoverReplyKind::JsonError
                } else {
                    CoverReplyKind::Image
                }
            },
        }
    }
}

/// The error that a JSON document sent in place of a cover stands for: with a failed
/// status, the reported error (or "Unknown error" when none can be read); otherwise the
/// document itself is the message of an invalid response.
pub fn cover_json_error(status_ok: bool, error: Option<SubsonicError>, body: &str) -> (e: ClientError)
    ensures
        !status_ok ==> match error {
            Some(x) => e == ClientError::Subsonic(x),
            None => (e matches ClientError::Message(m) && m@ == no_error_msg()),
        },
        status_ok ==> (e matches ClientError::InvalidResponse(i) && i.msg@ == body@),
{
    if !status_ok {
        match error {
            Some(x) => ClientError::Subsonic(x),
            None => ClientError::Message(String::from_str("Unknown error")),
        }
    } else {
        ClientError::InvalidResponse(InvalidResponseError::new(body))
    }
}

/// The `file://` URL of a cached cover at `path`.
pub fn cover_file_url(path: &str) -> (r: String)
    ensures
        r@ == "file://"@ + path@,
{
    let mut r = String::from_str("file://");
    r.append(path);
    r
}

impl OpenSubsonicClient {
    /// A client for the server at `host`, with the given credentials, client name and
    /// cover cache directory (already checked to be usable). It speaks API version 1.15
    /// and knows of no server extension yet.
    pub fn new(host: &str, credentials: Credentials, client_name: &str, cover_cache: Option<String>) -> (c: Self)
        ensures
            c@.host == host@,
            c@.credentials == credentials,
            c@.client_name == client_name@,
            c@.version == api_version(),
            c@.cover_cache == opt_view(cover_cache),
            c@.extensions == Set::<SupportedExtensions>::empty(),
    {
        let c = OpenSubsonicClient {
            host: String::from_str(host),
            credentials,
            client_name: String::from_str(client_name),
            version: String::from_str("1.15"),
            cover_cache,
            extensions: Vec::new(),
        };
        assert(c.extensions@.to_set() =~= Set::<SupportedExtensions>::empty());
        c
    }

    /// Records the extensions that the server announced (by name) and that this client
    /// uses; fails when the client authenticates by API key and the server does not
    /// offer API-key authentication.
    pub fn init(&mut self, extension_names: &Vec<String>) -> (r: Result<(), ClientError>)
        ensures
            final(self)@.host == old(self)@.host,
            final(self)@.credentials == old(self)@.credentials,
            final(self)@.client_name == old(self)@.client_name,
            final(self)@.version == old(self)@.version,
            final(self)@.cover_cache == old(self)@.cover_cache,
            final(self)@.extensions == old(self)@.extensions.union(named_extensions(extension_names@)),
            r is Ok <==> !(old(self)@.credentials is ApiKey
                && !final(self)@.extensions.contains(SupportedExtensions::ApiKeyAuthentication)),
            r matches Err(e) ==> (e matches ClientError::Message(m) && m@ == api_key_unsupported_msg()),
    {
        let n = extension_names.len();
        let mut i: usize = 0;
        while i < n
            invariant
                n == extension_names@.len(),
                i <= n,
                self.host == old(self).host,
                self.credentials == old(self).credentials,
                self.client_name == old(self).client_name,
                self.version == old(self).version,
                self.cover_cache == old(self).cover_cache,
                self.extensions@.to_set() == old(self).extensions@.to_set().union(
                    named_extensions(extension_names@.take(i as int)),
                ),
            decreases n - i,
        {
            let ghost before = self.extensions@.to_set();
            match SupportedExtensions::try_from(&extension_names[i]) {
                Ok(e) => {
                    if !contains_extension(&self.extensions, e) {
                        self.extensions.push(e);
                    }
                    assert(self.extensions@.to_set() =~= before.insert(e));
                },
                Err(_) => {
                    assert(self.extensions@.to_set() =~= before);
                },
            }
            proof {
                let names = extension_names@;
                assert(names.take(i + 1).take(i as int) =~= names.take(i as int));
                assert(names.take(i + 1)[i as int] == names[i as int]);
                assert forall|e: SupportedExtensions| named_extensions(names.take(i + 1)).contains(e) <==>
                    (named_extensions(names.take(i as int)).contains(e) || extension_named(names[i as int]@) == Some(e)) by {
                    if named_extensions(names.take(i + 1)).contains(e) {
                        let j = choose|j: int| 0 <= j < i + 1 && #[trigger] extension_named(names.take(i + 1)[j]@) == Some(e);
                        if j < i {
                            assert(names.take(i as int)[j] == names.take(i + 1)[j]);
                        }
                    }
                    if named_extensions(names.take(i as int)).contains(e) {
                        let j = choose|j: int| 0 <= j < i && #[trigger] extension_named(names.take(i as int)[j]@) == Some(e);
                        assert(names.take(i + 1)[j] == names.take(i as int)[j]);
                    }
                }
                assert(self.extensions@.to_set() =~= old(self).extensions@.to_set().union(
                    named_extensions(names.take(i + 1)),
                ));
            }
            i = i + 1;
        }
        assert(extension_names@.take(n as int) =~= extension_names@);
        if let Credentials::ApiKey { .. } = &self.credentials {
            if !contains_extension(&self.extensions, SupportedExtensions::ApiKeyAuthentication) {
                return Err(ClientError::Message(String::from_str("API Key authentication not supported by server")));
            }
        }
        Ok(())
    }

    /// Whether the server offers `extension` (as far as `init` recorded).
    pub fn has_extension(&self, extension: SupportedExtensions) -> (r: bool)
        ensures
            r == self@.extensions.contains(extension),
    {
        contains_extension(&self.extensions, extension)
    }

    /// Whether requests go as form posts (the server offers that extension).
    pub fn uses_form_post(&self) -> (r: bool)
        ensures
            r == self@.extensions.contains(SupportedExtensions::FormPost),
    {
        contains_extension(&self.extensions, SupportedExtensions::FormPost)
    }

    /// The directory of cached covers, if covers are cached.
    pub fn cover_cache(&self) -> (r: Option<String>)
        ensures
            opt_view(r) == self@.cover_cache,
    {
        match &self.cover_cache {
            Some(c) => Some(c.clone()),
            None => None,
        }
    }

    /// The file in which the cover `id` is cached, if covers are cached.
    pub fn cover_cache_file(&self, id: &str) -> (r: Option<String>)
        ensures
            opt_view(r) == match self@.cover_cache {
                Some(c) => Some(path_join(c, id@)),
                None => None,
            },
    {
        match &self.cover_cache {
            Some(c) => Some(join_path(c.as_str(), id)),
            None => None,
        }
    }

    /// The authentication parameters of one request: the client's name, the API version
    /// and the JSON format, then the user name, a fresh random salt and the MD5 token of
    /// the password followed by the salt, or the API key.
    pub fn get_auth_params(&self) -> (r: Vec<(String, String)>)
        ensures
            valid_auth_params(self@, pair_views(r@)),
    {
        let mut params: Vec<(String, String)> = Vec::new();
        params.push(param("c", self.client_name.as_str()));
        params.push(param("v", self.version.as_str()));
        params.push(param("f", "json"));
        let ghost base = seq![("c"@, self@.client_name), ("v"@, self@.version), ("f"@, "json"@)];
        assert(pair_views(params@) =~= base);
        match &self.credentials {
            Credentials::UsernamePassword { username, password } => {
                let salt = random_salt();
                let mut token = password.clone();
                token.append(salt.as_str());
                let hash = md5_hex(token.as_str());
                let ghost s = salt@;
                params.push(param("u", username.as_str()));
                params.push(param("s", salt.as_str()));
                params.push(param("t", hash.as_str()));
                assert(valid_salt(s));
                assert(pair_views(params@) =~= base + seq![
                    ("u"@, username@),
                    ("s"@, s),
                    ("t"@, hex_bytes(md5_digest(password@ + s))),
                ]);
            },
            Credentials::ApiKey { key } => {
                params.push(param("apiKey", key.as_str()));
                assert(pair_views(params@) =~= base.push(("apiKey"@, key@)));
            },
        }
        params
    }

    /// The parameters of a request: fresh authentication parameters, then `extra_params`.
    pub fn request_params(&self, extra_params: &Vec<(String, String)>) -> (r: Vec<(String, String)>)
        ensures
            exists|auth: Seq<(Seq<char>, Seq<char>)>| #[trigger] valid_auth_params(self@, auth)
                && pair_views(r@) == auth + pair_views(extra_params@),
    {
        let mut params = self.get_auth_params();
        let ghost auth = pair_views(params@);
        let n = extra_params.len();
        let mut i: usize = 0;
        while i < n
            invariant
                n == extra_params@.len(),
                i <= n,
                pair_views(params@) == auth + pair_views(extra_params@.take(i as int)),
            decreases n - i,
        {
            let ghost prev = pair_views(params@);
            let (k, v) = &extra_params[i];
            params.push((k.clone(), v.clone()));
            assert(pair_views(params@) =~= prev.push((extra_params@[i as int].0@, extra_params@[i as int].1@)));
            assert(pair_views(extra_params@.take(i + 1)) =~= pair_views(extra_params@.take(i as int)).push(
                (extra_params@[i as int].0@, extra_params@[i as int].1@),
            ));
            i = i + 1;
        }
        assert(extra_params@.take(n as int) =~= extra_params@);
        assert(valid_auth_params(self@, auth) && pair_views(params@) == auth + pair_views(extra_params@));
        params
    }

    /// The URL of `action` without query parameters (the target of form posts).
    pub fn action_url(&self, action: &str) -> (r: String)
        ensures
            r@ == formatted_url(self@.host, rest_path_template(), action_substitutes(action@), None),
    {
        let mut subs: Vec<(String, String)> = Vec::new();
        subs.push(param("action", action));
        assert(pair_views(subs@) =~= action_substitutes(action@));
        format_url(self.host.as_str(), "/rest/:action", &subs, None)
    }

    /// The GET URL of `action`: the authentication parameters and `extra_params` in the query.
    pub fn get_action_request_get_url(&self, action: &str, extra_params: &Vec<(String, String)>) -> (r: String)
        ensures
            exists|auth: Seq<(Seq<char>, Seq<char>)>| valid_auth_params(self@, auth)
                && r@ == #[trigger] formatted_url(
                    self@.host,
                    rest_path_template(),
                    action_substitutes(action@),
                    Some(auth + pair_views(extra_params@)),
                ),
            has_prefix(r@, self@.host),
    {
        let params = self.request_params(extra_params);
        let mut subs: Vec<(String, String)> = Vec::new();
        subs.push(param("action", action));
        assert(pair_views(subs@) =~= action_substitutes(action@));
        let r = format_url(self.host.as_str(), "/rest/:action", &subs, Some(&params));
        proof {
            let auth = choose|auth: Seq<(Seq<char>, Seq<char>)>| #[trigger] valid_auth_params(self@, auth)
                && pair_views(params@) == auth + pair_views(extra_params@);
            assert(r@ == formatted_url(
                self@.host,
                rest_path_template(),
                action_substitutes(action@),
                Some(auth + pair_views(extra_params@)),
            ));
        }
        r
    }

    /// The search request: the query, then the count and offset of artists, albums and
    /// songs (20 and 0 unless given), then the music folder if given.
    pub fn search3(
        &self,
        query: &str,
        artist_count: Option<u32>,
        artist_offset: Option<u32>,
        album_count: Option<u32>,
        album_offset: Option<u32>,
        song_count: Option<u32>,
        song_offset: Option<u32>,
        music_folder_id: Option<&str>,
    ) -> (r: ActionRequest)
        ensures
            request_view(r) == ("search3"@, search3_params(
                query@, artist_count, artist_offset, album_count, album_offset, song_count, song_offset,
                opt_str_view(music_folder_id),
            )),
    {
        let mut params: Vec<(String, String)> = Vec::new();
        params.push(param("query", query));
        params.push(param_decimal("artistCount", value_or(artist_count, 20)));
        params.push(param_decimal("artistOffset", value_or(artist_offset, 0)));
        params.push(param_decimal("albumCount", value_or(album_count, 20)));
        params.push(param_decimal("albumOffset", value_or(album_offset, 0)));
        params.push(param_decimal("songCount", value_or(song_count, 20)));
        params.push(param_decimal("songOffset", value_or(song_offset, 0)));
        let ghost base = pair_views(params@);
        push_opt_param(&mut params, "musicFolderId", opt_string(music_folder_id));
        let r = request("search3", params);
        assert(base =~= seq![
            ("query"@, query@),
            ("artistCount"@, decimal(or_default(artist_count, 20) as nat)),
            ("artistOffset"@, decimal(or_default(artist_offset, 0) as nat)),
            ("albumCount"@, decimal(or_default(album_count, 20) as nat)),
            ("albumOffset"@, decimal(or_default(album_offset, 0) as nat)),
            ("songCount"@, decimal(or_default(song_count, 20) as nat)),
            ("songOffset"@, decimal(or_default(song_offset, 0) as nat)),
        ]);
        r
    }

    /// The parameters of a stream request: the song, whether to estimate the content
    /// length and whether to stream the converted file (both false unless given), then
    /// the maximal bit rate, format, time offset and size where given.
    pub fn stream_params(
        id: &str,
        max_bit_rate: Option<u32>,
        format: Option<String>,
        time_offset: Option<u32>,
        size: Option<String>,
        estimate_content_length: Option<bool>,
        converted: Option<bool>,
    ) -> (r: Vec<(String, String)>)
        ensures
            pair_views(r@) == push_opt(push_opt(push_opt(push_opt(seq![
                ("id"@, id@),
                ("estimateContentLength"@, bool_text(flag_or(estimate_content_length, false))),
                ("converted"@, bool_text(flag_or(converted, false))),
            ], "maxBitRate"@, opt_decimal(max_bit_rate)), "format"@, opt_view(format)),
                "timeOffset"@, opt_decimal(time_offset)), "size"@, opt_view(size)),
    {
        let mut params: Vec<(String, String)> = Vec::new();
        params.push(param("id", id));
        params.push((String::from_str("estimateContentLength"), bool_string(flag_value_or(estimate_content_length, false))));
        params.push((String::from_str("converted"), bool_string(flag_value_or(converted, false))));
        assert(pair_views(params@) =~= seq![
            ("id"@, id@),
            ("estimateContentLength"@, bool_text(flag_or(estimate_content_length, false))),
            ("converted"@, bool_text(flag_or(converted, false))),
        ]);
        push_opt_param(&mut params, "maxBitRate", opt_decimal_string(max_bit_rate));
        push_opt_param(&mut params, "format", format);
        push_opt_param(&mut params, "timeOffset", opt_decimal_string(time_offset));
        push_opt_param(&mut params, "size", size);
        params
    }

    /// The GET URL that streams the song `id`, with the parameters of `stream_params`.
    pub fn stream_get_url(
        &self,
        id: &str,
        max_bit_rate: Option<u32>,
        format: Option<String>,
        time_offset: Option<u32>,
        size: Option<String>,
        estimate_content_length: Option<bool>,
        converted: Option<bool>,
    ) -> (r: String)
        ensures
            exists|auth: Seq<(Seq<char>, Seq<char>)>, extra: Seq<(Seq<char>, Seq<char>)>|
                valid_auth_params(self@, auth)
                && extra == push_opt(push_opt(push_opt(push_opt(seq![
                    ("id"@, id@),
                    ("estimateContentLength"@, bool_text(flag_or(estimate_content_length, false))),
                    ("converted"@, bool_text(flag_or(converted, false))),
                ], "maxBitRate"@, opt_decimal(max_bit_rate)), "format"@, opt_view(format)),
                    "timeOffset"@, opt_decimal(time_offset)), "size"@, opt_view(size))
                && r@ == #[trigger] formatted_url(self@.host, rest_path_template(), action_substitutes("stream"@), Some(auth + extra)),
    {
        let params = Self::stream_params(id, max_bit_rate, format, time_offset, size, estimate_content_length, converted);
        self.get_action_request_get_url("stream", &params)
    }

    /// The request for a cover image, at the given size if any.
    pub fn get_cover_image(&self, id: &str, size: Option<&str>) -> (r: ActionRequest)
        ensures
            request_view(r) == ("getCoverArt"@, push_opt(seq![("id"@, id@)], "size"@, opt_str_view(size))),
    {
        let mut params: Vec<(String, String)> = Vec::new();
        params.push(param("id", id));
        assert(pair_views(params@) =~= seq![("id"@, id@)]);
        push_opt_param(&mut params, "size", opt_string(size));
        request("getCoverArt", params)
    }

    /// The URL of the cover `id` on the server, used when no cached file can be offered.
    pub fn get_cover_image_url(&self, id: &str) -> (r: String)
        ensures
            exists|auth: Seq<(Seq<char>, Seq<char>)>| valid_auth_params(self@, auth)
                && r@ == #[trigger] formatted_url(
                    self@.host,
                    rest_path_template(),
                    action_substitutes("getCoverArt"@),
                    Some(auth + seq![("id"@, id@)]),
                ),
    {
        let mut params: Vec<(String, String)> = Vec::new();
        params.push(param("id", id));
        assert(pair_views(params@) =~= seq![("id"@, id@)]);
        self.get_action_request_get_url("getCoverArt", &params)
    }

    /// The request for the server's license.
    pub fn get_license(&self) -> (r: ActionRequest)
        ensures
            request_view(r) == ("getLicense"@, Seq::<(Seq<char>, Seq<char>)>::empty()),
    {
        let r = request("getLicense", Vec::new());
        assert(pair_views(r.params@) =~= Seq::<(Seq<char>, Seq<char>)>::empty());
        r
    }

    /// The request for the server's extensions.
    pub fn get_extensions(&self) -> (r: ActionRequest)
        ensures
            request_view(r) == ("getOpenSubsonicExtensions"@, Seq::<(Seq<char>, Seq<char>)>::empty()),
    {
        let r = request("getOpenSubsonicExtensions", Vec::new());
        assert(pair_views(r.params@) =~= Seq::<(Seq<char>, Seq<char>)>::empty());
        r
    }

    /// The request for the user's starred items.
    pub fn get_starred(&self) -> (r: ActionRequest)
        ensures
            request_view(r) == ("getStarred2"@, Seq::<(Seq<char>, Seq<char>)>::empty()),
    {
        let r = request("getStarred2", Vec::new());
        assert(pair_views(r.params@) =~= Seq::<(Seq<char>, Seq<char>)>::empty());
        r
    }

    /// The request for one song.
    pub fn get_song(&self, id: &str) -> (r: ActionRequest)
        ensures
            request_view(r) == ("getSong"@, seq![("id"@, id@)]),
    {
        id_request("getSong", id)
    }

    /// The request for one album with its songs.
    pub fn get_album(&self, id: &str) -> (r: ActionRequest)
        ensures
            request_view(r) == ("getAlbum"@, seq![("id"@, id@)]),
    {
        id_request("getAlbum", id)
    }

    /// The request for one artist with its albums.
    pub fn get_artist(&self, id: &str) -> (r: ActionRequest)
        ensures
            request_view(r) == ("getArtist"@, seq![("id"@, id@)]),
    {
        id_request("getArtist", id)
    }

    /// The request for the lyrics of a song, or none when the server does not offer lyrics
    /// (in which case the song has no lyrics).
    pub fn get_lyrics(&self, id: &str) -> (r: Option<ActionRequest>)
        ensures
            r is None <==> !self@.extensions.contains(SupportedExtensions::SongLyrics),
            r matches Some(q) ==> request_view(q) == ("getLyricsBySongId"@, seq![("id"@, id@)]),
    {
        if !contains_extension(&self.extensions, SupportedExtensions::SongLyrics) {
            return None;
        }
        Some(id_request("getLyricsBySongId", id))
    }

    /// The request for an album list: its type, size and offset (10 and 10 unless given),
    /// then the year range, genre and music folder where given.
    pub fn get_album_list(
        &self,
        list_type: AlbumListType,
        size: Option<u32>,
        offset: Option<u32>,
        from_year: Option<u32>,
        to_year: Option<u32>,
        genre: Option<String>,
        music_folder_id: Option<String>,
    ) -> (r: ActionRequest)
        ensures
            request_view(r) == ("getAlbumList2"@, push_opt(push_opt(push_opt(push_opt(seq![
                ("type"@, album_list_type_name(list_type)),
                ("size"@, decimal(or_default(size, 10) as nat)),
                ("offset"@, decimal(or_default(offset, 10) as nat)),
            ], "fromYear"@, opt_decimal(from_year)), "toYear"@, opt_decimal(to_year)),
                "genre"@, opt_view(genre)), "musicFolderId"@, opt_view(music_folder_id))),
    {
        let mut params: Vec<(String, String)> = Vec::new();
        params.push(param("type", list_type.into()));
        params.push(param_decimal("size", value_or(size, 10)));
        params.push(param_decimal("offset", value_or(offset, 10)));
        assert(pair_views(params@) =~= seq![
            ("type"@, album_list_type_name(list_type)),
            ("size"@, decimal(or_default(size, 10) as nat)),
            ("offset"@, decimal(or_default(offset, 10) as nat)),
        ]);
        push_opt_param(&mut params, "fromYear", opt_decimal_string(from_year));
        push_opt_param(&mut params, "toYear", opt_decimal_string(to_year));
        push_opt_param(&mut params, "genre", genre);
        push_opt_param(&mut params, "musicFolderId", music_folder_id);
        request("getAlbumList2", params)
    }

    /// The request for songs similar to `id`, with the count where given.
    pub fn get_similar_songs(&self, id: &str, count: Option<u32>) -> (r: ActionRequest)
        ensures
            request_view(r) == ("getSimilarSongs2"@, push_opt(seq![("id"@, id@)], "count"@, opt_decimal(count))),
    {
        let mut params: Vec<(String, String)> = Vec::new();
        params.push(param("id", id));
        assert(pair_views(params@) =~= seq![("id"@, id@)]);
        push_opt_param(&mut params, "count", opt_decimal_string(count));
        request("getSimilarSongs2", params)
    }

    /// The request for random songs: size, genre, year range and music folder, each
    /// where given.
    pub fn get_random_songs(
        &self,
        size: Option<u32>,
        genre: Option<&str>,
        from_year: Option<u32>,
        to_year: Option<u32>,
        music_folder_id: Option<&str>,
    ) -> (r: ActionRequest)
        ensures
            request_view(r) == ("getRandomSongs"@, push_opt(push_opt(push_opt(push_opt(push_opt(
                Seq::<(Seq<char>, Seq<char>)>::empty(), "size"@, opt_decimal(size)), "genre"@, opt_str_view(genre)),
                "fromYear"@, opt_decimal(from_year)), "toYear"@, opt_decimal(to_year)),
                "musicFolderId"@, opt_str_view(music_folder_id))),
    {
        let mut params: Vec<(String, String)> = Vec::new();
        assert(pair_views(params@) =~= Seq::<(Seq<char>, Seq<char>)>::empty());
        push_opt_param(&mut params, "size", opt_decimal_string(size));
        push_opt_param(&mut params, "genre", opt_string(genre));
        push_opt_param(&mut params, "fromYear", opt_decimal_string(from_year));
        push_opt_param(&mut params, "toYear", opt_decimal_string(to_year));
        push_opt_param(&mut params, "musicFolderId", opt_string(music_folder_id));
        request("getRandomSongs", params)
    }

    /// The request that reports a song as played (a submission unless told otherwise).
    pub fn scrobble(&self, id: &str, submission: Option<bool>) -> (r: ActionRequest)
        ensures
            request_view(r) == ("scrobble"@, seq![("id"@, id@), ("submission"@, bool_text(flag_or(submission, true)))]),
    {
        let mut params: Vec<(String, String)> = Vec::new();
        params.push(param("id", id));
        params.push((String::from_str("submission"), bool_string(flag_value_or(submission, true))));
        let r = request("scrobble", params);
        assert(pair_views(r.params@) =~= seq![("id"@, id@), ("submission"@, bool_text(flag_or(submission, true)))]);
        r
    }

    /// The request that stars songs, albums and artists.
    pub fn star(&self, id: &Vec<String>, album_id: &Vec<String>, artist_id: &Vec<String>) -> (r: Result<ActionRequest, ClientError>)
        ensures
            star_request_spec("star"@, "No song, album or artist specified to be starred"@, id@, album_id@, artist_id@, r),
    {
        star_request("star", "No song, album or artist specified to be starred", id, album_id, artist_id)
    }

    /// The request that unstars songs, albums and artists.
    pub fn unstar(&self, id: &Vec<String>, album_id: &Vec<String>, artist_id: &Vec<String>) -> (r: Result<ActionRequest, ClientError>)
        ensures
            star_request_spec("unstar"@, "No song, album or artist specified to be unstarred"@, id@, album_id@, artist_id@, r),
    {
        star_request("unstar", "No song, album or artist specified to be unstarred", id, album_id, artist_id)
    }
}

/// The parameters of a (un)star request: one `id` per song, then one `albumId` per
/// album, then one `artistId` per artist.
pub open spec fn star_params(ids: Seq<String>, album_ids: Seq<String>, artist_ids: Seq<String>) -> Seq<(Seq<char>, Seq<char>)> {
    Seq::new(ids.len(), |i: int| ("id"@, ids[i]@))
        + Seq::new(album_ids.len(), |i: int| ("albumId"@, album_ids[i]@))
        + Seq::new(artist_ids.len(), |i: int| ("artistId"@, artist_ids[i]@))
}

/// What a (un)star call gives: the request, or the error `empty_msg` when nothing is named.
pub open spec fn star_request_spec(
    action: Seq<char>,
    empty_msg: Seq<char>,
    ids: Seq<String>,
    album_ids: Seq<String>,
    artist_ids: Seq<String>,
    r: Result<ActionRequest, ClientError>,
) -> bool {
    if ids.len() + album_ids.len() + artist_ids.len() == 0 {
        r matches Err(ClientError::Message(m)) && m@ == empty_msg
    } else {
        r matches Ok(q) && request_view(q) == (action, star_params(ids, album_ids, artist_ids))
    }
}

/// Appends `(key, v)` for each `v` of `values`.
fn push_each(params: &mut Vec<(String, String)>, key: &str, values: &Vec<String>)
    ensures
        pair_views(final(params)@) == pair_views(old(params)@) + Seq::new(values@.len(), |i: int| (key@, values@[i]@)),
{
    let ghost before = pair_views(params@);
    let n = values.len();
    let mut i: usize = 0;
    while i < n
        invariant
            n == values@.len(),
            i <= n,
            pair_views(params@) == before + Seq::new(i as nat, |j: int| (key@, values@[j]@)),
        decreases n - i,
    {
        let ghost prev = pair_views(params@);
        params.push((String::from_str(key), values[i].clone()));
        assert(pair_views(params@) =~= prev.push((key@, values@[i as int]@)));
        assert(Seq::new((i + 1) as nat, |j: int| (key@, values@[j]@)) =~= Seq::new(i as nat, |j: int| (key@, values@[j]@)).push(
            (key@, values@[i as int]@)));
        i = i + 1;
        assert(pair_views(params@) =~= before + Seq::new(i as nat, |j: int| (key@, values@[j]@)));
    }
}

/// Builds a (un)star request, failing with `empty_msg` when nothing is named.
fn star_request(action: &str, empty_msg: &str, id: &Vec<String>, album_id: &Vec<String>, artist_id: &Vec<String>) -> (r: Result<ActionRequest, ClientError>)
    ensures
        star_request_spec(action@, empty_msg@, id@, album_id@, artist_id@, r),
{
    let mut params: Vec<(String, String)> = Vec::new();
    assert(pair_views(params@) =~= Seq::<(Seq<char>, Seq<char>)>::empty());
    push_each(&mut params, "id", id);
    push_each(&mut params, "albumId", album_id);
    push_each(&mut params, "artistId", artist_id);
    proof {
        reveal_strlit("id");
        reveal_strlit("albumId");
        reveal_strlit("artistId");
        assert(pair_views(params@) =~= star_params(id@, album_id@, artist_id@));
    }
    if params.len() == 0 {
        return Err(ClientError::Message(String::from_str(empty_msg)));
    }
    Ok(request(action, params))
}

} // verus!
