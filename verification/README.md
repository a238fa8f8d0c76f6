# sanicrs

The logic of an OpenSubsonic music player (for servers such as Navidrome or Gonic),
written in Verus and proved against its contracts.

## Layout

- `src/types.rs` – the OpenSubsonic data model (songs, albums, artists, lyrics, replies
  and errors) and the text shown for them.
- `src/client.rs` – the client: authentication parameters (salted MD5 token or API key),
  the request of every API call, request URLs, reply checks, the decoding of lyrics
  replies, extension handling and the cover cache locations.
- `src/cache.rs` – the song, album, artist and lyrics caches, which share the first item
  cached under an id.
- `src/player.rs` – the play queue: shuffling, looping, moving, inserting and removing
  entries, with the laws that tie these operations together; player settings.
- `src/dbus.rs` – the decisions of the MPRIS media-player service: track identifiers,
  where added tracks go, playback commands, seeking and track metadata.
- `src/ui.rs` – what the windows compute: lyrics timing, row states, colour schemes,
  time labels and information fields.
- `src/text.rs` – decimal and hexadecimal text, joining and prefixes.
- `src/bindings.rs` – the calls into `uuid`, `rand`, `md5` and `format-url`, each with
  the contract that the called code's source shows.
- `app/` – a command-line front end: HTTP with `reqwest`, JSON with `serde`, files and
  the environment. It lists, searches, shows lyrics and metadata, builds queues and
  prints stream and cover URLs. It has no graphical interface, no audio playback and
  no MPRIS service: gtk, relm4, gstreamer, mpris_server and zbus are not dependencies
  of this crate, and glib (needed for markup escaping) could not be built here. The
  library holds what those parts decide (queue, player commands, seeking, track
  metadata, lyrics timing, colours, labels), so such front ends can call it.
- `tests/` – tests of the library on concrete values.
