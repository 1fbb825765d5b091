# koditerm

A terminal browser and player for the music library of a Kodi media
server: search artists, albums and songs, play them on Kodi or stream them
to the local sound card.

The decisions of the program are a library verified with Verus (`src/`):

- `text` — decimal formatting, joining, trimming, searching in text.
- `kodi` — the library records, player status, durations.
- `search` — substring and fuzzy matching, ranking, filtering.
- `app` — the browser state: loading, filtering, selection and scrolling.
- `keys` — what each key does in search and normal mode.
- `playback` — the local play queue: advancing, skipping, arriving audio.
- `rpc` — Kodi's JSON-RPC requests, remote actions, the status poll.
- `config` — systems, colours, themes, choosing a system.
- `musicbrainz` — related artists shown from MusicBrainz relations.
- `layout` — popup geometry, scrolling of the queue pane, captions.
- `laws` — properties across operations, stated and proved.

`app/` is the terminal program around it: arguments, the configuration
file, HTTP, the terminal and the audio output. `tests/` exercises the
library on concrete values.
