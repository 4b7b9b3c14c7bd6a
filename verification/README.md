# Opal Player

The library of a terminal music player, verified with Verus. `src/` holds
what the player decides and computes, each public function with a contract
and the laws that tie the functions together proved as proof functions;
`app/` is the program around it: the terminal, audio decoding and output,
the files and the desktop media bus.

## Layout

- `src/text.rs`: character-level helpers (trimming, lines, decimal numbers)
  and the few standard path and case operations the rest relies on.
- `src/library.rs`: tracks, the search filter, the library cursor, and how a
  directory listing is ordered and classified.
- `src/lyrics.rs`: the LRC parser, the current line and the lyrics window.
- `src/playlist.rs`: M3U reading and writing, playlists and the play queue.
- `src/input.rs`: actions, key patterns and the key table.
- `src/player.rs`: the transport state: clock, volume, seeking, scrubbing.
- `src/theme.rs`: the palettes, colour texts and overrides.
- `src/config.rs`: the settings kept between runs.
- `src/mpris.rs`: the track identifier and metadata published on D-Bus.
- `src/view.rs`: the texts the screen shows.
- `src/app.rs`: the application state machine. Every step returns an
  `Effect` telling the caller what outside work to do next (load a track,
  write a file, drive the output), and the matching method takes the result.
- `app/`: `main`, terminal drawing, symphonia decoding, rodio output, lofty
  tags, the settings file and the MPRIS server.

Times are integer milliseconds and the volume is an integer percentage.
