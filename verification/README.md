# cli-music-player

A terminal music player for Navidrome and other Subsonic servers, whose
logic is a library verified with Verus.

## Layout

- `src/` — the verified library:
  - `queue` — the play queue: shuffle with a remembered original order,
    repeat modes, history, moving and removing songs.
  - `config` — servers, equalizer presets and settings; the configuration
    document it saves and reads back; password encryption (PBKDF2,
    AES-256-GCM, base64).
  - `subsonic` — models, token authentication, request building and
    response parsing for the Subsonic API.
  - `equalizer`, `player`, `audio::pipeline` — the equalizer state, the
    player's state machine and the audio engine's decisions, each answering
    with the commands for the audio thread.
  - `tui` — the interface state machine: keys and clicks in, actions out.
  - `json`, `text`, `utils`, `double` — a JSON value model, string helpers,
    duration and size formatting, exact conversion of integers to doubles.
- `tests/` — tests of the library.
- `app/` — the program around it: terminal drawing, HTTP, audio decoding,
  resampling, filtering and output, and the configuration file on disk.
