# lingsubtitle

The verified core of a desktop application that captures system (or one
application's) audio, streams it to the DashScope Gummy real-time
recognition and translation service, and shows and saves bilingual subtitles.

- `src/` is the library, written and proved with Verus: every public
  function states what it returns in its contract, and the laws of the
  library are public proof functions whose names begin with `law_`.
  - `gummy`: the language tables, normalization of language names, and the
    validation of a language selection.
  - `config`: the settings, their defaults and JSON form, and the migration
    of a stored settings document.
  - `asr`, `asr_session`: the recognition protocol messages, the settings
    check, the errors reported, and the decisions of a session, of its
    reading task and of a connectivity probe (the caller does the socket work).
  - `segments`, `subtitle`, `control`: the subtitle segment state machine,
    the session files and the text that saving adds, and the commands'
    decisions.
  - `audio`: which audio sessions are listed and in which order, and the
    icons' data URLs.
  - `translation`, `translation_stream`: requests to a chat-completions
    translation service and the reading of a streamed answer.
  - `json`, `text`: a JSON model and string helpers with specifications.
- `tests/` runs the library on concrete values.
- `app/` is the desktop shell (Tauri commands, sockets, HTTP, audio capture
  and signal processing, files), which performs what the library decides.
