# sbsp

The rules of a show-playback program, written and proved in Verus.

`src/` is a library without waiting, spawning or windows. It decides; the program around it brings
what it has learned and does what it is told.

| module | what it decides |
| --- | --- |
| `app_state` | the options of the program's server, whether one runs, and who is told when it starts or stops |
| `backend` | which audio engine a backend is started with, which tasks are spawned and in which order, and what its handle offers |
| `state_sync` | what clients are told of the active cues |
| `full_state` | how requests for the full state are answered, and when the service ends |
| `forward` | which backend events reach the user interface |
| `level`, `meter` | which audio levels are shown, to whom and as which bytes, and when the level meter waits or ends |
| `setup` | the steps in which the desktop program is set up |
| `log_line` | the lines of the log |
| `settings`, `show` | the data that the others work on |
| `channel` | sending on tokio's channels, as far as it does not wait, with a record of what was published |

What is believed without proof stands in `channel` (sending on and cloning of tokio's senders) and in
`log_line` (the timestamps of humantime, the colors of fern). Each such item says what it claims.

`app/` is the program around the library: its tasks and channels (`components`), its state, setup and
background work (`desktop`), its log (`log_format`), what it sends to clients (`wire`), and its shell
on tauri (`tauri_shell`), which is built with `--cfg sbsp_tauri` where the system has the webview
libraries and tauri's plugins for dialogs, opening files, the operating system, updates and window
state are at hand.
