# jetty_app

The decisions of the JeTTY terminal, as a library that Verus verifies: what a key, a press, a
motion, a timer or a changed file does to the tabs, the windows and the settings, and what is
asked of the terminals, the clipboard and the system in return.

The library holds the whole application as plain values (`state.rs`). Every event is one call
that takes the state to the next one, leaves the work that the windows owe in `Due`, and
returns what is asked of the outside as an `Ask`. Each contract says exactly which state and
which request follow. What spans several calls is stated as a proof function whose name begins
with `law_`.

| Modules | What they decide |
|---|---|
| `state`, `events`, `config`, `startup` | the state, its view, and how it begins |
| `tabs`, `strip`, `exits`, `titles`, `wake` | tabs, their titles, their shells' output and exits |
| `detached`, `detached_input`, `windows` | windows of their own, and whose event an event is |
| `presence`, `frame`, `schedule` | showing, hiding, drawing, and when to wake |
| `keys`, `input`, `actions`, `commands`, `answers`, `modal`, `copymode` | the keyboard, and what follows on an answer |
| `press`, `buttons`, `pointer`, `links`, `zone` | the mouse |
| `panel`, `settings`, `reload`, `effect`, `mode`, `steps` | the settings, and the file that holds them |
| `notify`, `hints`, `help`, `shells`, `bytes`, `text`, `colors`, `anim` | the rest |

`app/` is the windowing side: the event loop, threads, files, the hotkey, and everything that is
measured in fractions. The terminals and the renderer are behind the traits of `app/backend.rs`.

The library rests on these statements about code outside it: comparing, extending and cutting
strings (`text.rs`), the clock (`anim.rs`), the hash of a text (`reload.rs`) and whether a text
names a hotkey (`startup.rs`).
