# proxyfor_tui

The terminal interface of a proxy that records HTTP traffic, with its logic verified
by [Verus](https://github.com/verus-lang/verus).

`src/` holds what the interface decides: which exchanges it lists, which one is
selected, what a key or a message changes, what it asks the proxy for, and what each
screen shows. `model.rs` states this as a transition system over `AppState`; `app.rs`
implements it; `laws.rs` proves what holds of it as a whole.

`app/` reads the terminal, paints the scenes that `src/` describes, and carries out
the requests. The proxy itself is anything that implements its `State` trait.

| file | content |
| --- | --- |
| `nav.rs` | moving a selection that wraps |
| `text.rs` | decimal numbers, padding, words, lines |
| `layout.rs` | areas and how they are divided |
| `keys.rs`, `input.rs` | key events; the line in which a search is typed |
| `traffic.rs`, `actions.rs` | the recorded traffic; requests and messages |
| `model.rs`, `app.rs`, `laws.rs` | the state, its transitions, and their laws |
| `list.rs`, `details.rs`, `chrome.rs`, `scene.rs` | what is shown |
