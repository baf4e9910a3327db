# fresh-editor core

The verified core of a text editor that edits files on remote hosts, written in
Verus.

* `src/remote` is the remote file system. It keeps what is known of a connection
  and the files that were fetched ahead of their first use. An operation gives its
  result where it is at hand, and else the request that asks the agent for it; the
  agent's answer is then handed to the operation's `_reply` function.
* `src/view` counts logical lines and wrapped rows, measures line widths, and
  places and paints scrollbars on a `ratatui` buffer.
* The other modules of `src` hold what both are made of: JSON documents, base64,
  paths, texts, errors, and the records and requests of the agent's protocol.

Every function states in its contract what it returns or changes. Proof functions
whose names begin with `law_` state what holds across functions: that a prefetched
file is served under each of its names, that ranges join, that a walk visits what
the agent names, that a thumb never leaves its bar.

Outside code is called in few places, each with a contract that is believed:
`String::push`, `serde_json::Value`, `unicode_width::UnicodeWidthChar::width`, and
the cells of a `ratatui` buffer.

* `app` is the host side: the link, `std` readers and writers, and the
  floating-point proportions of scrollbars.
* `tests` runs the library with the real crates.
