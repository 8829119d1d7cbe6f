# torfile

A download manager for the terminal, over the aria2 daemon.

- `src/` is the library: the state, and the rules by which keys, reports, replies and
  outcomes change it, are answered and are shown, with contracts that Verus proves. It
  performs no input or output.
- `app/` is the program around it: it starts the daemon, sends and receives, reads keys,
  and draws the widgets that the library describes.
- `tests/` run the library on concrete values.

A key press that `App::admits` goes through `App::handle_key`, which changes the state and
says which action is called for; the program performs it and hands the outcome to
`App::finish`. Reports of the background work go through `App::drain`, answers of the
search engines through `App::found_tpb` and `App::found_knaben`, and `render` says what
the state shows.

`src/outside.rs` holds the calls into other crates whose contracts are taken on trust;
three methods of `String` in `src/text.rs` are specified in the same way.
