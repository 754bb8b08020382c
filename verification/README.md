# rise_code

A daemon that shows the tmux session you are editing in (with the Helix
editor) as a Discord rich presence.

- `src/` is the verified library: text primitives (`text`), the word
  commands (`commands`), languages and sessions (`interface`), reading the
  editor's status lines (`loader`), the socket protocol for tmux's attach
  and detach hooks (`listener`), the presence shown and the client loop as
  a state machine (`client`), the setup scripts and configuration lines
  (`init`), event messages (`events`) and the helper traits (`traits`).
- `app/` is the program around it: the socket, tmux and Discord calls,
  files, logging and the async loops that feed the library's state
  machines.
- `tests/` exercises the library on concrete values.
