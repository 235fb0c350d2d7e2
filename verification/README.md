# gnome-iris (verified core)

A ReShade manager for Wine/Proton games on Linux: it discovers Steam games,
caches ReShade releases, installs them into game directories through symlinks,
and keeps community shader repositories merged per game.

The crate is written in Verus. `src/` is the verified library:

- `reshade/` — the domain: paths of the data directory, version keys and their
  order, the update cache, configuration and per-game overrides, games and
  their identifiers, the install plan and the status read back from links,
  shader merge sources and the links a merge makes, the DLL entries of an
  installer archive, Steam KeyValues documents and PE headers.
- `ui/` — the decisions of every page and dialog (shader catalog with its
  download queue, preferences, game detail, game list, the dialogs, the two
  background workers as step machines, and the main window's handlers), each
  returning the actions the widget layer carries out.
- `text.rs` — character-level string helpers.

`app/` holds what the verifier does not see: JSON persistence, file-system and
network work, Git, writing the extracted DLLs, and the drivers that run the workers' steps.
`tests/` exercises the library from outside.
