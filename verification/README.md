# sonarpad_options

The settings logic of Sonarpad's options dialog, written in Verus and proved
against its contracts.

- `src/` is the verified library: the interface languages and their codes, the
  choices of each list of the dialog and the settings they stand for, keyboard
  shortcuts and their conflicts, voice profiles, the voice and Gemini model
  lists read from the network answers, speech tuning limits and fields, which
  controls each tab shows, where they go and how a tab scrolls, and what saving
  the dialog changes.
- `tests/` runs the library on concrete values.
- `app/` holds the edges that Verus does not see: the HTTP requests (with
  `reqwest`) for the voice list, the Gemini models and the proxy check, and the
  reading of the keyboard's modifier keys (with `windows`).

`serde_json` is called from the library through a few trusted wrappers in
`src/json.rs`, whose contracts name what the parser reads rather than restate
it.
