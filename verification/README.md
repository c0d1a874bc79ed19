# isamedia

A terminal client for a media stack: browse a Jellyfin library and play it in
mpv, and manage downloads with Radarr and Sonarr.

The screens are a verified Verus library. Each one is a state machine: keys,
ticks and the servers' answers go in, the next state and the requests to
perform come out. Their contracts say exactly which state and which requests.
The program around them owns the terminal, the network, the files and the
player, and performs the requests.

## Layout

- `src/apps/` holds the screens. Each tab has its state and keys in
  `browse.rs`, the model that its contracts speak of in `state.rs`, what it
  shows in `view.rs`, and what holds of it as a whole in `laws.rs`.
- `src/arr/` is what Radarr and Sonarr share: requests, pagination, the
  calendar, and how their records are shown. `src/radarr.rs`, `src/sonarr.rs`
  and `src/jellyfin.rs` hold the records of each server.
- `src/ui/` is what the screens are made of: text inputs, forms, pickers,
  lists, and lines of text in tones.
- `src/config.rs`, `src/net.rs`, `src/lang.rs`, `src/secrets.rs`,
  `src/text.rs` and `src/json.rs` are the settings, addresses, languages,
  the keyring's keys, and text and JSON values.
- `tests/` runs the library on concrete inputs.
- `app/` is the program.

## Laws

What holds of more than one call stands in `src/` as public proof functions
named `law_*`: that a superseded answer changes nothing, that a generation is
never used twice, that a monitor ends, that clearing a filter restores the
list, that a refused key ends the session and nothing else does.

## Keys

| Key | Action |
| --- | --- |
| `ctrl+←/→`, `ctrl+1..4` | switch app |
| `←/h` `→/l`, `shift+tab`, `tab` | previous / next Jellyfin tab |
| `↑/k` `↓/j`, `pgup/b/u`, `pgdn/f/d`, `g`, `G` | move around lists (Jellyfin, Radarr) |
| `↑` `↓`, `pgup/←`, `pgdn/→`, `g`, `G` | move around lists (Sonarr) |
| `enter` / `space` | play item / open series |
| `esc` / `backspace` | back / clear |
| `/` | search or filter |
| `s` | stop playback; sort where nothing plays |
| `r` | refresh |
| `?` | full help |
| `q`, `ctrl+c` | quit |
