# Garlemald Client

A launcher for FINAL FANTASY XIV 1.23b on private servers. It finds an install, brings it up to
date with patches from a torrent or a local folder, logs in at a server and starts the game, on
macOS and Linux through Wine.

On Windows the same decisions hold, and `app/` hands the library its paths with slashes. Starting
the game there takes changes to the running process; that part comes with a distribution and not
with these sources.

Every decision that the launcher takes is written in Rust with contracts, and Verus proves them:

- `src/text.rs`, `src/path_text.rs`: texts and paths, and what the rest says about them
- `src/servers/`: the list of servers, read from TOML
- `src/config/`: the program's directories and the preferences
- `src/install_check.rs`: whether the install can be launched
- `src/patcher/`: finding, unpacking, checking and applying the patches
- `src/torrent/`: the magnet link, and the tasks that download and seed the patches
- `src/login/`: the login through a web page and through a JSON interface
- `src/platform/`: Wine prefixes, the engine for macOS, DXVK, and the command that starts the game
- `src/app/`: what the windows show, and what follows from each click

Where work has to be done outside (files, sockets, threads, windows), the library names the next
step and is told how it went. `app/` does that work. `tests/` runs the library on examples.

The library believes without proof what its few contracts for other crates say: `crc32fast` for
the checksums, `toml` for the list of servers, `directories` for the program's directories, and the
standard library for the form of a quoted text.
