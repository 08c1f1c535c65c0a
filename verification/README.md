# qobuz_player

The decisions of a Qobuz music player, written and proved in
[Verus](https://github.com/verus-lang/verus).

`src/` is the verified library:

| module      | what it decides                                                   |
|-------------|-------------------------------------------------------------------|
| `lastfm`    | which requests go to Last.fm, and what the answers mean           |
| `requests`  | the parameters of each request, and that each is signed whole     |
| `signature` | how a request is signed                                           |
| `params`    | the map of parameters, in the order of their names                |
| `scrobble`  | when a track is announced and when it is scrobbled                |
| `cli`       | what the command line asks for, and how the player is started     |
| `open`      | the `open` command, step by step                                  |
| `config`    | the `config` command, step by step                                |
| `devices`   | the list of output devices                                        |
| `sleep`     | when the computer is kept awake                                   |
| `text`      | numerals, and the order of strings                                |
| `error`     | what can go wrong                                                 |

Taken on trust are the digest of the `md5` crate and its hexadecimal form, the
system clock, and that `std::path::PathBuf` is a type: paths are only handed on.

`app/` is ordinary Rust around the library: the command line, the network, the
terminal and the operating system. The database and the player itself, with
its interfaces, are behind the traits of `app/backend.rs`.
