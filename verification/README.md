# gln_auth

Account protection for offline-mode Minecraft servers, written in Verus. Players
register and log in with a password, or claim a premium name whose Mojang id
their client presents. Until they are authenticated they are frozen, and a login
timeout, a limit on failed logins per address and a single session per name are
enforced.

## Layout

- `src/` is the verified library.
  - `text`, `table`: texts and an ordered map.
  - `messages`, `config`, `validation`, `session`, `hash`: wording, settings,
    accepted names and passwords, remembered logins, Argon2.
  - `storage`, `state`: accounts and sessions, and the state that all share.
  - `premium`: lookups with Mojang and the cache of their results.
  - `handlers`, `commands`, `registry`: joins, leaves, the freeze, the commands
    and how they are offered.
  - `laws`: what holds across all of these.
- `app/` is the Pumpkin plugin: files, HTTP, events and command registration.
- `tests/` runs the library on concrete values.

## How the parts meet

The library never touches a file or a socket. A command that changes the store
returns a step that asks for the store to be written; the plugin writes it and
resumes the command with the result. A premium claim hands out a lookup that
says what to fetch next and takes in what came back. A freeze decision says
whether to kick, and is told whether the kick worked.

## What is trusted

Calls into `argon2`, `regex`, `serde_json` and a few functions of the standard
library are wrapped, each with a contract that its doc comment explains. All
else in `src/` is proved.
