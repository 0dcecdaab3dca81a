# tgbacky

Backs up the media of Telegram chats to a local folder, with a state database that lets an export
go on where it stopped. The logic is a library verified with Verus; the program around it is
ordinary Rust.

- `src/` is the library. Each function states what it does in its contract, and the laws that hold
  of the library as a whole are public proof functions.
  - `text`, `number`, `binary64`, `date`, `path`, `order`, `naming`: the ground that the rest stands
    on.
  - `types`, `media`, `fsutil`, `hashing`: what a file of a message is, and where it is stored.
  - `config`, `environment`, `secrets`, `cli`, `onboarding`: settings, credentials, flags, sign-in.
  - `telegram`, `pacing`: how chats are asked for, how fast, and how a sign-in goes.
  - `storage`, `checkpoints`, `report`, `recovery`: rows of the state database, how far each chat
    was read, reports, unfinished downloads.
  - `export`: an export and a plan as state machines, with the laws of an export in `export::laws`.
  - `commands`: what the commands decide and print.
- `app/` is the program: the command line, the terminal, files, the database and the network. It
  asks the library what to do next, does it, and hands back what came of it.
- `tests/` runs the library on concrete values.

Outside crates are called through a few trusted functions. Each says in its doc comment which
function it calls and what is claimed of it.
