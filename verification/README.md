# autonomic

A Slack bot that referees a game of Nomic.

* `src/` is the library, its functions proved against their contracts (calls into
  rusqlite, serde_json, url, time and std go through small trusted wrappers):
  * `text` – punctuation stripping, lower-casing, splitting on white space,
    decimal numbers;
  * `interpreter` – reading a `/proposal` command into keyword tokens,
    matching them against the proposal forms, and checking the proposal
    against the rules in force;
  * `proposal`, `model` – the game's records;
  * `db` – the SQL the bot runs against its SQLite database;
  * `json` – reading members of the JSON documents the bot receives, and
    writing strings as JSON string literals;
  * `slack`, `request` – what each incoming request is and the Slack
    message that answers it;
  * `wire` – the JSON text of a reply, keys in order, compact;
  * `laws` – properties of the interpreter proved for every input.
* `app/` is the server: HTTP, files and the Slack Web API.
* `tests/` runs the library on concrete inputs.
