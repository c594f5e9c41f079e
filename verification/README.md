# trappo

A remote deployment tool: it reads a stage's settings from
`.trappo/config.toml` and custom steps from `.trappo/steps.toml`, assembles a
recipe of steps, and deploys a git repository to a server over ssh, rolling
back when a step fails critically.

The library (`src/`) is verified with Verus. It never runs a command itself:
every piece of logic that alternates remote work and decisions is written as
a protocol that, given the results of the commands it asked for so far,
answers with the next command or with its result. The program in `app/`
reads the files, runs the commands over ssh, prints what the library reports
and feeds the results back.

Layout of `src/`:

- `text` — trimming, splitting and number formatting used to build commands.
- `toml` — the part of a TOML document the configuration reads, and the call
  into the TOML parser.
- `config`, `config_steps` — stage settings and custom steps.
- `cmd` — the commands run on the server and how their results are read.
- `steps` — the context of a deployment and each step's protocol.
- `recipe` — recipes and their builder; `recipe::deployer` decides which step
  runs next, when a deployment stops and when it rolls back.
