# homespace

A command-line manager for the Docker Compose applications of a home lab:
Traefik (edge routing, TLS) and a shared PostgreSQL as infrastructure, and
applications added, listed, shown, edited and removed around them.

## Layout

- `src/` — the library, verified with Verus. Every decision and every piece
  of output of the tool is computed here: reading compose files and `.env`
  files, port and host-name conflicts, the listing and detail views, the
  infrastructure projects to write and the answers proposed for them, the
  `docker`, `psql` and `git` invocations, the shared-resource configuration
  and passwords.
  - `text.rs`, `paths.rs` — text and path operations with their
    specifications (trimming, splitting, lines, decimal numbers, joining).
  - `config.rs` — the global configuration and its shared resources, kept in
    name order.
  - `models/` — applications, services, compose files, middlewares, states.
  - `services/` — scanning applications, the infrastructure generator,
    credentials, `docker`, `git` and PostgreSQL invocations.
  - `commands/` — what each subcommand decides and prints.
- `app/` — the program: argument parsing, prompts, files, processes.
- `tests/` — tests of the library.
