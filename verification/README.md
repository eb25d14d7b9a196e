# ghost

A chat bot that watches self-hosted web services (Synapse, Nextcloud, Forgejo,
Portainer, Keycloak, Bitwarden, WordPress, GoToSocial), posts a health report to
a Matrix room when their status changes, and forwards new GoToSocial
notifications to the same room.

- `src/` is the library, verified with Verus: reading the TOML configuration,
  judging health replies, building the health report and its status code,
  deciding when a change is reported, building notification messages, picking
  the new notifications of a fetch, and answering room commands.
- `app/` is the program around it: command-line arguments, the Matrix client,
  HTTP requests, JSON decoding, timers, and printing.
- `tests/` runs the library on concrete values.
