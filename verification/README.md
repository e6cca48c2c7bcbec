# ruela

A Discord bot that keeps a server's rules and records strikes and convictions
against its members.

- `src/` is the verified library: the rules and how they are numbered, listed
  and offered for completion; strikes and convictions and how they are shown;
  the confirmation prompt and what each answer leads to; where each piece of
  data is stored; and the texts of the errors a command reports.
- `app/` is the bot around it: the Discord client and its commands, the
  confirmation prompt's round trip with Discord, and reading and writing the
  data as CBOR files.
- `tests/` runs the library on concrete values.
