# dplay_launcher

A launcher for DirectPlay lobby applications. The user picks a locally
registered application and a service provider, enters an address (an Internet
address or a telephone number, depending on the provider), a player name and a
session name, and the launcher asks the DirectPlay lobby to run the
application in that session.

- `src/` is the verified library:
  - `guid` – identifiers and their in-memory byte layout;
  - `text` – character-level helpers (substring search, C strings, UTF-8);
  - `directplay` – the data handed to and received from the lobby;
  - `session` – the user's choices, the lists the lobby reports, selection by
    name and the address kind of a service provider;
  - `launch` – errors, statuses, compound addresses and connection settings;
  - `launcher` – the launch as a state machine: from each lobby answer to the
    next lobby call, with the laws that the machine keeps.
- `app/` is the Windows program: the window, COM and the lobby calls, driven
  by the library's launcher.
- `tests/` exercises the library on concrete values.
