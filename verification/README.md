# mfa_agent

The verified core of a multi-factor authentication agent for Linux: a remote
agent that keeps secrets, and a proxy that asks it for them over TCP or
Bluetooth.

- `src/` is the library, verified with Verus: the request and response frames
  (`api`), the handling of requests by the agent and the requests of the proxy
  (`api`, `tcp`), the encryption of secrets (`crypto`), the decisions of the
  Bluetooth front end (`bluetooth`), the startup decisions of the desktop
  application (`app`), connection types, configuration and small helpers.
- `app/` is the program around it: command line, logging, sockets, Bluetooth,
  files and the GTK windows.
- `tests/` runs the library on concrete values.
