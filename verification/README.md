# cyber_incident_simulator

A cyber incident response simulator: scenarios generate security events,
a detection engine raises alerts, analysts open incidents, investigate,
and run containment, eradication and recovery actions, and a self-audit
scans the project and probes its own defences.

Layout:

- `src/` is the library, written in Verus. Every function carries a
  `requires`/`ensures` contract that Verus proves: the incident lifecycle,
  detection rules and correlation, indicator lists, log parsing and
  formatting, the MITRE ATT&CK registry, response actions, the audit
  scanner and report, request checks, access control and rate limiting.
  Calls into `chrono`, `regex`, `rand` and `uuid` go through small trusted
  wrappers whose contracts are stated beside them.
- `app/` is the service around it: the HTTP API (axum), WebSocket and
  server-sent event streams, the SQLite store (rusqlite), configuration
  files and the UDP syslog listener. The routes that rest on password
  hashing, token parsing, TOTP and scoring (login, two-factor setup,
  statistics, scores, the self-audit run) are not served: the modules they
  call are not part of this source tree, and bearer tokens are only checked
  for presence.
- `tests/` runs the library on concrete inputs.
