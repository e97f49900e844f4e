# sloppy

Sloppy is an autonomous fundraising agent: it asks a language model for a
campaign text, publishes it on nostr, and watches its lightning wallet,
posting a new campaign whenever donations come in.

The library under `src/` holds the agent's logic, verified with Verus:

- `survival` — the survival loop as a state machine (`Sloppy::step`): from
  what the last action brought back to the next action, with the laws that
  tie rounds together (a round reads back the balance the previous one
  logged; only failures stop the loop; what is saved is what was published).
- `agent_log` — the log file: records appended by the agent and the last
  entry read back, line by line as `BufRead::lines` reads them.
- `decimal` — balances written and read as decimal text.
- `text` — trimming and unquoting the model's answer.
- `completion` — the streamed chat completion: event-stream lines and the
  answer assembled from the content deltas.
- `invoice` — stored wallet transactions read back from database rows.
- `auth`, `nostr_profile` — the service headers, the signing identity and
  the published profile.
- `lines`, `chars` — line splitting and character helpers shared by the above.

`app/` is the program around it: the web server, the database, the HTTP,
nostr and wallet clients, and the loop that performs the actions.
