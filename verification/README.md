# snapmail

The logic of the SnapMail zome (user handles, mails, acknowledgements and the
direct-message protocol between agents), verified with Verus.

- `src/` is the verified library. Each zome function that talks to the
  Holochain host is a state machine: it names its next request of the host as
  a `HostCall`, takes the host's answer as a `HostReply`, and ends with its
  result. Every step's contract is an exact function of the state and the
  reply over views of the data, and the laws of the zome (what
  `check_incoming_ack` returns, that an acknowledged mail is refused, that a
  handle set twice is written once, ...) are proof functions over those steps.
  - `host.rs`: entry and link kinds, host calls and replies, errors, the clock.
  - `host_model.rs`: a model of the host (content-addressed entries, links,
    a peer's answer) and the laws across calls on it: a handle that was set
    is read back and setting it again writes nothing; a mail is acknowledged
    at most once.
  - `dna.rs`: the shape of entry definitions.
  - `handle/`: handles, `get_handle`, `set_handle`, `find_agent`.
  - `mail/`: mail entries, `receive`, `acknowledge_mail`,
    `check_incoming_ack`, and entry lookups with their authors.
- `app/` runs the machines against the hdk, converts entries and messages to
  and from JSON, and declares the entry definitions to the conductor.
- `tests/` drives the machines with host replies.
