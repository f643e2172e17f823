# rbw_agent

The decisions of an agent for a Bitwarden vault, verified with Verus: its
configuration, the dialogues that ask for passwords and codes, logging in,
synchronising, locking and unlocking, the SSH agent with its signatures, the
cache of SSH public keys, and a scan of the vault for corrupt entries.

Most of what the agent does is a conversation with something outside: a server,
a file, a pinentry program, another process. Each such conversation is an enum of
states. A state names the work that has to be done next, an event says what came
of it, and one function leads from a state and an event to the next state. Its
contract is the relation `steps_to` of that enum. What holds of every
conversation is stated over sequences of states and events, in the public proof
functions whose names begin with `law_`.

- `src/` is the library.
- `tests/` holds its tests.
- `app/` does the outside work: files, sockets, processes, locks and time. What it
  needs of the rest of a client (the database, the server, the cipher) is a trait.
