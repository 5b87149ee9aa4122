# my_raft

Leader election in the style of Raft, as a verified library.

- `src/types.rs`: roles, addresses, peers, vote requests and answers, log
  entries, wire messages, and the `RPC_client` transport trait.
- `src/server.rs`: a server's state, its model `ServersView`, and its
  election deadline; time is counted in nanoseconds since the server was made.
- `src/consensus.rs`: answering vote requests, standing for election,
  counting votes, taking the lead and sending heartbeats.
- `src/rpc.rs`: turning requests and entries into wire messages, reading vote
  answers out of replies, and answering an incoming message.
- `src/laws.rs`: properties that span several steps (one vote per server,
  strict majorities, deadlines, terms that never go back).
- `app/`: the program: TCP transport with bincode frames, threads, logging and
  the three-server demo.
