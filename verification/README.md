# onboarding

Invitation-gated onboarding for a chat platform, verified with Verus.

- `src/invitations.rs`: the invitation model and code generation.
- `src/reference.rs`: the in-memory reference database of invitations
  (unique codes), its operations and their read-after-write laws.
- `src/greetings.rs`: greetings and the lookup that falls back to the
  default greeting.
- `src/admin.rs`, `src/users.rs`: the invitation routes (check, create,
  delete, list, own invitation) and the user listing (a state machine that
  refuses unprivileged callers before reading any user).
- `src/provision.rs`: studio plans and the studio set-up state machine.
- `src/onboard.rs`: username validation, completing onboarding and healing
  accounts, as state machines whose actions the caller carries out.
- `src/servers.rs`: the server routes (greeting, book channel, onboarding
  completion, adding a bot), as small state machines.
- `src/mongo.rs`: the decisions of the MongoDB backend around its reads
  and writes of the invitations collection, and the redemption update.
- `app/`: serializable copies of the types and loops that run the state
  machines against a platform backend.
