# lore_rename

Decides how a repository is given another name, with the decisions verified in
Verus.

A repository's name lives in its metadata blob and in a name to id mapping. A
rename moves both, in an order that leaves the repository within reach wherever
the rename is cut off, and that lets the same request finish it later.

- `src/repository_rename.rs`: the server's side, `handler` and `install_name`
- `src/rename.rs`: the client's side, `rename`
- `src/refusal.rs`: why a rename is refused, and the status that says so
- `src/key.rs`: the text that a metadata pointer is keyed by
- `src/types.rs`: identities, hashes and metadata
- `src/world.rs`: the stores, as contracts speak of them
- `src/laws.rs`, `src/client_laws.rs`: what holds of whole renames
- `app/`: the gRPC handler and the client call around these decisions
