# miden_store

The verified core of the store of a Miden node, written in Verus.

- `src/` is the library. It generates the accounts of the genesis block from a configuration, turns
  rows of the database into records and records into messages, reconstructs storage maps from their
  history, and fixes what is asked of the database and in which order its procedures run.
- `app/` is the program around it: command line, configuration files, network, SQLite.
- `tests/` runs the library together with the crates of the protocol.

## Modules

| Module | What it holds |
| --- | --- |
| `word`, `word_set`, `text` | words of four field elements, sets of them, and texts |
| `account` | identifiers, assets, keys, accounts and account files as plain values |
| `random` | a random number generator given by its seed and its position |
| `miden` | the calls into the protocol's crates that the genesis logic makes |
| `genesis`, `bootstrap`, `genesis_laws` | the genesis configuration and the accounts made from it |
| `storage_map`, `storage_map_laws` | reconstruction of storage maps |
| `record`, `message` | records of the database and the messages made from them |
| `db`, `lifecycle`, `analysis` | queries, procedures and metrics of the database |
| `command` | the commands of the store |

What is believed without proof stands in `miden`, `random`, `word`, `record` and `genesis`: the
functions marked `external_body` and the `assume_specification` items there. Their bodies call into
other crates and convert what goes in and comes out; their comments say what is claimed.
