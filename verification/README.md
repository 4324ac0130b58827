# peerchat

A small libp2p chat node. Peers on the local network find each other with
mDNS and exchange lines of text over floodsub on the `transactions` topic.

- `src/` is the Verus-verified library: classification of typed lines
  (`commands`), peer lookups and listings over discovered identifiers
  (`peers`), the floodsub set-up and peer bookkeeping (`behaviour`), text
  helpers (`text`), and the trusted boundary to libp2p (`net`).
- `app/main.rs` is the program: stdin, the swarm and printing.
- `tests/` exercises the library.
