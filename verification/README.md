# mysolanaapp

A breeding machine for Solana NFTs, a token transfer program, and a generator of NFT
metadata, with the logic of each written in Verus and proved against its contract.

## Layout

- `src/` — the verified library.
  - `breeding_machine.rs`: the machine's state and the rules that decide a mint (end
    settings, go-live date, gateway token age, whitelist, payment, recording).
  - `mint.rs`: the course of a mint as a stage machine; each stage names the work the
    runtime does next, and the runtime reports back an event.
  - `invocations.rs`, `token.rs`, `instruction.rs`: the instructions a mint hands to other
    programs (token burns and transfers, lamport transfers, token-metadata calls) and the
    check of associated token accounts, built with the token and token-metadata crates.
  - `sysvar.rs`: reading the instructions and recent-blockhashes sysvars, and the check
    that a minting transaction only calls allowed programs.
  - `transfer.rs`: the token transfer program.
  - `config.rs`, `metadata.rs`, `rolls.rs`, `traits.rs`, `assets.rs`, `order.rs`, `text.rs`,
    `cli.rs`: the metadata generator — configuration, item metadata, where guaranteed
    trait rolls fall, how layers are chosen, describing an assets folder.
- `tests/` — tests of the library on concrete values.
- `app/` — the program around the library: the command line, file I/O, JSON, random
  choices by floating-point odds, and the runtime calls of the on-chain entry points.
