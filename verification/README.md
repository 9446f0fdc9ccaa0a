# bsc_sniper

The decision logic of a BNB Smart Chain token sniper for the Flap and FourMeme
launchpads, written in Verus and proved against its contracts.

Layout:

- `src/calendar.rs` — Gregorian dates from day counts (`days_to_ymd`), with the
  proof that it inverts `days_from_civil`, and the UTC timestamps of the log lines.
- `src/funds.rs` — how much a buy may spend (gas reserve, per-platform budgets),
  gas fee floors, the nonce counter, and the laws that keep buys within budget.
- `src/constants.rs` — chain constants, contract addresses, function selectors and
  event topics (Keccak-256 from `ethers`, address parsing from `ethers`).
- `src/samples.rs` — reading sample transaction files (`tx_hash=` / `data_hex=`) and
  decoding their calldata (`hex`).
- `src/config.rs` — settings from environment values.
- `src/cli.rs` — the `--token` and `--platform` arguments of the `buy` command.
- `src/mempool.rs` — pending-transaction items and the listening loop's decisions.
- `src/text.rs` — trimming and prefix tests on characters.
- `app/` — the program: command line, environment, RPC, signing, streams.
- `tests/` — tests on concrete values.
