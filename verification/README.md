# MCR settlement

The decisions of a client that settles block commitments in the MCR contract on Ethereum, verified
with Verus.

- `src/` is the library. It turns commitments into the contract's form and back (`commitment`,
  `uint`, `address`), reads keys and configurations (`signer`, `config`, `hex`), says what a client
  asks of the contract (`client`), turns the contract's events into notifications (`stream`), and
  decides how a transaction is priced, sent, retried and given up (`send_tx`, `gas`, `error`,
  `text`). `runs` states what holds of a transaction as a whole: how often and with how much gas it
  is sent, that its fee stays within the limit, and that it ends.
- `app/` connects to the nodes and performs what the library asks for.
- `tests/` runs the library, among others with two validators and a contract kept in memory.

The library relies on `alloy-primitives` for 256-bit integers and addresses, and on
`alloy-signer-local` for private keys. What it takes for granted of them is stated at the functions
that call them.
