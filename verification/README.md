# deepstate_mm

A market maker for the NVDA/USDG book of the Deepstate protocol. The protocol
rewards the best bid and the best ask; the bot keeps one order on each side,
closes both every cycle, collects their rewards and quotes again.

`src/` is a library verified with Verus. It holds the decisions of the bot, all but
the target prices, which take floating-point arithmetic and are computed in `app/`.
It talks to no node, file or clock.

| module | what it states |
|---|---|
| `order` | an order packed into a 256-bit word, and read back |
| `contracts` | the deployed addresses, and how a pool is named |
| `strategy` | where the quotes go, and how balances limit them |
| `engine::config` | the settings and their rules |
| `engine::book`, `engine::tree` | reading the order trees |
| `engine::place` | placing an order and finding where it rests |
| `engine::close` | closing an order without losing its reward |
| `engine::cycle` | one round of closing and placing |
| `engine::reconcile` | squaring the record with the book at startup |
| `engine::receipt`, `engine::allowance` | waiting for a transaction, granting an allowance |
| `engine::state` | what is remembered between two cycles |
| `gui` | the state behind the configuration window |
| `words`, `bytes`, `number`, `binary64` | words, byte strings, decimal texts, binary64 numbers |

An order is closed in a fixed sequence: register the claim, cancel, distribute.
Cancelling first loses the reward for good; `engine::close` proves that the bot
never asks for it.

The one thing the library believes without proof is that
`alloy::primitives::keccak256` is a function of the bytes it is given.

`app/` is the program around the library: the node client, the state file, the
floating-point prices, and the window, which is drawn with `eframe`. Run it
without an argument to trade, or with `inspect`, `probe` or `gui`.
