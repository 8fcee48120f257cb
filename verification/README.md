# btc5min_limit_order

A bot for Polymarket's five-minute BTC up/down markets. At the start of each
five minutes it bids for both outcomes; what is filled is offered again at a
higher price; what is left is merged or redeemed afterwards. In simulation mode
no order, split, merge or redemption of a cycle leaves the program; pairs that
earlier runs left in the wallet are merged at the start all the same.

`src/` is a library verified with Verus: every decision of the bot, as functions
from plain values to plain values with exact contracts.

| module | content |
|---|---|
| `strategy` | the trading cycle, event handling, merges, settlement |
| `entry` | the steps that start a cycle, one after the other |
| `cycle` | one market's orders: fills, trades, SELL orders |
| `fixed_price` | the same at 49 and 50 cents, selling once shares are on chain |
| `orders`, `money`, `decimal` | orders, integer prices and amounts, decimal text |
| `binary` | the 53 bits of a price, which decide between two cents that are as near |
| `api`, `positions`, `transactions` | requests to the exchange, the data service, the chain and the relayer, and what the answers mean |
| `clob_client` | credentials of the event stream, reconnecting |
| `discovery` | the running five minutes, market names and tokens |
| `config`, `cli`, `models` | settings, command line, records |
| `evm`, `table`, `text` | chain values, a map with text keys, text |

Amounts are integers: millionths of a dollar or of a share, the precision that
both have on chain. The configuration file holds ordinary decimals, which are
taken to the nearest millionth.

`app/` is the program around the library: it reads the configuration, talks to
the exchange, the relayer and the chain, and runs the loops. `tests/` runs the
library on concrete values.
