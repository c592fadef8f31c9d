# rust-quant-bot

The decisions of a bot that trades five-minute binary markets, as a verified library, and the nodes
that run it.

`src/` is the library. It reads no clock, socket or file: it takes plain values and gives plain values
back, and every function states exactly what it does. Prices, sizes and ratios are whole numbers of
billionths; profit is exact.

| module | what it holds |
| --- | --- |
| `fixed`, `decimal`, `text`, `balance` | fixed-point arithmetic, and reading numbers out of text |
| `book`, `market_feed`, `user_feed`, `session`, `subscription` | the order books, the two feeds and their connections |
| `orders`, `position`, `manager` | the single live position and everything that can happen to it |
| `pricing`, `live`, `executor` | what a signal must be worth, at which price and size it is followed, when a position goes |
| `position_laws`, `price_laws`, `feed_laws`, `live_laws` | what holds of all of that, proved |

The one thing the library trusts is how `serde_json` writes a string (`subscription::quoted`).

`app/` holds the nodes: the web sockets, the files, and the two loops that carry out what the library
decides. What they need from the exchange, the dashboard and the bankroll is named in `app/gateway.rs`.
