# iced_trade

Market-data bookkeeping for a crypto trading dashboard that streams order
books, trades and klines of four perpetual swaps from Binance and Bybit.

The library under `src/` is verified with Verus:

- `market`, `text`: instruments, exchanges, timeframes and their labels.
- `bybit`, `binance`, `ws_binance`: stream names, topic parsing, request
  addresses and message routing of the two exchanges.
- `link`: the connection decisions of a feed task (state and event to next
  state and action).
- `user_data`: signed query strings (HMAC-SHA256 through `hmac`/`sha2`,
  hex through `hex`) and the handling of user-data events.
- `dashboard` (with `dashboard::pane` and `dashboard::board`): pane
  contents and subscriptions, fetch plans, and the pane registry that
  routes every update to the panes subscribed to its stream.
- `state`: the four layouts, the one on screen, its lock and the
  notification shown.
- `charts`, `series`, `latency`: axis time steps, bounded time series and
  latency averaging.

`app/` is the runnable part: websocket and REST I/O, JSON (de)serialisation,
the floating-point order book and per-pane chart data, and the main loop.
`tests/` exercises the library on concrete values.
