# nify

A terminal dashboard for the BTCUSDT perpetual on Binance USDT-M futures:
order book, trade flow, liquidations, 24h ticker and an automatic signal.

The crate is in two parts.

- `src/` is a Verus-verified library:
  - `session` — the session state: the newest-first trade tape (200) and
    liquidation feed (100), the chronological price history (300), whale and
    liquidation counters, the signal cadence (every 30th trade), the
    large-liquidation alert timer and the session reset, with the laws that
    tie them together;
  - `signal` — signal directions and their labels, the signal record, the
    text that explains a signal, and the index windows the signal engine reads;
  - `feed` — readers of message fields (unsigned integers, text), the trade
    event filter, liquidation order location and identity, stream health;
  - `control` — what a key press does and how many messages a frame handles;
  - `layout` — row and margin arithmetic of the panels, depth bars, status marks.
- `app/` is the program around it: websocket streams, JSON decoding, the
  floating-point market arithmetic (prices, volumes, depth, the signal
  score), and drawing with ratatui.
