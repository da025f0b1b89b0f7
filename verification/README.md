# binance_connector

A C-callable connector to the Binance USDⓈ-M futures API, with its logic verified in Verus.

- `src/` — the verified library:
  - `decimal` — decimal text of integers and `u64` parsing of request fields, with the
    law that parsing a number's text gives the number back;
  - `streams` — stream names (`<symbol>@depth@0ms`, `@aggTrade`, `@markPrice`) and the
    ordered registry of streams to subscribe to;
  - `session` — credentials, and the plan of which REST clients to make with which keys;
    the first initialisation wins;
  - `replies` — the reply texts (`{ec: ..., errmsg: ...}` on failure);
  - `requests` — the symbol filter of position requests;
  - `loops` — decisions of the reconnecting stream loop and of the listen-key keep-alive loop;
  - `clock` — event timestamps in nanoseconds;
  - `command` — the command named by the `cmd` member of a JSON message from the C++ side.
- `app/` — the C ABI: C strings, process-wide state, client construction, network calls, threads.
- `tests/` — tests of the library on concrete values.
