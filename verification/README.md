# fastorder

The ordering core of FastOrder, a Telegram bot through which the customers of
a restaurant order without calling: they verify their phone number, pick
dishes with `+`/`−` buttons, confirm, and the order is dispatched to the
operators on shift in turn.

- `src/` is the library, verified with Verus: carts and their states, orders
  and their dispatch (round-robin choice of operators, seen and decision
  timeouts), phone-number normalization and customer authentication, the
  button data the bot reads, and the exact texts and keyboards it shows.
  Every use-case that talks to a store is split into decisions: a function
  takes what the store answered and says what to do next.
- `tests/` runs the library on concrete values.
- `app/` is the unverified shell: the store interfaces, the asynchronous
  use-cases that perform the library's decisions against them, and the
  Telegram handlers.
