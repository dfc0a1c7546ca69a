# ob_handlers

The business rules behind a marketplace's request handlers and scheduled jobs,
written in Rust and verified with Verus: which requests are refused and why,
what is stored and answered, and what each job selects and computes.

- `src/` is the verified library. Documents are `serde_json::Value`s; their
  contents are seen through `json::json_of` as mathematical trees. Every public
  function states its result in its contract; the functions named `law_*` are
  proofs about the library as a whole.
- `app/` holds the HTTP routes, the jobs, the queries and the JSON forms of
  requests and answers. It looks things up, asks the library for the next step,
  and carries it out.
- `tests/` runs the library on concrete values.

Modules of the library:

| module | what it decides |
| --- | --- |
| `identity` | whom a request may act for |
| `addresses`, `geocoding` | buyer addresses and address completion |
| `chat` | threads, messages, sanitizing, support chat |
| `coupons` | codes, discounts, applying, creating and redeeming |
| `digital` | licenses, devices and download links |
| `email` | the markup of emails and whom they go to |
| `cron` | locks, payouts, expiry, stock, carts, metrics, recommendations |
| `text`, `json`, `time`, `lists`, `ids` | what the others are built from |
