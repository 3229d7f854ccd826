# simplehttp

A small synchronous HTTP client interface with several platform transports
(reqwest, Fastly Compute, Spin, ESP-IDF), verified with Verus.

- `src/` is the verified library: the error and response types and their
  descriptions, the `SimpleHttpClient` trait whose convenience methods issue
  one request each and hand back the response body, the preparation of each
  transport's request (which header names, header values and urls its HTTP
  stack accepts, and the error for a refused url), the rules by which each
  transport turns what it received into a result (which headers are kept,
  which statuses are refused, how a body is read chunk by chunk, which
  message each failure carries).
- `app/` holds the transports themselves: each turns the prepared request into
  the platform's request, sends it, and hands what came back to the library.
- `tests/` runs the library on concrete values.
