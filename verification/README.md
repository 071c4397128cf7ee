# rpc_gateway

An RPC gateway for Ethereum networks: it relays JSON-RPC calls to the endpoints of each
chain, answers some calls itself, caches responses for as long as the chain allows, shares
identical in-flight calls, retries failed upstream calls, and shares node subscriptions between
WebSocket clients.

The library under `src/` is written in Verus, and Verus proves the contracts its functions
carry. It holds the gateway's decisions: reading the settings file, grouping endpoints
by chain, routing HTTP paths, relaying through endpoints until one answers, the cache lifetimes
of Ethereum calls, the gateway's own answers, retry timing, the plan for a request, the
commands of WebSocket clients and the bookkeeping of their subscriptions, and the table of
identical calls in flight.

`app/` is the program around it: the HTTP and WebSocket servers, the upstream requests, the
local and Redis caches, the upstream health checks, the metrics and the JSON forms of the
messages. It runs the I/O and asks the library what to do next.

`tests/` holds the tests of the library.
