# DQ Gate

A policy for API gateways that holds inbound MCP calls and A2A message sends against the current
data-quality score of the asset behind them. A request whose asset is below the block threshold is
answered with an error of its own protocol and never reaches the upstream; one below the warn
threshold passes with a warning; everything that is no invocation passes untouched.

`src/` is the policy's logic, verified with Verus. It does no I/O: what has to be asked of a store, a
clock or an HTTP service is a step that it returns, and what came back is an argument of the next
call.

| Module      | What it holds                                                                  |
|-------------|--------------------------------------------------------------------------------|
| `recognize` | which requests are gated, and on which protocol's terms                        |
| `filter`    | the decision over a gated request, and the headers of an answer that passes     |
| `block`     | the answers to blocked requests                                                 |
| `resolve`   | which score to gate on: cached, live or none                                    |
| `cdgc`      | the calls that fetch a live score: login, token, asset detail                   |
| `storage`   | writing the cached score and acquiring the refresh lock among other writers     |
| `race`      | what the refresh lock promises to requests whose operations interleave          |
| `score`     | scores, their order, and how one is made of its dimensions                      |
| `clock`     | clock readings and the latency budget                                           |
| `config`    | the configuration, and what follows from it alone                               |
| `percent`   | percent-encoding                                                                |
| `json`      | `serde_json` as the rest sees it                                                |
| `text`      | text functions                                                                  |

Scores are binary64 numbers. The library orders them by their bits; rendering them and taking their
mean is left to its callers.

`app/` is the policy as the gateway runs it: filters, storage, clock and HTTP client of the PDK.
`tests/` runs single functions, the store protocols against stores that race and fail, and whole
requests.
