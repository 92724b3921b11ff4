# gateway

An identity gateway: a REST and OpenID Connect front for an auth service and a user
service that speak gRPC. What the gateway decides is a verified library; the server
around it is ordinary Rust.

## The library (`src/`)

Every decision is a function with a contract that Verus proves. The library does no I/O:
a handler that waits for a service is split into phases, each of which takes the answer
of the one before it and returns a reply or the next question.

| module | what it holds |
| --- | --- |
| `router`, `docs` | the table of endpoints: paths, methods, guards, documentation files |
| `middleware`, `clients`, `metadata` | authentication, permissions, how identity travels to the services |
| `handlers` | the REST endpoints: the call each makes and the reply it makes of the answer |
| `authorize`, `session`, `pages` | the browser flow: sign-in, signed session cookie, consent, codes, tokens |
| `oidc` | discovery and published keys |
| `ratelimit` | the fixed-window limiter per client address |
| `error`, `reply`, `json`, `headers` | how answers are shaped |
| `config` | what the gateway is configured with |
| `text`, `codec` | strings as sequences of characters, and encodings |
| `messages` | the messages of the services |

Functions named `law_...` state what holds of the gateway as a whole: that no page is an
open redirect, that a code needs a session and consent, that internal detail never leaks,
that a window admits exactly its limit, that escaped text is inert, and so on.

What the library takes from other crates without proof (base64, HMAC-SHA-256, form
encoding, header and metadata maps) stands behind small functions marked
`#[verifier::external_body]` in `codec`, `headers` and `metadata`, each with the contract
that is believed of it.

## The server (`app/`)

`axum` routes, `tonic` clients, the Redis store of the rate limiter, and the types that
are read off the wire. The gRPC clients and messages come from the workspace's `proto`
crate, telemetry and environment helpers from its `common` crate; the documentation's
files are embedded from `openapi.yaml` and `swaggerui/`.
