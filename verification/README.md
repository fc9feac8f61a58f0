# doido_auth

Devise-style authentication for the Doido web framework: configuration,
validation, the auth route table and its `auth_routes!` macro language,
session and JWT helpers, OAuth URLs, TOTP two-factor enrollment, and the
`auth:*` code generators. Every executable function in `src/` carries a
contract that Verus proves; the I/O around them (files, HTTP, the clock,
databases) stays outside.

## Layout

- `src/` — the verified library.
  - `text.rs`: character-level string operations (`trim`, `lines`,
    `replace`, ...) with their specifications and the laws of `lines`.
  - `config.rs`, `registry.rs`, `state.rs`: the `auth:` configuration, the
    custom strategy names, and the strategy chain built at boot.
  - `validations.rs`, `session.rs`, `lockable.rs`, `recoverable.rs`,
    `confirmable.rs`, `rememberable.rs`, `trackable.rs`, `mail.rs`: module
    behaviours as decisions on plain values.
  - `jwt.rs`, `extractors.rs`, `oauth.rs`, `two_factor.rs`: signing and
    verifying JWTs, bearer headers, OAuth URLs and requests, TOTP secrets
    and codes.
  - `route_plan.rs`, `route_dsl.rs`: the route table and the
    `auth_routes!` language (tokens, options, expansion).
  - `controllers.rs`, `forms.rs`, `chat.rs`: what controller actions answer.
  - `generators/`: the `auth:install`, `auth:controller`,
    `auth:controllers` and `auth:scaffold` generators, the text edits they
    make to an application's sources, and the laws that those edits are
    idempotent (each law names the inputs it leaves out: lines that keep a
    trailing `\r`, names holding a newline, and routes whose auth-aware block
    is hidden behind a rewritten import).
- `app/` — the I/O around the library: reading YAML config, the clock and
  request headers for JWTs, the OAuth token exchange over HTTP, process-wide registries, and running
  generators against files on disk.
- `tests/` — tests of the library on concrete values.
