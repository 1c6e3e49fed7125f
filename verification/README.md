# proc_qq

A framework for QQ bots, with its decisions verified by Verus.

Bots are built from modules of event handlers. When an event arrives, the
handlers that listen to its kind are offered it in order, until one
processes it or fails; the result handlers then hear what became of it.
The framework logs in (password, QR code, saved session), solves captchas
through a helper page, reconnects when the connection drops, and keeps the
session in a file.

## Layout

- `src/` — the verified library:
  - `handler/` — event kinds, handler kinds, result kinds, and the
    dispatcher that decides which handler is offered an event next;
  - `codegen/` — what the `event`, `result`, `module!` and `event_fn`
    macros make of a handler: the bot command items, the filter
    arguments, the binding of command parameters, and the source of the
    handler structs and impls they stand for;
  - `login.rs`, `client.rs`, `session.rs` — the login decisions, the client
    settings and their defaults, and the saved session's byte format;
  - `message.rs`, `entities.rs` — messages, their text and routes, members,
    images, and the captcha solvers;
  - `proxy.rs`, `scheduler.rs` — proxy connection plans and scheduled jobs;
  - `template/` — the rules of the template bot (sign-in, group admin,
    image library, daily sentence, configuration);
  - `text.rs`, `patterns.rs` — text helpers, and the calls into `regex`
    and `hex`.
- `app/` — the input and output around the library: files, HTTP, proxies,
  timers, the QQ client itself, and the macros' entry points, which read
  their input with `syn` and turn the library's source back into tokens.
- `tests/` — tests of the library on concrete values.
