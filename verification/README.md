# rebirth

The browser front end of the Rebirth knowledge system, with its behaviour
proved by Verus.

- `src/` is the verified library: the domain types, the permission rules,
  the JSON bodies sent to the API, the editing of attribute and link lists,
  the modal windows and their forms, the data explorer with its saved views,
  the security, templates, audit, login and profile pages, and the
  application shell. Every operation is a function from state and input to
  new state (and, where the server must be asked, a request value), with a
  contract over mathematical models. `src/laws.rs` and two proof functions
  in `src/encoding.rs` state properties that span several operations.
- `app/` is the program around it: local storage, the address bar, random
  bytes, the HTTP calls (gloo-net), the serde shapes of the API, and the
  floating-point geometry of modal windows.
- `tests/` runs the library on concrete values.
