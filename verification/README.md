# botonio_botsci

A Discord bot that verifies the members of a server against a membership list, with the
decisions it takes stated and proved in Verus.

- `src/` is the library. Every command and background job is a function from where it stands
  and what just happened to where it stands next and what to do; its contract says exactly
  which. `render` writes the embeds, controls and forms, `commands` the slash commands, `sso`
  the signed single sign-on answer, and the modules beside them the configuration, the
  scheduled scan, the dues reminders and self-service verification.
- `tests/` runs the library on concrete values.
- `app/` is the process: it reads the environment, talks to Discord and to the membership
  engine over its local socket, and performs what the library decides.

Promises that span several functions stand in `src/` as public proof functions named `law_*`.
