# yral_auth

The decisions behind two parts of yral-auth, written in Verus and proved:

- `callback`: the page that the OAuth provider sends the browser back to. It reads the query,
  says whether and with which code the login has to be completed, and what the page shows.
- `plan`, `run`, `commands`, `quoting`, `secrets`, `hosts`: deployments. `plan` lists the steps of
  a task, `run` walks through them, `commands` writes the programs to run, `quoting` puts secrets
  into shell commands, `secrets` sorts out which are passed on, `hosts` reads the list of hosts.

`app/` holds what talks to the outside: the Leptos component, the programs and the environment.
