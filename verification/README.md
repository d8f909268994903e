# greentic-dev

The developer CLI of the Greentic platform: it hands `flow`, `pack`,
`component` and `gui` to the matching Greentic tools on the running toolchain
channel, installs a tenant's tools and docs, runs the launcher wizard that
delegates to the pack and bundle wizards, checks coverage against a policy,
and prepares toolchain release manifests.

## Layout

- `src/` — the library, verified with Verus: channel and binary naming,
  message catalogues and locale choice, configuration discovery, the
  wizard's runs, plans, answers and execution gates, tenant manifests and
  install plans, release manifests and their publication gates, component
  checks and scaffolding, each with its contract. Calls into other crates
  (`semver`, `sha2`, `unic-langid`, `reqwest`'s URL and status types,
  `convert_case`, `serde_json`, `jsonschema`) go through small trusted
  wrappers whose contracts say what is relied on.
- `app/` — the executable: argument parsing, files, network, processes and
  the terminal. It carries out what the library decides, and keeps what
  cannot be verified here: the coverage policy (floating point) and the
  loop that runs a plan's commands one by one.
- `tests/` — tests of the library's functions on concrete values.

## Message catalogues

Messages are looked up by key in JSON catalogues read at start-up from the
directory named by `GREENTIC_DEV_I18N_DIR`, else from `i18n/` beside the
executable: `locales.json` lists the locales, and `<locale>.json` maps
message keys to texts. A key without a text in the chosen locale falls back
to its language, then to English, then to the key itself.
