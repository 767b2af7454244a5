# argala

A verified policy engine that vets the tool calls of an AI agent. A call is
refused when its method is outside the allow-list of a configured engine (an
engine built without any configuration allows every method); blocked when a
keyword parameter breaks an exact-value or maximum limit of a policy file; and
blocked when a plugin's pattern matches one of its string arguments. Denied
texts given in a configuration are matched as case-insensitive substrings;
patterns of the built-in plugins and of a policy file are case-insensitive
regular expressions.

- `src/signature.rs`: the two trusted calls into the `regex` crate, the
  specification of a signature scan (arguments in order, then signatures in
  order) and its verified implementation.
- `src/text.rs`: case-insensitive substring search (over `str::to_lowercase`).
- `src/limits.rs`: exact-value limits on keyword parameters.
- `src/plugins/`: the built-in guards, the `Plugin` enum the engine runs and
  `get_default_plugins`.
- `src/engine.rs`: the user plugin, the engine built from a configuration or
  a policy file, call inspection and output redaction.
- `src/laws.rs`: properties that hold for every engine and every call.
- `app/`: the Python bindings (pyo3), reading and parsing the TOML policy file, and the
  numeric maximums of parameters (floating point).
