# tokencode

The provider-neutral core of a coding agent, written and proved in Verus. One
vocabulary of requests and events stands for every model; the core translates it
to and from the OpenAI Responses, Chat Completions, Anthropic Messages and Gemini
protocols.

- `src/` is the library. Every function states in its contract what it returns;
  proof functions whose names begin with `law_` state what holds across
  functions.
  - `text`, `json`, `codec`, `headers`: texts, documents and headers as
    mathematical values, and the few calls into `serde_json` and `http`.
  - `models`, `events`, `unified`, `wire`: what goes in and out.
  - `adapters`: requests from the neutral form to each protocol.
  - `sse`: answers of each protocol, assembled frame by frame.
  - `endpoint`, `retry`: credentials, headers, bodies, and when to try again.
  - `model_provider_resolver`, `models_manager`, `model_instructions`: which
    provider a model is asked through, and what it is told first.
  - `tool_name`, `tool_spec`, `tool_catalog`: tools, and what a model learns of
    them.
  - `progress`: the progress that a model reports beside its actions.
  - `turn`: what is done with the items that a model puts out.
  - `rollout_budget`, `connectors`: token budgets and connectors.
- `tests/` runs the library on concrete values.
- `app/` is the plumbing around it: transports, tasks, timers and files.
