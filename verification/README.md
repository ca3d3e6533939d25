# meal_planner

A meal-planning assistant that chats with an LLM, plans dinners from a Mealie
recipe server and remembers what was cooked.

- `src/` is the verified library (Verus): the agent's conversation loop as a
  state machine (`agent`), the tool schemas and call routing (`schema`, `tools`),
  the conversation model and endpoint choice (`llm`), Mealie request
  construction (`mealie`), meal-memory records (`memory`), the executor's
  decisions (`executor`), calendar dates (`calendar`), prompt-line handling
  (`repl`) and text helpers (`text`).
- `app/` is the program around it: configuration loading, the HTTP and SQLite
  I/O, the async driver of the conversation loop, telemetry and the REPL.
- `tests/` exercises the library on concrete values.
