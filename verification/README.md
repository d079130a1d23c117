# zene

The decisions of a coding-agent harness, written in Verus: what an agent may do, how
a turn runs, how its context is kept in bounds, and what clients are told.

`src/` is the verified library. It holds no input or output: each module takes what
happened as plain values and says what follows.

| module | what it decides |
| --- | --- |
| `permission`, `cloud_github` | whether a tool call runs, is refused or is asked about |
| `turn_state`, `turn_loop` | turns, their queues, and the steps of one turn |
| `actor` | the runtime that owns an agent: commands, queued prompts, recovery |
| `context_engine`, `context_run`, `context_step`, `context_projection` | pressure on the context, compaction, the preparation of a step, and what a projection holds |
| `agent`, `agent_builder`, `agent_events`, `prepare_step`, `subagent` | the agent itself: modes, assembly, events, steps, subagents |
| `model_executor`, `llm` | requests, and the assembly of streamed answers |
| `hooks`, `skills`, `builtin_tools`, `read_tool`, `publish` | hooks, skills and tools |
| `acp_server`, `acp_loop`, `acp_updates` | the Agent Client Protocol server |
| `text`, `json` | text and JSON values |

`app/` is ordinary Rust around the library: it performs the actions that the library
asks for and hands back what came of them. `tests/` runs the library on concrete
values.
