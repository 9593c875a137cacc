# AgentTool

AgentTool is the local hub of a workflow with several coding agents: a daemon that
hands tasks to agents, records what becomes of them, and lets a main agent decide on
what the others report. State is kept in memory, every change of it is written to
SQLite, and dashboards and bridges follow it over websockets.

The rules of the workflow are a library, `src/`, whose behaviour is stated in
contracts and proved with Verus. The programs around it, `app/`, do the work that
needs the outside world.

## How the library works

The state of the daemon is `state::AppShared`; its model is `state::World`. Each
operation changes the state and puts what has to happen outside into the outbox, in
order: rows to write, events to publish, messages to send. The program empties the
outbox after every operation; where a row cannot be written, it gives up the whole
operation, in the database and in memory. Where a request needs outside work in the middle (a
round of an agent, the end of a process, a query of the ledger), the library answers
with the next step, and the program comes back with the outcome.

| module | what it is about |
|---|---|
| `text`, `time`, `json`, `ids` | texts, instants, JSON values, fresh identifiers |
| `models`, `control` | the records, the messages, the requests and their answers |
| `table`, `order`, `state`, `snapshot` | the state, its order, and what dashboards see of it |
| `draft`, `decision`, `tasks`, `work`, `decide` | tasks, reports and decisions |
| `agents`, `sessions`, `rounds`, `managed`, `panes` | agents, their sessions, rounds, app servers and windows |
| `bridge`, `host` | mailboxes and bridge sessions, on both sides |
| `backend`, `remote`, `prompts` | what a round is told, how it is launched and how its output is read |
| `startup`, `repair`, `removal` | recovery at the start, repair, removal of agents |
| `dispatch` | what a control request leads to |
| `storage`, `config`, `reports`, `watch` | rows of the database, configuration, what clients print |
| `course` | everything that can happen to the state, one after another |
| `keeping`, `ledger`, `binding`, `promises`, `upkeep`, `delivery` | what holds of all of it |

## What is proved beyond the single operations

- `keeping`: records are filed once, mailboxes stay in order, recent history stays
  within its limit, whatever request, message or event comes in.
- `ledger`: what the database holds after the outbox is emptied is what is in memory;
  where agents are removed, after their rows are deleted as planned.
- `binding`: an agent that was given a task stays with it and is refused any other,
  whatever happens, until the task is closed, cancelled, failed or removed, or the
  agent is removed or registered again.
- `promises`: decisions reopen or close tasks, a busy agent is refused, a refused
  request changes nothing but in the cases that `may_stop_halfway` names.
- `upkeep`: repair brings the records into line, leaves sessions that can be stopped
  alone, and is idempotent; a removed agent
  leaves nothing behind; a start leaves no session running.
- `delivery`: nothing in a mailbox is lost before it is acknowledged, and a bridge
  session that was replaced changes nothing.

## Programs

`agenttool agentd` is the daemon, `agenttool agentctl` the control client,
`agenttool agenthost` the bridge client of one agent, and `agenttool agentwatch` a
read-only viewer.
