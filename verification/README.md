# Session control

A Peckboard plugin, with its logic as a verified library. It has two surfaces.

**Session control.** One session takes control of another: it interrupts it,
terminates its agent, clears it, or sends it a message or an image. Targets in
the caller's own folder are acted on immediately. For a target in another folder
the user is asked (*Approve once* / *Approve always* / *Deny*); after *Approve
always* the controlling session is not asked about again. Looking sessions up
needs no approval.

**Orchestrators.** An orchestrator drives a goal to completion through a brain
session. It fires on a schedule, when a watched session goes idle, and by a
watchdog while the goal is not done. Guards: an hourly cap (which pauses), a
cooldown, coalescing while the brain is busy, backoff after failures (which
disables), and a global kill switch.

## Layout

`src/` is the library; every item of it is checked by Verus.

| Module | What it holds |
| ------ | ------------- |
| `text`, `time`, `named`, `json` | text, timestamps, values under names, JSON documents |
| `records` | orchestrator records and their stored form |
| `host` | requests to the host, its answers, and the envelope of the answers |
| `state` | the document store: records, clock, kill switch, busy marks |
| `engine` | guards, fires, prompts, and the engine's hooks |
| `authorize`, `control` | cross-folder approval and the session-control tools |
| `orch_tools` | the tools of orchestrator brains |
| `page`, `page_html` | the management page and its routes |
| `manifest`, `hooks` | the manifest, and the dispatch of hooks to verdicts |
| `*_laws` | what holds across functions |

The library never reaches the host. A computation is given the answers received
so far, writes down each request it makes, and stops at the first one without an
answer. Contracts say, for every sequence of answers, which requests are made
and what comes out. `app/` performs the requests: it runs a hook, carries the
open request out, adds the answer, and runs the hook again until there is a
verdict. It also reads stored documents as records.

`tests/` runs the library against scripted hosts.

## What is trusted

`serde_json` reads and writes JSON text, and `chrono` reads, writes and adds
timestamps. Their functions stand behind small items with stated contracts, at
the top of `json` and `time`; two string functions of the standard library stand
likewise in `text`.
