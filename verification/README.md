# oxideterm_workspace

The decisions of a terminal workspace, verified with Verus: what a window does with what its user,
its stores and the hosts it is connected to say.

- `src/ai/`: one run of the assistant, round by round: the stream of an answer, the tool calls it
  asks for, their approval and their results, agents that work for another, and the compaction of
  a long task.
- `src/ai_state/`: the conversations, the journal of their changes, the pages of messages that a
  store hands back, and the records of agents.
- `src/workspace/`: the rest of the window: runtime handles, remote desktops, files on FTP servers,
  connection forms, settings, charts and the end of the application.
- `app/`: the side that talks to the machine: clocks, files and timers, and the drivers that carry out
  a run, a call, a transfer and what the history asks for.

State is held as plain values. What happens outside comes in as an argument, and what is to be done
outside comes back as a result or stands in a list of effects.
