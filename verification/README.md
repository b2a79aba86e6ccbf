# wt

The verified core of `wt`, a tool that manages git worktrees.

- `src/` is the library, verified with Verus: the git invocations of the
  repository operations (`git_ops`), the plans and texts of `wt diff`
  (`diff`), `wt status` (`status`) and `wt exec` (`exec`), the decisions of
  snap mode with its merge and cleanup plans (`snap`), the choice of the trunk
  (`trunk`), path containment (`paths`) and decimal numbers and joined words
  (`text`).
- `app/` runs the processes, reads the file system, parses the options with
  clap, prints, and serialises the status report as JSON. The services of the
  rest of the tool (configuration, repository queries, the agent runner, the
  prompt, worktree metadata) reach it through the `Env` trait.
- `tests/` runs the library on concrete values.
