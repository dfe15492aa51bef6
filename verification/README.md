# worktree_commands

Two commands on the git worktrees that a storage keeps for several repositories:
`jump` tells where a worktree is, so that a shell can go there, and `remove` takes a
worktree away together with its branch.

* `src/` is the library, verified with Verus. It holds everything that the commands
  decide: which worktrees are listed and in which order, which one a name means, what
  is removed, in which order, and what is said about it. A command is a session that
  asks for one thing at a time and is told what came of it, so the library itself
  touches neither the file system nor git. `src/world.rs` tells what a command comes to
  in given surroundings, and `src/laws.rs` proves it.
* `app/` carries out what a session asks for, over the traits in `app/backend.rs`.
* `tests/` runs the commands against surroundings made up for the purpose, and the
  reading of a HEAD against real repositories.
