# pnut

Sandbox planning, child setup and supervision for Linux, with the decisions
verified in Verus.

A sandbox is run in two processes. The parent turns a configuration into a spec,
starts a child in new namespaces, writes its id maps, lets it go and supervises
it. The child carries out the spec step by step and executes the command; when a
step fails it tells the parent in a fixed record, and it can leave evidence that
every required step succeeded.

The library in `src/` decides; it makes no system call. Each side is a machine
that gives a command and takes the answer:

- `launch` and `supervise`: the parent,
- `runtime` and `mount`: the child,
- `io`: whole reads and writes.

The rest is what they work with:

- `config`, `prepare`, `arena`: the configuration, and how it becomes a spec,
- `child`, `zstr`: the spec,
- `report`, `completion`, `failure`, `bytes`: the two records, and what is said
  of a failure,
- `clone`, `idmap`, `net`, `seccomp`: single requests to the kernel,
- `text`, `sys`, `error`: numerals, Linux numbers and errors.

What holds of whole runs is proved in `runtime::laws`, `mount::laws` and
`launch::laws`, and beside the functions elsewhere, under names that begin with
`law_`.

`app/` performs the commands with `libc` and `nix`. The program that embeds it
brings the primitives of `Primitives` along.
