# arieltune

The decision logic of a tuning suite for the BC-250 board, as a verified library, and the program
around it.

A command does not act by itself. It is a *plan*: a sequence of steps, each of which hands the host
one action (print a line, pin a clock, save a setting) and says what becomes of the reply. A reply
may be ignored, may have to be a success, or is decided on, and what was decided is carried out
before the rest. `cli::run` opens a command; a `session::Session` gives the next action, takes its
reply, and in the end the outcome. Every text, every order of actions and every refusal is in the
contracts.

## Layout

- `src/commands.rs`, `src/model.rs`: the command tree, and the plain values that cross between the
  library and the host.
- `src/plan.rs`, `src/session.rs`, `src/decide.rs`, `src/cli.rs`: plans, sessions, the decisions on
  replies, and the entry.
- `src/gpu.rs`, `src/boot.rs`, `src/cpu.rs`, `src/cu.rs`, `src/profiles.rs`, `src/patches.rs`,
  `src/liberate.rs`: the commands.
- `src/compat.rs`, `src/entry.rs`: the names under which the suite is started, and which tool a
  command line is for.
- `src/text.rs`, `src/scan.rs`: rendering and scanning of text.
- `src/protocol.rs`, `src/trace.rs`, `src/order.rs`: which replies suit which actions, the course of
  a command over any replies, and rules of order over such courses.
- `src/laws_*.rs`: what holds of whole commands, whatever the host answers. Each law is a public
  proof function.
- `app/`: the command line, the host that performs the actions, and `main`. It is built in the
  workspace of the suite, whose modules (`config`, `migrate`, `shell`, `tabs`, `uninstall`) and
  member crates (`apu`, `mem`, `bios`, `wiki` and the hardware crates) it calls.
