# sketchybarrc

A sketchybar configuration written as a verified library plus a thin program.

- `src/` is the library, verified with Verus. It models sketchybar's item
  properties and renders them to command-line arguments, builds the command
  lines of sketchybar's API (`--add`, `--set`, `--subscribe`, ...), and holds
  the decisions of each bar item: reading the output of the system tools
  (`pmset`, `ioreg`, `scutil`, `networksetup`, `PlistBuddy`, ...), choosing
  icons and labels, ordering Wi-Fi networks, building popups, and mapping
  daemon messages to events. `props` is the builder API's property model,
  `item_model` the older item model with its own defaults, and `json` the
  JSON reports of `system_profiler` and `sketchybar --query` as plain values. Every public function states its result in its
  contract; the laws (round trips of event names and colors, the ordering of
  networks, shell quoting, one focused workspace) are proof functions.
- `tests/` runs the library on concrete values.
- `app/` is the program: argument handling, running sketchybar and the
  system tools, the daemon's Unix socket, the macOS notification watcher,
  Bluetooth scanning and MediaRemote access, and the floating-point readings
  (CPU load, battery power and health, volume levels).
