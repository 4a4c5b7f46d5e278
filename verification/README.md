# IronKey

The logic of IronKey, a bootable forensics and drive-recovery environment
with a three-panel window (drives, file browser, terminal), as a Verus
library with its contracts proved.

- `src/` — the verified library: drive and partition enumeration from
  sysfs data, the mount table and probed superblocks, SMART parsing,
  filesystem detection by magic bytes, mount and format decisions, wipe
  passes, directory listings,
  glob and content search, the text/hex viewer, the ANSI terminal screen,
  size and rate texts, and the application's state machine (every event,
  the state it leads to and the outside work it asks for), with laws over
  all states in `app_laws.rs`.
- `tests/` — tests of the library.
- `app/` — the program: the iced window, and the reading of sysfs,
  procfs and directories, device ioctls, helper programs and the shell
  session that the library's decisions call for.
