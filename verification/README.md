# fix-automation

A rescue tool for Linux systems that no longer boot: booted from a USB stick,
it finds the disks, lets the user pick the root and EFI partitions, diagnoses
the installed system and repairs GRUB and `/etc/fstab` from a chroot.

The decisions of the tool are a library verified with Verus; the program
around it draws the terminal interface and talks to the system.

## Layout

- `src/` — the verified library (`fix_automation`)
  - `text` — the string operations the parsers use, specified as `str` documents them
  - `blkdev` — which partitions are EFI system partitions, the disk list from
    `lsblk` and `/sys/block` (or from `/proc/partitions`), `/proc/mounts`
  - `distros` — `/etc/os-release` and what each distribution family needs
  - `fstab` — the audit of `/etc/fstab` against the live partitions
  - `grub` — the GRUB repair as a state machine, the os-prober setting
  - `repair` — the repair and diagnosis jobs as state machines
  - `host` — the requests the jobs make of the system and the replies
  - `app` — the interface state: screens, menu, key handling, progress log
  - `mounts` — bind mounts and the order in which mounts are taken down
  - `init` — bringing the system up when the tool is the init process
  - `network` — the address shown on the welcome screen
  - `laws` — properties of the library as a whole, proved
- `app/` — the program: terminal, event loop, threads, system calls, screens
- `tests/` — tests of the library
