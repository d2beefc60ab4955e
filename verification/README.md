# CableScope

Inspects the USB ports of a Windows machine and the devices plugged into
them: controllers (hubs), their ports with speed and occupancy, the
peripherals with their identity from a VID:PID database, the physical port
each one sits on, and an inferred power role (charger, charging phone, hub,
camera).

The library in `src/` is verified with Verus: its functions carry contracts
over a mathematical model (strings as sequences of characters, lists as
sequences, the database tables as maps) and the proofs are checked.

## Layout

- `src/devices.rs`, `src/device_db.rs`: the VID:PID database and lookups,
  the power role of a device; `src/db_facts.rs`: what holds of every entry
  of the tables, shown entry by entry.
- `src/usb/mod.rs`: the snapshot records, the assembly of a full scan from
  what was read off the system, and the targeted re-scan of one controller.
- `src/usb/hubs.rs`: hub interface paths, controller names, port status
  words, the hub key that pairs a hub's interface path with its instance ID.
- `src/usb/nodes.rs`: device nodes: VID/PID, class, hub port, display name,
  and the collapsing of composite devices into one entry.
- `src/usb/guid.rs`: interface class GUIDs as the registry spells them.
- `src/usb/monitor.rs`: device-change window messages and their events.
- `src/logger.rs`: UTC calendar date and time of day, log lines and the list
  of days that have a log.
- `src/ucsi.rs`: Type-C connector status (reported as unavailable).
- `src/instance.rs`: the process ID held by the single-instance lock file.
- `src/text.rs`: character-level helpers shared by the rest.
- `app/`: the command-line program: Win32 calls (SetupAPI, cfgmgr32,
  registry, hub IOCTLs, the hidden notification window), files, clock, and
  JSON output. On other systems the scan reads nothing and comes back empty.
- `tests/`: tests of the library.
