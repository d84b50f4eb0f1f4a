# kudu

A terminal interface for creating, running and editing QEMU virtual machines
on Linux, without libvirt.

## Layout

- `src/` is the verified library (Verus). It holds the logic: the forms and
  how each key changes them (text fields are edited through `tui-input`,
  whose result the library names and carries into its contracts), the checks of their fields, the VM descriptions
  built from them, the QEMU, `qemu-img` and `xorriso` argument lists, the
  file layout of a VM, the firmware lookup, and the parsers of
  `/proc/meminfo`, `/etc/os-release`, IPv4 addresses, MAC addresses and
  `qemu-img` reports. Each public function states its result in its
  contract, and the laws of the library (round trips, what a key followed by
  its opposite gives back, how notifications age) are proof functions.
- `app/` is the program around it: the terminal UI, the event loop, QEMU's
  QMP sockets, downloads of cloud images and the files kept on disk.
- `tests/` runs the library on concrete values.
