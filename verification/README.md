# smolvm_graphics

The verified core of the SmolVM native graphics agent, written in Verus.

`src/` is the library; every function in it is verified:

- `gpu_flags` — the virglrenderer flag word for the hypervisor's GPU options.
- `config`, `boot_config` — the machine record and boot configuration as the
  graphics code reads them.
- `status` — the non-secret graphics status derived from the machine record,
  merged with the guest probe, including the renderer qualification.
- `shm_protocol` — local-shm endpoint metadata, frame metadata validation and
  the control messages.
- `frame_ring` — the byte layout of the shared frame-ring file.
- `frame_convert` — pixel conversion to RGBA, damage clamping and the planned
  ring-file writes for one frame; scanout parameter checks.
- `input_state`, `input_device` — translation of control messages into Linux
  input events with held-key/button tracking, and the virtual devices'
  capabilities.
- `text` — ASCII case folding, substring/prefix tests and decimal rendering.
- `paths` — path comparison by components (repeated `/`, `.` components and
  a trailing `/` do not count), used to check endpoint paths.

`app/` holds the I/O around it: serde wire forms of the library's types, the
local-shm bridge worker (sockets, threads, the frame-ring file, peer
credentials) and the hypervisor callback objects, and the graphics session.
