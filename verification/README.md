# agent_reagents

A template-driven VM image builder: YAML template manifests describe a base
image, cloud-init packages, post-boot steps and the checks a finished image
must pass; the builder provisions a VM, drives it over SSH, verifies it and
records the resulting template in a checksummed registry.

The library under `src/` is written in Verus. Its functions carry
`requires`/`ensures` contracts that Verus proves, except a few small trusted
wrappers around std and `sha2` calls (string appends, lowercasing, `Debug`
formatting, SHA-256, and a file-existence probe), whose contracts are
believed rather than proved. The decisions of the build
(state machine, cloud-init plan, post-boot steps, reboot and network
recovery, package verification, registry bookkeeping, JSON-RPC dispatch,
lab cleanup) are functions from plain values to plain values.

- `src/templates/` — manifests, their validation, and the template registry
  (index invariant: one record per name, keyed by that name).
- `src/builder/` — build states, cloud-init and post-boot planning, the SSH
  command lines and the interpretation of their replies, reboot tracking,
  network monitoring decisions, and installation verification.
- `src/images.rs`, `src/packages.rs` — image and package catalogue logic.
- `src/server/` — JSON-RPC method dispatch, error codes and replies.
- `src/cleanup.rs`, `src/cli.rs` — lab cleanup and command-line output.
- `src/text.rs` — string specifications and operations shared by the rest.

`app/` is ordinary Rust around the library: the command-line program, file
and network I/O, the SSH and libvirt calls, serde encodings, and the async
loops that perform the actions the library decides. `tests/` exercises the
library through its public API.
