# kbuild

`cargo kbuild` builds an out-of-tree FreeBSD kernel module (`.ko`) from a `no_std` Rust
crate, against a regular FreeBSD source tree, with the LLVM tools that come with the Rust
toolchain. `cargo kbuild ktest` also boots the module in a FreeBSD VM under QEMU and
proves that it loads and unloads.

- `src/` is the library, verified with Verus. It decides and computes, and asks its
  caller for everything that touches the machine:
  - `cli`, `args`, `ktest_args`: the command line.
  - `machine`, `sysdir`, `toolchain`, `manifest`, `bindings`: what a build has to find out.
  - `commands`, `export`, `pipeline`: the build, in the steps of `sys/conf/kmod.mk`.
  - `image`, `iso`, `qemu`, `console`, `session`, `vm`, `ktest`: the test in a VM.
  - `module`: the events of a module and the kernels that it loads on.
  - `manifest_laws`, `pipeline_laws`, `ktest_laws`: what holds of a manifest, a build and
    a test as a whole.
  - `text`, `stream`, `path`, `error`, `host`: what the others are made of.
- `tests/` runs the library on concrete values.
- `app/` is the program around it: files, processes, downloads, the serial console, the
  binding generator, and the macros that a module is declared with.

Supported machines are `amd64` and `arm64`.

```sh
cargo kbuild --sysdir ../freebsd-src -p examples/hello
cargo kbuild ktest --sysdir ../freebsd-src -p examples/hello
```
