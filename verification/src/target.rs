use vstd::prelude::*;

verus! {

/// The operating system or architecture a program is built for.
///
/// Exactly one target is active per build. A build for a platform
/// with no variant of its own is represented by `Other`, which no
/// selector is named after.
#[derive(Clone, Copy, Debug, PartialEq, Eq, Structural)]
pub enum Target {
    Ios,
    Android,
    Windows,
    Macos,
    Linux,
    Wasm32,
    Emscripten,
    Freebsd,
    Openbsd,
    Dragonfly,
    Netbsd,
    Redox,
    Other,
}

} // verus!
