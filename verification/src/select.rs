use vstd::prelude::*;

use crate::target::Target;

verus! {

/// What one selector call yields: the replacement when the active
/// target is the one the selector is named after, else the original
/// value unchanged.
pub open spec fn select_spec<T>(target: Target, wanted: Target, original: T, replacement: T) -> T {
    if target == wanted {
        replacement
    } else {
        original
    }
}

/// A selector for the active target yields its replacement.
pub proof fn lemma_select_match<T>(target: Target, wanted: Target, original: T, replacement: T)
    requires
        wanted == target,
    ensures
        select_spec(target, wanted, original, replacement) == replacement,
{
}

/// A selector for any other target leaves the value unchanged.
pub proof fn lemma_select_non_match<T>(target: Target, wanted: Target, original: T, replacement: T)
    requires
        wanted != target,
    ensures
        select_spec(target, wanted, original, replacement) == original,
{
}

/// Picks among platform-specific alternatives inline.
///
/// Each selector takes the active [`Target`] and a candidate
/// replacement, and returns the replacement exactly when the target
/// is the one the selector is named after. Selectors chain, so a
/// value can offer one alternative per platform in a single
/// expression; at most one selector of a chain can match a given
/// target, so the order of the others never matters.
pub trait Platform: Sized {
    /// Returns `input` when building for the WebAssembly architecture, else `self`.
    fn wasm32(self, target: Target, input: Self) -> (r: Self)
        ensures
            r == select_spec(target, Target::Wasm32, self, input),
    {
        if target == Target::Wasm32 {
            input
        } else {
            self
        }
    }

    /// Returns `input` when building for iOS, else `self`.
    fn ios(self, target: Target, input: Self) -> (r: Self)
        ensures
            r == select_spec(target, Target::Ios, self, input),
    {
        if target == Target::Ios {
            input
        } else {
            self
        }
    }

    /// Returns `input` when building for Android, else `self`.
    fn android(self, target: Target, input: Self) -> (r: Self)
        ensures
            r == select_spec(target, Target::Android, self, input),
    {
        if target == Target::Android {
            input
        } else {
            self
        }
    }

    /// Returns `input` when building for Windows, else `self`.
    fn windows(self, target: Target, input: Self) -> (r: Self)
        ensures
            r == select_spec(target, Target::Windows, self, input),
    {
        if target == Target::Windows {
            input
        } else {
            self
        }
    }

    /// Returns `input` when building for macOS, else `self`.
    fn macos(self, target: Target, input: Self) -> (r: Self)
        ensures
            r == select_spec(target, Target::Macos, self, input),
    {
        if target == Target::Macos {
            input
        } else {
            self
        }
    }

    /// Returns `input` when building for Linux, else `self`.
    fn linux(self, target: Target, input: Self) -> (r: Self)
        ensures
            r == select_spec(target, Target::Linux, self, input),
    {
        if target == Target::Linux {
            input
        } else {
            self
        }
    }

    /// Returns `input` when building for Emscripten, else `self`.
    fn emscripten(self, target: Target, input: Self) -> (r: Self)
        ensures
            r == select_spec(target, Target::Emscripten, self, input),
    {
        if target == Target::Emscripten {
            input
        } else {
            self
        }
    }

    /// Returns `input` when building for FreeBSD, else `self`.
    fn freebsd(self, target: Target, input: Self) -> (r: Self)
        ensures
            r == select_spec(target, Target::Freebsd, self, input),
    {
        if target == Target::Freebsd {
            input
        } else {
            self
        }
    }

    /// Returns `input` when building for OpenBSD, else `self`.
    fn openbsd(self, target: Target, input: Self) -> (r: Self)
        ensures
            r == select_spec(target, Target::Openbsd, self, input),
    {
        if target == Target::Openbsd {
            input
        } else {
            self
        }
    }

    /// Returns `input` when building for DragonFly BSD, else `self`.
    fn dragonfly(self, target: Target, input: Self) -> (r: Self)
        ensures
            r == select_spec(target, Target::Dragonfly, self, input),
    {
        if target == Target::Dragonfly {
            input
        } else {
            self
        }
    }

    /// Returns `input` when building for NetBSD, else `self`.
    fn netbsd(self, target: Target, input: Self) -> (r: Self)
        ensures
            r == select_spec(target, Target::Netbsd, self, input),
    {
        if target == Target::Netbsd {
            input
        } else {
            self
        }
    }

    /// Returns `input` when building for Redox, else `self`.
    fn redox(self, target: Target, input: Self) -> (r: Self)
        ensures
            r == select_spec(target, Target::Redox, self, input),
    {
        if target == Target::Redox {
            input
        } else {
            self
        }
    }
}

impl<T> Platform for T {

}

} // verus!
