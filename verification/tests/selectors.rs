use platform::{Platform, Target};

#[test]
fn matching_selector_replaces() {
    assert_eq!("unknown".linux(Target::Linux, "linux"), "linux");
    assert_eq!(1u64.windows(Target::Windows, 2u64), 2u64);
    assert_eq!("unknown".wasm32(Target::Wasm32, "wasm32"), "wasm32");
}

#[test]
fn non_matching_selector_keeps_value() {
    assert_eq!("unknown".ios(Target::Linux, "ios"), "unknown");
    assert_eq!(1u64.linux(Target::Windows, 2u64), 1u64);
    assert_eq!(7i32.redox(Target::Macos, 9i32), 7i32);
}

#[test]
fn full_chain_picks_active_target() {
    let got = "unknown"
        .ios(Target::Linux, "ios")
        .android(Target::Linux, "android")
        .windows(Target::Linux, "windows")
        .macos(Target::Linux, "macos")
        .linux(Target::Linux, "linux")
        .wasm32(Target::Linux, "wasm32")
        .emscripten(Target::Linux, "emscripten");
    assert_eq!(got, "linux");
}

#[test]
fn chain_without_active_target_keeps_original() {
    let got = "unknown"
        .ios(Target::Other, "ios")
        .android(Target::Other, "android")
        .windows(Target::Other, "windows")
        .macos(Target::Other, "macos")
        .linux(Target::Other, "linux")
        .wasm32(Target::Other, "wasm32")
        .emscripten(Target::Other, "emscripten")
        .freebsd(Target::Other, "freebsd")
        .openbsd(Target::Other, "openbsd")
        .dragonfly(Target::Other, "dragonfly")
        .netbsd(Target::Other, "netbsd")
        .redox(Target::Other, "redox");
    assert_eq!(got, "unknown");
}

#[test]
fn order_of_other_selectors_does_not_matter() {
    let t = Target::Android;
    let first = "unknown".android(t, "android").ios(t, "ios").windows(t, "windows");
    let middle = "unknown".ios(t, "ios").android(t, "android").windows(t, "windows");
    let last = "unknown".ios(t, "ios").windows(t, "windows").android(t, "android");
    assert_eq!(first, "android");
    assert_eq!(middle, "android");
    assert_eq!(last, "android");
}

#[test]
fn last_selector_for_active_target_wins() {
    let t = Target::Freebsd;
    let got = 0u8.freebsd(t, 1u8).openbsd(t, 2u8).freebsd(t, 3u8);
    assert_eq!(got, 3u8);
}

#[test]
fn every_selector_matches_its_own_target() {
    assert_eq!(0i32.wasm32(Target::Wasm32, 1i32), 1i32);
    assert_eq!(0i32.ios(Target::Ios, 1i32), 1i32);
    assert_eq!(0i32.android(Target::Android, 1i32), 1i32);
    assert_eq!(0i32.windows(Target::Windows, 1i32), 1i32);
    assert_eq!(0i32.macos(Target::Macos, 1i32), 1i32);
    assert_eq!(0i32.linux(Target::Linux, 1i32), 1i32);
    assert_eq!(0i32.emscripten(Target::Emscripten, 1i32), 1i32);
    assert_eq!(0i32.freebsd(Target::Freebsd, 1i32), 1i32);
    assert_eq!(0i32.openbsd(Target::Openbsd, 1i32), 1i32);
    assert_eq!(0i32.dragonfly(Target::Dragonfly, 1i32), 1i32);
    assert_eq!(0i32.netbsd(Target::Netbsd, 1i32), 1i32);
    assert_eq!(0i32.redox(Target::Redox, 1i32), 1i32);
}

#[test]
fn works_on_owned_values() {
    let got = String::from("unknown")
        .macos(Target::Macos, String::from("macos"))
        .linux(Target::Macos, String::from("linux"));
    assert_eq!(got, "macos");
}

fn unknown_name() -> String {
    String::from("unknown")
}

fn linux_name() -> String {
    String::from("linux")
}

fn windows_name() -> String {
    String::from("windows")
}

#[test]
fn works_on_function_pointers() {
    let picked = (unknown_name as fn() -> String)
        .windows(Target::Linux, windows_name)
        .linux(Target::Linux, linux_name);
    assert_eq!(picked(), "linux");
}
