use fltk_build::platform::push_libraries;
use fltk_build::{
    library_name, link_directives, link_fltk, system_libraries, LinkDirective, LinkKind,
    LinkOptions, PlatformTarget,
};

fn names(files: &[&str]) -> Vec<String> {
    files.iter().map(|f| f.to_string()).collect()
}

fn all_linked() -> LinkOptions {
    LinkOptions { no_gdiplus: false, no_pango: false }
}

const HEAD: [&str; 7] = [
    "cargo:rustc-link-search=native=/b/fltk-sys-1/out/lib",
    "cargo:rustc-link-lib=static=fltk_images",
    "cargo:rustc-link-lib=static=cfltk.a",
    "cargo:rustc-link-lib=static=z.lib",
    "cargo:rustc-link-lib=static=cfltk",
    "cargo:rustc-link-lib=static=cfltk",
    "cargo:rustc-link-lib=static=fltk",
];

const FILES: [&str; 4] = ["libfltk_images", "libcfltk.a", "z.lib", "cfltk"];

const WINDOWS: [&str; 13] = [
    "cargo:rustc-link-lib=dylib=ws2_32",
    "cargo:rustc-link-lib=dylib=comctl32",
    "cargo:rustc-link-lib=dylib=gdi32",
    "cargo:rustc-link-lib=dylib=oleaut32",
    "cargo:rustc-link-lib=dylib=ole32",
    "cargo:rustc-link-lib=dylib=uuid",
    "cargo:rustc-link-lib=dylib=shell32",
    "cargo:rustc-link-lib=dylib=advapi32",
    "cargo:rustc-link-lib=dylib=comdlg32",
    "cargo:rustc-link-lib=dylib=winspool",
    "cargo:rustc-link-lib=dylib=user32",
    "cargo:rustc-link-lib=dylib=kernel32",
    "cargo:rustc-link-lib=dylib=odbc32",
];

const X11: [&str; 8] = [
    "cargo:rustc-link-lib=dylib=X11",
    "cargo:rustc-link-lib=dylib=Xext",
    "cargo:rustc-link-lib=dylib=Xinerama",
    "cargo:rustc-link-lib=dylib=Xcursor",
    "cargo:rustc-link-lib=dylib=Xrender",
    "cargo:rustc-link-lib=dylib=Xfixes",
    "cargo:rustc-link-lib=dylib=Xft",
    "cargo:rustc-link-lib=dylib=fontconfig",
];

const PANGO: [&str; 5] = [
    "cargo:rustc-link-lib=dylib=pango-1.0",
    "cargo:rustc-link-lib=dylib=pangoxft-1.0",
    "cargo:rustc-link-lib=dylib=gobject-2.0",
    "cargo:rustc-link-lib=dylib=cairo",
    "cargo:rustc-link-lib=dylib=pangocairo-1.0",
];

const MACOS: [&str; 3] = [
    "cargo:rustc-link-lib=framework=Carbon",
    "cargo:rustc-link-lib=framework=Cocoa",
    "cargo:rustc-link-lib=framework=ApplicationServices",
];

const ANDROID: [&str; 3] = [
    "cargo:rustc-link-lib=dylib=log",
    "cargo:rustc-link-lib=dylib=android",
    "cargo:rustc-link-lib=dylib=c++_shared",
];

fn expected(parts: &[&[&str]]) -> Vec<String> {
    parts.iter().flat_map(|p| p.iter()).map(|l| l.to_string()).collect()
}

fn system_lines(platform: PlatformTarget, options: LinkOptions) -> Vec<String> {
    system_libraries(platform, options).iter().map(|d| d.render()).collect()
}

#[test]
fn link_fltk_on_linux() {
    let lines = link_fltk("/b/fltk-sys-1/out", &names(&FILES), "linux", all_linked());
    assert_eq!(lines, expected(&[&HEAD, &X11, &PANGO]));
}

#[test]
fn link_fltk_on_linux_without_pango() {
    let options = LinkOptions { no_gdiplus: false, no_pango: true };
    let lines = link_fltk("/b/fltk-sys-1/out", &names(&FILES), "linux", options);
    assert_eq!(lines, expected(&[&HEAD, &X11]));
}

#[test]
fn link_fltk_on_windows() {
    let lines = link_fltk("/b/fltk-sys-1/out", &names(&FILES), "windows", all_linked());
    assert_eq!(lines, expected(&[&HEAD, &WINDOWS, &["cargo:rustc-link-lib=dylib=gdiplus"]]));
}

#[test]
fn link_fltk_on_windows_without_gdiplus() {
    let options = LinkOptions { no_gdiplus: true, no_pango: false };
    let lines = link_fltk("/b/fltk-sys-1/out", &names(&FILES), "windows", options);
    assert_eq!(lines, expected(&[&HEAD, &WINDOWS]));
}

#[test]
fn link_fltk_on_macos() {
    let lines = link_fltk("/b/fltk-sys-1/out", &names(&FILES), "macos", all_linked());
    assert_eq!(lines, expected(&[&HEAD, &MACOS]));
}

#[test]
fn link_fltk_on_android() {
    let lines = link_fltk("/b/fltk-sys-1/out", &names(&FILES), "android", all_linked());
    assert_eq!(lines, expected(&[&HEAD, &ANDROID]));
}

#[test]
fn link_fltk_on_unknown_system_links_x11() {
    for target_os in ["freebsd", "", "MacOS", "windows ", "ios"] {
        let lines = link_fltk("/b/fltk-sys-1/out", &names(&FILES), target_os, all_linked());
        assert_eq!(lines, expected(&[&HEAD, &X11, &PANGO]), "{}", target_os);
    }
}

#[test]
fn link_fltk_with_empty_lib_directory() {
    let lines = link_fltk("/b/fltk-sys-1/out", &Vec::new(), "macos", all_linked());
    assert_eq!(
        lines,
        expected(&[
            &[
                "cargo:rustc-link-search=native=/b/fltk-sys-1/out/lib",
                "cargo:rustc-link-lib=static=cfltk",
                "cargo:rustc-link-lib=static=fltk",
            ],
            &MACOS,
        ])
    );
}

#[test]
fn search_path_comes_before_every_library() {
    for target_os in ["linux", "windows", "macos", "android"] {
        let lines = link_fltk("/o", &names(&["liba", "libb.a"]), target_os, all_linked());
        assert_eq!(lines[0], "cargo:rustc-link-search=native=/o/lib");
        assert_eq!(lines[1], "cargo:rustc-link-lib=static=a");
        assert_eq!(lines[2], "cargo:rustc-link-lib=static=b.a");
        let searches = lines.iter().filter(|l| l.starts_with("cargo:rustc-link-search")).count();
        assert_eq!(searches, 1);
    }
}

#[test]
fn search_path_is_lib_below_the_out_directory() {
    let lines = link_fltk("/o/", &Vec::new(), "macos", all_linked());
    assert_eq!(lines[0], "cargo:rustc-link-search=native=/o/lib");
    let lines = link_fltk("C:\\o", &Vec::new(), "macos", all_linked());
    assert_eq!(lines[0], "cargo:rustc-link-search=native=C:\\o/lib");
}

#[test]
fn library_name_strips_prefix_once() {
    assert_eq!(library_name("libfltk"), "fltk");
    assert_eq!(library_name("liblibfoo"), "libfoo");
    assert_eq!(library_name("libfoo.a"), "foo.a");
    assert_eq!(library_name("libfltk_z.so.1"), "fltk_z.so.1");
    assert_eq!(library_name("lib.a"), ".a");
    assert_eq!(library_name("lib"), "");
    assert_eq!(library_name("libxlib"), "xlib");
}

#[test]
fn library_name_keeps_other_names() {
    for name in ["cfltk", "cfltk.lib", "Libz", "LIBz", "li", "zlib", "alib.a", ".lib", " lib", ""] {
        assert_eq!(library_name(name), name);
    }
}

#[test]
fn library_name_agrees_with_strip_prefix() {
    let files =
        ["libfltk.a", "fltk.lib", "liblib.a", "lib", "li", "x.y.z", "libx.y.z", "l\u{ef}b"];
    for file in files {
        let expected = file.strip_prefix("lib").unwrap_or(file);
        assert_eq!(library_name(file), expected, "{}", file);
    }
}

#[test]
fn found_libraries_come_one_for_each_file() {
    let files = names(&["cfltk", "libfltk", "libfltk", "fltk.a"]);
    let lines = link_fltk("/o", &files, "macos", all_linked());
    assert_eq!(
        lines[..7],
        expected(&[&[
            "cargo:rustc-link-search=native=/o/lib",
            "cargo:rustc-link-lib=static=cfltk",
            "cargo:rustc-link-lib=static=fltk",
            "cargo:rustc-link-lib=static=fltk",
            "cargo:rustc-link-lib=static=fltk.a",
            "cargo:rustc-link-lib=static=cfltk",
            "cargo:rustc-link-lib=static=fltk",
        ]])[..]
    );
    assert_eq!(lines.len(), 10);
}

#[test]
fn system_libraries_of_each_platform() {
    assert_eq!(system_lines(PlatformTarget::MacOs, all_linked()), expected(&[&MACOS]));
    assert_eq!(system_lines(PlatformTarget::Android, all_linked()), expected(&[&ANDROID]));
    assert_eq!(
        system_lines(PlatformTarget::Windows, all_linked()),
        expected(&[&WINDOWS, &["cargo:rustc-link-lib=dylib=gdiplus"]])
    );
    assert_eq!(system_lines(PlatformTarget::Other, all_linked()), expected(&[&X11, &PANGO]));
}

#[test]
fn switches_touch_their_own_platform_only() {
    for no_gdiplus in [false, true] {
        for no_pango in [false, true] {
            let options = LinkOptions { no_gdiplus, no_pango };
            assert_eq!(system_lines(PlatformTarget::MacOs, options), expected(&[&MACOS]));
            assert_eq!(system_lines(PlatformTarget::Android, options), expected(&[&ANDROID]));
            let windows = system_lines(PlatformTarget::Windows, options);
            assert_eq!(windows.len(), if no_gdiplus { 13 } else { 14 });
            assert_eq!(windows[..13], expected(&[&WINDOWS])[..]);
            let other = system_lines(PlatformTarget::Other, options);
            assert_eq!(other.len(), if no_pango { 8 } else { 13 });
            assert_eq!(other[..8], expected(&[&X11])[..]);
        }
    }
}

#[test]
fn link_directives_are_what_link_fltk_renders() {
    let files = names(&["libfltk_gl.a"]);
    let plan = link_directives("/o", &files, PlatformTarget::Android, all_linked());
    assert_eq!(
        plan,
        vec![
            LinkDirective::SearchNative("/o/lib".to_string()),
            LinkDirective::Library(LinkKind::Static, "fltk_gl.a".to_string()),
            LinkDirective::Library(LinkKind::Static, "cfltk".to_string()),
            LinkDirective::Library(LinkKind::Static, "fltk".to_string()),
            LinkDirective::Library(LinkKind::Dylib, "log".to_string()),
            LinkDirective::Library(LinkKind::Dylib, "android".to_string()),
            LinkDirective::Library(LinkKind::Dylib, "c++_shared".to_string()),
        ]
    );
    let lines: Vec<String> = plan.iter().map(|d| d.render()).collect();
    assert_eq!(lines, link_fltk("/o", &files, "android", all_linked()));
}

#[test]
fn render_writes_each_kind() {
    assert_eq!(
        LinkDirective::SearchNative("/o/lib".to_string()).render(),
        "cargo:rustc-link-search=native=/o/lib"
    );
    assert_eq!(
        LinkDirective::library(LinkKind::Static, "fltk").render(),
        "cargo:rustc-link-lib=static=fltk"
    );
    assert_eq!(
        LinkDirective::library(LinkKind::Dylib, "X11").render(),
        "cargo:rustc-link-lib=dylib=X11"
    );
    assert_eq!(
        LinkDirective::library(LinkKind::Framework, "Cocoa").render(),
        "cargo:rustc-link-lib=framework=Cocoa"
    );
    assert_eq!(
        LinkDirective::library(LinkKind::Static, "").render(),
        "cargo:rustc-link-lib=static="
    );
}

#[test]
fn directive_clone_is_equal() {
    let d = LinkDirective::library(LinkKind::Dylib, "X11");
    assert_eq!(d.clone(), d);
    assert_ne!(d, LinkDirective::library(LinkKind::Static, "X11"));
}

#[test]
fn platform_from_target_os() {
    assert_eq!(PlatformTarget::from_target_os("macos"), PlatformTarget::MacOs);
    assert_eq!(PlatformTarget::from_target_os("windows"), PlatformTarget::Windows);
    assert_eq!(PlatformTarget::from_target_os("android"), PlatformTarget::Android);
    assert_eq!(PlatformTarget::from_target_os("linux"), PlatformTarget::Other);
    assert_eq!(PlatformTarget::from_target_os("freebsd"), PlatformTarget::Other);
    assert_eq!(PlatformTarget::from_target_os(""), PlatformTarget::Other);
    assert_eq!(PlatformTarget::from_target_os("Windows"), PlatformTarget::Other);
}

#[test]
fn default_options_link_everything() {
    let options = LinkOptions::default();
    assert!(!options.no_gdiplus);
    assert!(!options.no_pango);
    assert_eq!(options, all_linked());
}

#[test]
fn push_libraries_appends_in_order() {
    let mut plan = vec![LinkDirective::SearchNative("/o/lib".to_string())];
    push_libraries(&mut plan, LinkKind::Static, &["a", "b"]);
    push_libraries(&mut plan, LinkKind::Dylib, &[]);
    push_libraries(&mut plan, LinkKind::Framework, &["c"]);
    assert_eq!(
        plan,
        vec![
            LinkDirective::SearchNative("/o/lib".to_string()),
            LinkDirective::Library(LinkKind::Static, "a".to_string()),
            LinkDirective::Library(LinkKind::Static, "b".to_string()),
            LinkDirective::Library(LinkKind::Framework, "c".to_string()),
        ]
    );
}

#[test]
fn no_library_line_looks_like_a_search_path() {
    for target_os in ["linux", "windows", "macos", "android"] {
        let lines = link_fltk("/o", &names(&["search.a", "libcargo.a"]), target_os, all_linked());
        for line in &lines[1..] {
            assert!(line.starts_with("cargo:rustc-link-lib="), "{}", line);
            assert!(!line.starts_with("cargo:rustc-link-search="), "{}", line);
        }
    }
}
