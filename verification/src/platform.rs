//! What a program that uses FLTK has to be linked with, besides FLTK itself, on
//! each operating system.

use vstd::prelude::*;
use crate::directive::{Directive, LinkDirective, LinkKind};
use crate::text::same_text;

verus! {

/// The operating system that the binary is built for.
#[derive(Clone, Copy, Debug, PartialEq, Eq, Structural)]
pub enum PlatformTarget {
    MacOs,
    Windows,
    Android,
    /// Every other system: Linux and the other Unix-like systems, where FLTK
    /// draws through X11.
    Other,
}

impl PlatformTarget {
    /// The platform that cargo names `target_os`. A name that is none of
    /// `macos`, `windows` and `android` is taken for a system with X11.
    pub open spec fn named(target_os: Seq<char>) -> PlatformTarget {
        if target_os == "macos"@ {
            PlatformTarget::MacOs
        } else if target_os == "windows"@ {
            PlatformTarget::Windows
        } else if target_os == "android"@ {
            PlatformTarget::Android
        } else {
            PlatformTarget::Other
        }
    }

    /// The platform that cargo names `target_os`.
    pub fn from_target_os(target_os: &str) -> (platform: PlatformTarget)
        ensures
            platform == PlatformTarget::named(target_os@),
    {
        if same_text(target_os, "macos") {
            PlatformTarget::MacOs
        } else if same_text(target_os, "windows") {
            PlatformTarget::Windows
        } else if same_text(target_os, "android") {
            PlatformTarget::Android
        } else {
            PlatformTarget::Other
        }
    }
}

/// The two switches of the build. Each takes libraries out of what is linked;
/// with both off, everything is linked.
#[derive(Clone, Copy, Debug, PartialEq, Eq, Structural)]
pub struct LinkOptions {
    /// On Windows, do not link GDI+.
    pub no_gdiplus: bool,
    /// On systems with X11, do not link Pango and Cairo.
    pub no_pango: bool,
}

impl Default for LinkOptions {
    /// Both switches off.
    fn default() -> (options: LinkOptions)
        ensures
            !options.no_gdiplus,
            !options.no_pango,
    {
        LinkOptions { no_gdiplus: false, no_pango: false }
    }
}

/// The frameworks of macOS.
pub const MACOS_FRAMEWORKS: [&'static str; 3] = ["Carbon", "Cocoa", "ApplicationServices"];

/// The system libraries of Windows that are always linked.
pub const WINDOWS_LIBRARIES: [&'static str; 13] = [
    "ws2_32",
    "comctl32",
    "gdi32",
    "oleaut32",
    "ole32",
    "uuid",
    "shell32",
    "advapi32",
    "comdlg32",
    "winspool",
    "user32",
    "kernel32",
    "odbc32",
];

/// GDI+, which `no_gdiplus` takes out.
pub const GDIPLUS_LIBRARIES: [&'static str; 1] = ["gdiplus"];

/// The libraries of Android: its log, the platform, and the C++ runtime.
pub const ANDROID_LIBRARIES: [&'static str; 3] = ["log", "android", "c++_shared"];

/// The libraries of a system with X11 that are always linked: X11 with its
/// extensions and its fonts.
pub const X11_LIBRARIES: [&'static str; 8] = [
    "X11",
    "Xext",
    "Xinerama",
    "Xcursor",
    "Xrender",
    "Xfixes",
    "Xft",
    "fontconfig",
];

/// Pango and Cairo with what they need, which `no_pango` takes out.
pub const PANGO_LIBRARIES: [&'static str; 5] = [
    "pango-1.0",
    "pangoxft-1.0",
    "gobject-2.0",
    "cairo",
    "pangocairo-1.0",
];

/// The libraries of the names `names`, each linked in the way `kind`.
pub open spec fn libraries(kind: LinkKind, names: Seq<&'static str>) -> Seq<Directive> {
    Seq::new(names.len(), |i: int| Directive::Library(kind, names[i]@))
}

/// What is always linked on `platform`, whatever the switches say.
pub open spec fn fixed_directives(platform: PlatformTarget) -> Seq<Directive> {
    match platform {
        PlatformTarget::MacOs => libraries(LinkKind::Framework, MACOS_FRAMEWORKS@),
        PlatformTarget::Windows => libraries(LinkKind::Dylib, WINDOWS_LIBRARIES@),
        PlatformTarget::Android => libraries(LinkKind::Dylib, ANDROID_LIBRARIES@),
        PlatformTarget::Other => libraries(LinkKind::Dylib, X11_LIBRARIES@),
    }
}

/// What the switch of `platform` takes out when it is on. Two platforms have
/// no switch, and nothing is taken out there.
pub open spec fn switched_directives(platform: PlatformTarget) -> Seq<Directive> {
    match platform {
        PlatformTarget::Windows => libraries(LinkKind::Dylib, GDIPLUS_LIBRARIES@),
        PlatformTarget::Other => libraries(LinkKind::Dylib, PANGO_LIBRARIES@),
        _ => Seq::empty(),
    }
}

/// Whether `options` takes out what the switch of `platform` governs.
pub open spec fn switched_off(platform: PlatformTarget, options: LinkOptions) -> bool {
    match platform {
        PlatformTarget::Windows => options.no_gdiplus,
        PlatformTarget::Other => options.no_pango,
        _ => false,
    }
}

/// What is linked besides FLTK on `platform`, in the order in which cargo is
/// told of it: the fixed libraries, then what the platform's switch governs
/// unless the switch takes it out.
pub open spec fn system_directives(platform: PlatformTarget, options: LinkOptions) -> Seq<
    Directive,
> {
    if switched_off(platform, options) {
        fixed_directives(platform)
    } else {
        fixed_directives(platform) + switched_directives(platform)
    }
}

/// On every platform cargo is told of the fixed libraries first, all of them
/// and in their order.
pub proof fn lemma_fixed_libraries_first(platform: PlatformTarget, options: LinkOptions)
    ensures
        fixed_directives(platform).is_prefix_of(system_directives(platform, options)),
{
}

/// How many libraries each platform has: three frameworks on macOS, thirteen
/// libraries and GDI+ on Windows, three libraries on Android, and eight with
/// five more for Pango and Cairo elsewhere.
pub proof fn lemma_library_counts()
    ensures
        fixed_directives(PlatformTarget::MacOs).len() == 3,
        fixed_directives(PlatformTarget::Windows).len() == 13,
        fixed_directives(PlatformTarget::Android).len() == 3,
        fixed_directives(PlatformTarget::Other).len() == 8,
        switched_directives(PlatformTarget::MacOs).len() == 0,
        switched_directives(PlatformTarget::Windows).len() == 1,
        switched_directives(PlatformTarget::Android).len() == 0,
        switched_directives(PlatformTarget::Other).len() == 5,
{
}

/// A switch changes nothing on a platform that is not its own: two settings
/// that agree on the switch of `platform` give the same directives there. On
/// macOS and on Android, which have no switch, all settings give the same.
pub proof fn lemma_switch_of_other_platform(
    platform: PlatformTarget,
    a: LinkOptions,
    b: LinkOptions,
)
    requires
        switched_off(platform, a) == switched_off(platform, b),
    ensures
        system_directives(platform, a) == system_directives(platform, b),
        platform == PlatformTarget::Windows ==> (switched_off(platform, a) <==> a.no_gdiplus),
        platform == PlatformTarget::Other ==> (switched_off(platform, a) <==> a.no_pango),
        platform == PlatformTarget::MacOs || platform == PlatformTarget::Android ==> !switched_off(
            platform,
            a,
        ),
{
}

/// Turning a platform's switch off adds to the directives exactly what the
/// switch governs, at their end; turning it on takes exactly that away.
pub proof fn lemma_switch_adds_its_libraries(
    platform: PlatformTarget,
    on: LinkOptions,
    off: LinkOptions,
)
    requires
        switched_off(platform, on),
        !switched_off(platform, off),
    ensures
        system_directives(platform, off) == system_directives(platform, on) + switched_directives(
            platform,
        ),
{
}

/// Nothing among the system directives is a search path: each names a library,
/// a framework on macOS and a dynamic library everywhere else.
pub proof fn lemma_system_directives_are_libraries(
    platform: PlatformTarget,
    options: LinkOptions,
    i: int,
)
    requires
        0 <= i < system_directives(platform, options).len(),
    ensures
        system_directives(platform, options)[i] matches Directive::Library(kind, _) && kind
            == match platform {
            PlatformTarget::MacOs => LinkKind::Framework,
            _ => LinkKind::Dylib,
        },
{
}

/// Appends to `plan` the libraries of the names `names`, each linked in the
/// way `kind`.
pub fn push_libraries(plan: &mut Vec<LinkDirective>, kind: LinkKind, names: &[&'static str])
    ensures
        final(plan).deep_view() == old(plan).deep_view() + libraries(kind, names@),
{
    let n: usize = names.len();
    let mut i: usize = 0;
    while i < n
        invariant
            n == names@.len(),
            i <= n,
            plan.len() == old(plan).len() + i,
            forall|k: int| 0 <= k < old(plan).len() ==> plan@[k] == old(plan)@[k],
            forall|k: int|
                old(plan).len() <= k < plan.len() ==> (#[trigger] plan@[k])@ == Directive::Library(
                    kind,
                    names@[k - old(plan).len()]@,
                ),
        decreases n - i,
    {
        plan.push(LinkDirective::library(kind, names[i]));
        i += 1;
    }
}

/// What is linked besides FLTK on `platform`.
pub fn system_libraries(platform: PlatformTarget, options: LinkOptions) -> (plan: Vec<
    LinkDirective,
>)
    ensures
        plan.deep_view() == system_directives(platform, options),
{
    let mut plan: Vec<LinkDirective> = Vec::new();
    match platform {
        PlatformTarget::MacOs => {
            push_libraries(&mut plan, LinkKind::Framework, &MACOS_FRAMEWORKS);
        },
        PlatformTarget::Windows => {
            push_libraries(&mut plan, LinkKind::Dylib, &WINDOWS_LIBRARIES);
            if !options.no_gdiplus {
                push_libraries(&mut plan, LinkKind::Dylib, &GDIPLUS_LIBRARIES);
            }
        },
        PlatformTarget::Android => {
            push_libraries(&mut plan, LinkKind::Dylib, &ANDROID_LIBRARIES);
        },
        PlatformTarget::Other => {
            push_libraries(&mut plan, LinkKind::Dylib, &X11_LIBRARIES);
            if !options.no_pango {
                push_libraries(&mut plan, LinkKind::Dylib, &PANGO_LIBRARIES);
            }
        },
    }
    plan
}

} // verus!
