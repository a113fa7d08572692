//! What cargo is told so that a binary is linked with FLTK.

use vstd::prelude::*;
use crate::directive::{
    lemma_search_line_known, lines_of, render_all, Directive, LinkDirective, LinkKind, SEARCH_HEAD,
};
use crate::path::{join, joined};
use crate::platform::{
    lemma_system_directives_are_libraries, libraries, push_libraries, system_directives,
    system_libraries, LinkOptions, PlatformTarget,
};
use crate::text::starts_with_text;

verus! {

/// The directory below FLTK's output directory that holds its libraries.
pub const LIBRARY_DIR: &'static str = "lib";

/// What the name of a library's file may start with without it being part of
/// the library's name.
pub const LIBRARY_PREFIX: &'static str = "lib";

/// The two libraries of FLTK itself: its binding for C, and FLTK.
pub const CORE_LIBRARIES: [&'static str; 2] = ["cfltk", "fltk"];

/// The name under which the library in the file `file_name` is linked: the
/// file's name, without `lib` at its start if it starts so. Nothing else is
/// taken off or changed.
pub open spec fn linked_name(file_name: Seq<char>) -> Seq<char> {
    if LIBRARY_PREFIX@.is_prefix_of(file_name) {
        file_name.skip(LIBRARY_PREFIX@.len() as int)
    } else {
        file_name
    }
}

/// The two libraries of FLTK itself, which are linked on every platform.
pub open spec fn core_libraries() -> Seq<Directive> {
    libraries(LinkKind::Static, CORE_LIBRARIES@)
}

/// The static libraries in the files `file_names`, one for each file and in
/// the files' order.
pub open spec fn found_libraries(file_names: Seq<Seq<char>>) -> Seq<Directive> {
    Seq::new(
        file_names.len(),
        |i: int| Directive::Library(LinkKind::Static, linked_name(file_names[i])),
    )
}

/// All that cargo is told, in order: where the libraries lie, which is the
/// directory `lib` below `fltk_out_dir`; the library of each file found there;
/// the two libraries of FLTK; what `platform` needs besides.
pub open spec fn link_plan(
    fltk_out_dir: Seq<char>,
    file_names: Seq<Seq<char>>,
    platform: PlatformTarget,
    options: LinkOptions,
) -> Seq<Directive> {
    seq![Directive::SearchNative(joined(fltk_out_dir, LIBRARY_DIR@))] + found_libraries(
        file_names,
    ) + core_libraries() + system_directives(platform, options)
}

/// Where a file's name starts with `lib`, `lib` is taken off once: the
/// linked name with one `lib` before it is the file's name again. Where it does
/// not, the linked name is the file's name.
pub proof fn lemma_prefix_stripped_once(file_name: Seq<char>)
    ensures
        LIBRARY_PREFIX@.is_prefix_of(file_name) ==> LIBRARY_PREFIX@ + linked_name(file_name)
            == file_name,
        !LIBRARY_PREFIX@.is_prefix_of(file_name) ==> linked_name(file_name) == file_name,
{
}

/// Of a name that is `lib` and then `rest`, the linked name is `rest`, whatever
/// `rest` is: a second `lib` at its start stays.
pub proof fn lemma_prefix_stripped_from(rest: Seq<char>)
    ensures
        linked_name(LIBRARY_PREFIX@ + rest) == rest,
{
    let file_name = LIBRARY_PREFIX@ + rest;
    assert(file_name.skip(LIBRARY_PREFIX@.len() as int) =~= rest);
}

/// In the plan the search path comes first and once; the libraries found in it
/// follow at once, one for each file and in the files' order; nothing after
/// the first directive is a search path.
pub proof fn lemma_search_path_first(
    fltk_out_dir: Seq<char>,
    file_names: Seq<Seq<char>>,
    platform: PlatformTarget,
    options: LinkOptions,
)
    ensures
        ({
            let plan = link_plan(fltk_out_dir, file_names, platform, options);
            let n = file_names.len() as int;
            &&& plan.len() == 1 + n + 2 + system_directives(platform, options).len()
            &&& plan[0] == Directive::SearchNative(joined(fltk_out_dir, LIBRARY_DIR@))
            &&& forall|k: int|
                1 <= k <= n ==> #[trigger] plan[k] == Directive::Library(
                    LinkKind::Static,
                    linked_name(file_names[k - 1]),
                )
            &&& forall|k: int| 0 < k < plan.len() ==> !(#[trigger] plan[k]).is_search()
            &&& plan.subrange(1 + n, 3 + n) == core_libraries()
            &&& plan.skip(3 + n) == system_directives(platform, options)
        }),
{
    let plan = link_plan(fltk_out_dir, file_names, platform, options);
    let n = file_names.len() as int;
    assert forall|k: int| 0 < k < plan.len() implies !(#[trigger] plan[k]).is_search() by {
        if k >= 3 + n {
            lemma_system_directives_are_libraries(platform, options, k - 3 - n);
        }
    }
}

/// Among the lines for cargo the first names the search path, and it is the
/// only line that starts with `cargo:rustc-link-search=`; the lines of the
/// libraries found in that path follow it at once.
pub proof fn lemma_search_line_first(
    fltk_out_dir: Seq<char>,
    file_names: Seq<Seq<char>>,
    platform: PlatformTarget,
    options: LinkOptions,
)
    ensures
        ({
            let lines = lines_of(link_plan(fltk_out_dir, file_names, platform, options));
            let n = file_names.len() as int;
            &&& lines.len() > n + 2
            &&& lines[0] == SEARCH_HEAD@ + joined(fltk_out_dir, LIBRARY_DIR@)
            &&& forall|k: int|
                1 <= k <= n ==> #[trigger] lines[k] == Directive::Library(
                    LinkKind::Static,
                    linked_name(file_names[k - 1]),
                ).text()
            &&& forall|k: int|
                0 < k < lines.len() ==> !"cargo:rustc-link-search="@.is_prefix_of(
                    #[trigger] lines[k],
                )
        }),
{
    let plan = link_plan(fltk_out_dir, file_names, platform, options);
    let lines = lines_of(plan);
    lemma_search_path_first(fltk_out_dir, file_names, platform, options);
    assert forall|k: int| 0 < k < lines.len() implies !"cargo:rustc-link-search="@.is_prefix_of(
        #[trigger] lines[k],
    ) by {
        lemma_search_line_known(plan[k]);
    }
}

/// The name under which the library in the file `file_name` is linked.
pub fn library_name(file_name: &str) -> (name: String)
    ensures
        name@ == linked_name(file_name@),
{
    if starts_with_text(file_name, LIBRARY_PREFIX) {
        proof {
            reveal_strlit("lib");
        }
        let n: usize = file_name.unicode_len();
        file_name.substring_char(3, n).to_owned()
    } else {
        file_name.to_owned()
    }
}

/// All that cargo is told so that a binary for `platform` is linked with the
/// FLTK that was built into `fltk_out_dir`, where `lib_files` are the names of
/// the files in its directory `lib`.
pub fn link_directives(
    fltk_out_dir: &str,
    lib_files: &Vec<String>,
    platform: PlatformTarget,
    options: LinkOptions,
) -> (plan: Vec<LinkDirective>)
    ensures
        plan.deep_view() == link_plan(fltk_out_dir@, lib_files.deep_view(), platform, options),
{
    let ghost files = lib_files.deep_view();
    let mut plan: Vec<LinkDirective> = Vec::new();
    plan.push(LinkDirective::SearchNative(join(fltk_out_dir, LIBRARY_DIR)));
    let n: usize = lib_files.len();
    let mut i: usize = 0;
    while i < n
        invariant
            n == lib_files.len(),
            files == lib_files.deep_view(),
            i <= n,
            plan.len() == 1 + i,
            plan@[0]@ == Directive::SearchNative(joined(fltk_out_dir@, LIBRARY_DIR@)),
            forall|k: int|
                1 <= k < plan.len() ==> (#[trigger] plan@[k])@ == Directive::Library(
                    LinkKind::Static,
                    linked_name(files[k - 1]),
                ),
        decreases n - i,
    {
        let name: String = library_name(lib_files[i].as_str());
        plan.push(LinkDirective::Library(LinkKind::Static, name));
        i += 1;
    }
    assert(plan.deep_view() =~= seq![Directive::SearchNative(joined(fltk_out_dir@, LIBRARY_DIR@))]
        + found_libraries(files));
    push_libraries(&mut plan, LinkKind::Static, &CORE_LIBRARIES);
    let mut system: Vec<LinkDirective> = system_libraries(platform, options);
    plan.append(&mut system);
    plan
}

/// The lines to print for cargo so that a binary for the system that cargo
/// names `target_os` is linked with the FLTK that was built into
/// `fltk_out_dir`, where `lib_files` are the names of the files in its
/// directory `lib`.
///
/// The lines are those of `link_plan`: nothing is told of a library before the
/// directory that holds it.
pub fn link_fltk(
    fltk_out_dir: &str,
    lib_files: &Vec<String>,
    target_os: &str,
    options: LinkOptions,
) -> (lines: Vec<String>)
    ensures
        lines.deep_view() == lines_of(
            link_plan(
                fltk_out_dir@,
                lib_files.deep_view(),
                PlatformTarget::named(target_os@),
                options,
            ),
        ),
        lines.len() == link_plan(
            fltk_out_dir@,
            lib_files.deep_view(),
            PlatformTarget::named(target_os@),
            options,
        ).len(),
        forall|k: int|
            0 <= k < lines.len() ==> (#[trigger] lines[k])@ == link_plan(
                fltk_out_dir@,
                lib_files.deep_view(),
                PlatformTarget::named(target_os@),
                options,
            )[k].text(),
{
    let platform: PlatformTarget = PlatformTarget::from_target_os(target_os);
    let plan: Vec<LinkDirective> = link_directives(fltk_out_dir, lib_files, platform, options);
    render_all(&plan)
}

} // verus!
