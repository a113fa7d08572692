//! The instructions that a build script hands to cargo on its standard output.
//!
//! Each instruction is one line. `Directive` is what a line says, `LinkDirective`
//! the value that holds it at run time, and `Directive::text` the line itself.

use vstd::prelude::*;

verus! {

/// How cargo is to link a library that it is told of.
#[derive(Clone, Copy, Debug, PartialEq, Eq, Structural)]
pub enum LinkKind {
    /// `static=`: the library is linked into the binary.
    Static,
    /// `dylib=`: the library is loaded when the binary starts.
    Dylib,
    /// `framework=`: a macOS framework.
    Framework,
}

impl LinkKind {
    /// What stands between `rustc-link-lib=` and the library's name.
    pub open spec fn qualifier(self) -> Seq<char> {
        match self {
            LinkKind::Static => "static="@,
            LinkKind::Dylib => "dylib="@,
            LinkKind::Framework => "framework="@,
        }
    }

    /// What stands between `rustc-link-lib=` and the library's name.
    pub fn qualifier_text(self) -> (text: &'static str)
        ensures
            text@ == self.qualifier(),
    {
        match self {
            LinkKind::Static => "static=",
            LinkKind::Dylib => "dylib=",
            LinkKind::Framework => "framework=",
        }
    }
}

/// What the line of a search path starts with.
pub const SEARCH_HEAD: &'static str = "cargo:rustc-link-search=native=";

/// What the line of a library starts with.
pub const LIBRARY_HEAD: &'static str = "cargo:rustc-link-lib=";

/// What one line says.
pub enum Directive {
    /// Look for native libraries in this directory.
    SearchNative(Seq<char>),
    /// Link the library of this name, in this way.
    Library(LinkKind, Seq<char>),
}

impl Directive {
    /// The line that says it.
    pub open spec fn text(self) -> Seq<char> {
        match self {
            Directive::SearchNative(dir) => SEARCH_HEAD@ + dir,
            Directive::Library(kind, name) => LIBRARY_HEAD@ + kind.qualifier() + name,
        }
    }

    /// Whether it tells cargo where to look, not what to link.
    pub open spec fn is_search(self) -> bool {
        self is SearchNative
    }
}

/// The lines that say `plan`, one for each directive and in its order.
pub open spec fn lines_of(plan: Seq<Directive>) -> Seq<Seq<char>> {
    Seq::new(plan.len(), |i: int| plan[i].text())
}

/// What a line says of itself: the line of a search path starts with
/// `cargo:rustc-link-search=`, and the line of no library does.
pub proof fn lemma_search_line_known(directive: Directive)
    ensures
        directive.is_search() <==> "cargo:rustc-link-search="@.is_prefix_of(directive.text()),
{
    reveal_strlit("cargo:rustc-link-search=");
    reveal_strlit("cargo:rustc-link-search=native=");
    reveal_strlit("cargo:rustc-link-lib=");
    let head = "cargo:rustc-link-search="@;
    let line = directive.text();
    if !directive.is_search() && head.is_prefix_of(line) {
        // after `cargo:rustc-link-`, which has 17 characters, the two kinds of line part
        assert(line.subrange(0, head.len() as int)[17] == head[17]);
    }
}

/// One instruction to cargo.
#[derive(Debug, PartialEq, Eq)]
pub enum LinkDirective {
    /// Look for native libraries in this directory.
    SearchNative(String),
    /// Link the library of this name, in this way.
    Library(LinkKind, String),
}

impl Clone for LinkDirective {
    fn clone(&self) -> (copy: LinkDirective)
        ensures
            copy@ == self@,
    {
        match self {
            LinkDirective::SearchNative(dir) => LinkDirective::SearchNative(dir.clone()),
            LinkDirective::Library(kind, name) => LinkDirective::Library(*kind, name.clone()),
        }
    }
}

impl View for LinkDirective {
    type V = Directive;

    open spec fn view(&self) -> Directive {
        match self {
            LinkDirective::SearchNative(dir) => Directive::SearchNative(dir@),
            LinkDirective::Library(kind, name) => Directive::Library(*kind, name@),
        }
    }
}

impl DeepView for LinkDirective {
    type V = Directive;

    open spec fn deep_view(&self) -> Directive {
        self@
    }
}

impl LinkDirective {
    /// The directive that links the library `name` in the way `kind`.
    pub fn library(kind: LinkKind, name: &str) -> (directive: LinkDirective)
        ensures
            directive@ == Directive::Library(kind, name@),
    {
        LinkDirective::Library(kind, name.to_owned())
    }

    /// The line that hands this directive to cargo.
    pub fn render(&self) -> (line: String)
        ensures
            line@ == self@.text(),
    {
        match self {
            LinkDirective::SearchNative(dir) => {
                let mut line: String = SEARCH_HEAD.to_owned();
                line.append(dir.as_str());
                line
            },
            LinkDirective::Library(kind, name) => {
                let mut line: String = LIBRARY_HEAD.to_owned();
                line.append(kind.qualifier_text());
                line.append(name.as_str());
                line
            },
        }
    }
}

/// The lines that hand `plan` to cargo, one for each directive and in its order.
pub fn render_all(plan: &Vec<LinkDirective>) -> (lines: Vec<String>)
    ensures
        lines.deep_view() == lines_of(plan.deep_view()),
        lines.len() == plan.len(),
        forall|k: int| 0 <= k < lines.len() ==> (#[trigger] lines[k])@ == plan[k]@.text(),
{
    let mut lines: Vec<String> = Vec::new();
    let n: usize = plan.len();
    let mut i: usize = 0;
    while i < n
        invariant
            n == plan.len(),
            i <= n,
            lines.len() == i,
            forall|k: int| 0 <= k < i ==> lines@[k]@ == plan@[k]@.text(),
        decreases n - i,
    {
        lines.push(plan[i].render());
        i += 1;
    }
    lines
}

} // verus!
