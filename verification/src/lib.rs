//! Linking a build with the FLTK that `fltk-sys` has built.
//!
//! A build script that compiles C or C++ code against FLTK needs two things
//! from the build of `fltk-sys`: the directory into which FLTK was built, and
//! the instructions for cargo that link the final binary with it. This library
//! works both out from what the script has read: it touches neither the
//! environment nor the file system, and prints nothing.
//!
//! - `fltk_out_dir` picks the directory among the siblings of the script's own
//!   output directory.
//! - `link_fltk` gives the lines to print for cargo.

pub mod directive;
pub mod link;
pub mod locate;
pub mod path;
pub mod platform;
pub mod text;

pub use directive::{LinkDirective, LinkKind};
pub use link::{library_name, link_directives, link_fltk};
pub use locate::{fltk_out_dir, locate_out_dir, nested_out_dir, Sibling};
pub use path::{build_output_root, join};
pub use platform::{system_libraries, LinkOptions, PlatformTarget};
