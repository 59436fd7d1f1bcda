//! Helpers for locating framework sources and collecting compiled module
//! blobs.
//!
//! Walking directories and compiling packages belong to the surrounding
//! tooling; these functions hold the pure part: joining paths under the
//! crate directory, combining file listings, and selecting the module
//! blobs out of a compiled package's units.

use vstd::prelude::*;
use vstd::string::StringExecFns;

verus! {

/// The characters of `relative` appended to `base` behind a separator.
pub open spec fn joined_path(base: Seq<char>, relative: Seq<char>) -> Seq<char> {
    base + seq!['/'] + relative
}

/// Joins a path relative to the crate directory onto that directory.
pub fn path_in_crate(crate_dir: &str, relative: &str) -> (r: String)
    ensures
        r@ == joined_path(crate_dir@, relative@),
{
    let mut path = String::from_str(crate_dir);
    path.append("/");
    path.append(relative);
    proof {
        reveal_strlit("/");
        assert(path@ =~= joined_path(crate_dir@, relative@));
    }
    path
}

/// The full path of the core modules' sources under the crate directory.
pub fn core_modules_full_path(crate_dir: &str) -> (r: String)
    ensures
        r@ == joined_path(crate_dir@, "core/sources"@),
{
    path_in_crate(crate_dir, "core/sources")
}

/// The full path of the framework modules' sources under the crate
/// directory.
pub fn aptos_modules_full_path(crate_dir: &str) -> (r: String)
    ensures
        r@ == joined_path(crate_dir@, "aptos-framework/sources"@),
{
    path_in_crate(crate_dir, "aptos-framework/sources")
}

/// The framework's own source files: the framework modules' files, then
/// the core modules' files, in order.
pub fn aptos_files_no_dependencies(framework_files: Vec<String>, core_files: Vec<String>) -> (r:
    Vec<String>)
    ensures
        r@ == framework_files@ + core_files@,
{
    let mut files = framework_files;
    let mut rest = core_files;
    files.append(&mut rest);
    files
}

/// All source files a framework build reads: the standard library's
/// files, then the framework's own files, in order.
pub fn aptos_files(stdlib_files: Vec<String>, framework_own_files: Vec<String>) -> (r: Vec<
    String,
>)
    ensures
        r@ == stdlib_files@ + framework_own_files@,
{
    let mut files = stdlib_files;
    let mut rest = framework_own_files;
    files.append(&mut rest);
    files
}

/// One unit of a compiled package: a module's serialized bytes, or a
/// script's.
#[derive(Debug)]
pub enum PackageUnit {
    /// A compiled module's serialized bytes.
    Module(Vec<u8>),
    /// A compiled script's serialized bytes.
    Script(Vec<u8>),
}

/// The byte sequences of a list of blobs.
pub open spec fn blob_views(s: Seq<Vec<u8>>) -> Seq<Seq<u8>> {
    s.map(|i: int, b: Vec<u8>| b@)
}

/// The module blobs among a package's units, in order; scripts are left
/// out.
pub open spec fn module_blob_views(s: Seq<PackageUnit>) -> Seq<Seq<u8>>
    decreases s.len(),
{
    if s.len() == 0 {
        Seq::<Seq<u8>>::empty()
    } else {
        module_blob_views(s.drop_last()) + (match s.last() {
            PackageUnit::Module(b) => seq![b@],
            PackageUnit::Script(_) => Seq::<Seq<u8>>::empty(),
        })
    }
}

/// Collects the serialized bytes of every module among the given compiled
/// package units, keeping their order and skipping scripts.
pub fn aptos_module_blobs(units: &Vec<PackageUnit>) -> (r: Vec<Vec<u8>>)
    ensures
        blob_views(r@) == module_blob_views(units@),
{
    let n: usize = units.len();
    let mut blobs: Vec<Vec<u8>> = Vec::new();
    let mut i: usize = 0;
    while i < n
        invariant
            0 <= i <= n,
            n == units@.len(),
            blob_views(blobs@) == module_blob_views(units@.take(i as int)),
        decreases n - i,
    {
        let ghost before = blobs@;
        match &units[i] {
            PackageUnit::Module(b) => {
                blobs.push(crate::bytes::copy_bytes(b));
                proof {
                    assert(blob_views(blobs@) =~= blob_views(before).push(
                        units@[i as int]->Module_0@,
                    ));
                }
            },
            PackageUnit::Script(_) => {},
        }
        proof {
            assert(units@.take(i + 1).drop_last() =~= units@.take(i as int));
            assert(blob_views(blobs@) =~= module_blob_views(units@.take(i + 1)));
        }
        i += 1;
    }
    proof {
        assert(units@.take(n as int) =~= units@);
    }
    blobs
}

} // verus!
