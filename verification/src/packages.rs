//! Local package management: which files are packages, of which type, and
//! finding a package by name.
//!
//! Walking the package directory is done by the caller, which hands each
//! file over.

use crate::images::{extension_of, file_extension};
use crate::templates::registry::{join_path, path_join};
use crate::text::{contains, has_infix, owned, str_eq};
use vstd::prelude::*;

verus! {

/// Type of package.
#[derive(Debug, Clone, Copy, PartialEq, Eq, Structural)]
pub enum PackageType {
    /// Debian package (`.deb`).
    Deb,
    /// RPM package (`.rpm`).
    Rpm,
    /// Compressed tarball (`.tar.gz`, `.tar.xz`).
    Tarball,
    /// Binary executable.
    Binary,
}

/// A local package file.
#[derive(Debug, Clone)]
pub struct Package {
    /// File name.
    pub name: String,
    /// Full path.
    pub path: String,
    /// Package type.
    pub package_type: PackageType,
    /// Size on disk.
    pub size_bytes: u64,
}

/// Package manager for the package directory under a reagents root.
#[derive(Debug, Clone)]
pub struct PackageManager {
    reagents_root: String,
}

/// The type of the package at `path` whose file name is `file_name`:
/// by extension, `deb` or `rpm`, or `gz`/`xz` when the path contains `.tar.`.
/// The extension counts only when the file name is valid UTF-8.
pub open spec fn package_type_of(path: Seq<char>, file_name: Seq<char>, name_is_utf8: bool) -> Option<
    PackageType,
> {
    let ext = if name_is_utf8 {
        match file_extension(file_name) {
            Some(e) => e,
            None => Seq::empty(),
        }
    } else {
        Seq::empty()
    };
    if ext == "deb"@ {
        Some(PackageType::Deb)
    } else if ext == "rpm"@ {
        Some(PackageType::Rpm)
    } else if (ext == "gz"@ || ext == "xz"@) && has_infix(path, ".tar."@) {
        Some(PackageType::Tarball)
    } else {
        None
    }
}

impl PackageManager {
    /// The reagents root.
    pub closed spec fn spec_root(&self) -> Seq<char> {
        self.reagents_root@
    }

    /// A package manager for the directory under `reagents_root`.
    pub fn new(reagents_root: String) -> (r: Self)
        ensures
            r.spec_root() == reagents_root@,
    {
        PackageManager { reagents_root }
    }

    /// The reagents root.
    pub fn reagents_root(&self) -> (r: &str)
        ensures
            r@ == self.spec_root(),
    {
        self.reagents_root.as_str()
    }

    /// Where packages live: `<root>/packages`.
    pub fn packages_dir(&self) -> (r: String)
        ensures
            r@ == path_join(self.spec_root(), "packages"@),
    {
        join_path(self.reagents_root.as_str(), "packages")
    }

    /// The type of the package file at `path` (see `package_type_of`).
    pub fn package_type_for(path: &str, file_name: &str, name_is_utf8: bool) -> (r: Option<
        PackageType,
    >)
        ensures
            r == package_type_of(path@, file_name@, name_is_utf8),
    {
        let ext = if name_is_utf8 {
            match extension_of(file_name) {
                Some(e) => e,
                None => String::new(),
            }
        } else {
            String::new()
        };
        let e = ext.as_str();
        if str_eq(e, "deb") {
            Some(PackageType::Deb)
        } else if str_eq(e, "rpm") {
            Some(PackageType::Rpm)
        } else if (str_eq(e, "gz") || str_eq(e, "xz")) && contains(path, ".tar.") {
            Some(PackageType::Tarball)
        } else {
            None
        }
    }

    /// The package for a file, if it is one. Its name is the file name, or
    /// `unknown` when the file name is not valid UTF-8 (`file_name` then
    /// holds its lossy rendering).
    pub fn parse_package(path: String, file_name: &str, name_is_utf8: bool, size_bytes: u64) -> (r:
        Option<Package>)
        ensures
            r is Some <==> package_type_of(path@, file_name@, name_is_utf8) is Some,
            r matches Some(p) ==> Some(p.package_type) == package_type_of(
                path@,
                file_name@,
                name_is_utf8,
            ) && p.path@ == path@ && p.size_bytes == size_bytes && p.name@ == (if name_is_utf8 {
                file_name@
            } else {
                "unknown"@
            }),
    {
        match Self::package_type_for(path.as_str(), file_name, name_is_utf8) {
            Some(t) => {
                let name = if name_is_utf8 {
                    owned(file_name)
                } else {
                    owned("unknown")
                };
                Some(Package { name, path, package_type: t, size_bytes })
            },
            None => None,
        }
    }

    /// The first package whose name contains `name`.
    pub fn find_package(packages: Vec<Package>, name: &str) -> (r: Option<Package>)
        ensures
            r is None <==> forall|i: int|
                0 <= i < packages@.len() ==> !has_infix(#[trigger] packages@[i].name@, name@),
            r matches Some(p) ==> exists|i: int|
                0 <= i < packages@.len() && p == packages@[i] && has_infix(
                    packages@[i].name@,
                    name@,
                ) && forall|j: int|
                    0 <= j < i ==> !has_infix(#[trigger] packages@[j].name@, name@),
    {
        let ghost all = packages@;
        let mut pool = packages;
        let mut i: usize = 0;
        while i < pool.len()
            invariant
                i <= pool@.len(),
                pool@ == all,
                all == packages@,
                forall|j: int| 0 <= j < i ==> !has_infix(#[trigger] all[j].name@, name@),
            decreases pool.len() - i,
        {
            if contains(pool[i].name.as_str(), name) {
                let found = pool.remove(i);
                assert(found == all[i as int]);
                return Some(found);
            }
            i = i + 1;
        }
        None
    }
}

/// A file whose path contains `.tar.` and whose (UTF-8) name has the
/// extension `gz` or `xz` is a tarball package.
pub proof fn law_tar_archives_are_tarballs(path: Seq<char>, file_name: Seq<char>)
    requires
        has_infix(path, ".tar."@),
        file_extension(file_name) == Some("gz"@) || file_extension(file_name) == Some("xz"@),
    ensures
        package_type_of(path, file_name, true) == Some(PackageType::Tarball),
{
    reveal_strlit("gz");
    reveal_strlit("xz");
    reveal_strlit("deb");
    reveal_strlit("rpm");
    assert("gz"@.len() == 2 && "xz"@.len() == 2 && "deb"@.len() == 3 && "rpm"@.len() == 3);
    assert("gz"@ != "deb"@ && "gz"@ != "rpm"@ && "xz"@ != "deb"@ && "xz"@ != "rpm"@);
}

/// A (UTF-8) name with the extension `deb` is a Debian package and one with
/// `rpm` an RPM package, wherever it lies.
pub proof fn law_deb_and_rpm_by_extension(path: Seq<char>, file_name: Seq<char>)
    ensures
        file_extension(file_name) == Some("deb"@) ==> package_type_of(path, file_name, true)
            == Some(PackageType::Deb),
        file_extension(file_name) == Some("rpm"@) ==> package_type_of(path, file_name, true)
            == Some(PackageType::Rpm),
{
    reveal_strlit("deb");
    reveal_strlit("rpm");
    assert("rpm"@[0] == 'r' && "deb"@[0] == 'd');
    assert("rpm"@ != "deb"@);
}

} // verus!
