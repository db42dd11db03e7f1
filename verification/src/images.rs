//! Base image management: where the images live, which files are images,
//! and finding an image by name.
//!
//! Listing a directory is done by the caller, which hands each entry over.

use crate::templates::registry::{join_path, path_join};
use crate::text::{contains, has_infix, owned, str_eq};
use vstd::prelude::*;

verus! {

/// Type of VM image.
#[derive(Debug, Clone, Copy, PartialEq, Eq, Structural)]
pub enum ImageType {
    /// Cloud image (Ubuntu cloud images, etc.).
    Cloud,
    /// ISO installation media.
    Iso,
    /// Intermediate image (partial build).
    Intermediate,
    /// Complete template image.
    Template,
    /// Base image for templates.
    Base,
}

/// A VM image on disk.
#[derive(Debug, Clone)]
pub struct Image {
    /// File name.
    pub name: String,
    /// Full path.
    pub path: String,
    /// Kind of image.
    pub image_type: ImageType,
    /// Size on disk.
    pub size_bytes: u64,
}

/// Image manager for the image directories under a reagents root.
#[derive(Debug, Clone)]
pub struct ImageManager {
    reagents_root: String,
}

/// The index of the last occurrence of `c` in `s`, or -1.
pub open spec fn last_index_of(s: Seq<char>, c: char) -> int
    decreases s.len(),
{
    if s.len() == 0 {
        -1
    } else if s.last() == c {
        s.len() - 1
    } else {
        last_index_of(s.drop_last(), c)
    }
}

/// The extension of a file name (as `Path::extension`): the text after the
/// last `.`, when there is a `.` that is not the name's first character.
pub open spec fn file_extension(name: Seq<char>) -> Option<Seq<char>> {
    let k = last_index_of(name, '.');
    if k <= 0 || name == ".."@ {
        None
    } else {
        Some(name.subrange(k + 1, name.len() as int))
    }
}

/// The index of the last `.` in `v`, or `v.len()` when there is none.
fn last_dot(v: &Vec<char>) -> (r: usize)
    ensures
        r < v@.len() ==> r as int == last_index_of(v@, '.'),
        r >= v@.len() ==> r == v@.len() && last_index_of(v@, '.') == -1,
{
    let mut i: usize = v.len();
    assert(v@.take(v@.len() as int) =~= v@);
    while i > 0
        invariant
            i <= v@.len(),
            last_index_of(v@, '.') == last_index_of(v@.take(i as int), '.'),
        decreases i,
    {
        assert(v@.take(i as int).drop_last() =~= v@.take(i - 1));
        if v[i - 1] == '.' {
            return i - 1;
        }
        i = i - 1;
    }
    assert(v@.take(0) =~= Seq::<char>::empty());
    v.len()
}

/// The extension of a file name (as `Path::extension`).
pub fn extension_of(name: &str) -> (r: Option<String>)
    ensures
        crate::text::opt_seq(r) == file_extension(name@),
{
    let v = crate::text::chars_of(name);
    assert(v@.take(v@.len() as int) =~= v@);
    let k = last_dot(&v);
    if k >= v.len() || k == 0 || str_eq(name, "..") {
        None
    } else {
        let e = crate::text::string_of_range(&v, k + 1, v.len());
        Some(e)
    }
}

/// Whether a file with this extension is listed as an image.
pub open spec fn is_image_extension(ext: Option<Seq<char>>) -> bool {
    ext == Some("img"@) || ext == Some("qcow2"@) || ext == Some("iso"@)
}

impl ImageManager {
    /// The reagents root.
    pub closed spec fn spec_root(&self) -> Seq<char> {
        self.reagents_root@
    }

    /// An image manager for the directories under `reagents_root`.
    pub fn new(reagents_root: String) -> (r: Self)
        ensures
            r.spec_root() == reagents_root@,
    {
        ImageManager { reagents_root }
    }

    /// The reagents root.
    pub fn reagents_root(&self) -> (r: &str)
        ensures
            r@ == self.spec_root(),
    {
        self.reagents_root.as_str()
    }

    /// Where cloud images live: `<root>/images/cloud`.
    pub fn cloud_images_dir(&self) -> (r: String)
        ensures
            r@ == path_join(self.spec_root(), "images/cloud"@),
    {
        join_path(self.reagents_root.as_str(), "images/cloud")
    }

    /// Where ISO images live: `<root>/isos`.
    pub fn iso_images_dir(&self) -> (r: String)
        ensures
            r@ == path_join(self.spec_root(), "isos"@),
    {
        join_path(self.reagents_root.as_str(), "isos")
    }

    /// Where templates live: `<root>/images/templates`.
    pub fn templates_dir(&self) -> (r: String)
        ensures
            r@ == path_join(self.spec_root(), "images/templates"@),
    {
        join_path(self.reagents_root.as_str(), "images/templates")
    }

    /// The image for a directory entry, if it is one: a regular file whose
    /// extension is `img`, `qcow2` or `iso`. Its name is the file name, or
    /// `unknown` when the file name is not valid UTF-8 (`file_name` then
    /// holds its lossy rendering).
    pub fn image_entry(
        path: String,
        file_name: &str,
        name_is_utf8: bool,
        is_file: bool,
        size_bytes: u64,
        image_type: ImageType,
    ) -> (r: Option<Image>)
        ensures
            r is Some <==> is_file && is_image_extension(file_extension(file_name@)),
            r matches Some(img) ==> img.path@ == path@ && img.image_type == image_type
                && img.size_bytes == size_bytes && img.name@ == (if name_is_utf8 {
                file_name@
            } else {
                "unknown"@
            }),
    {
        if !is_file {
            return None;
        }
        let ext = extension_of(file_name);
        let image = match &ext {
            Some(e) => str_eq(e.as_str(), "img") || str_eq(e.as_str(), "qcow2") || str_eq(
                e.as_str(),
                "iso",
            ),
            None => false,
        };
        if !image {
            return None;
        }
        let name = if name_is_utf8 {
            owned(file_name)
        } else {
            owned("unknown")
        };
        Some(Image { name, path, image_type, size_bytes })
    }

    /// The first image whose name contains `name`.
    pub fn find_image(images: Vec<Image>, name: &str) -> (r: Option<Image>)
        ensures
            r is None <==> forall|i: int|
                0 <= i < images@.len() ==> !has_infix(#[trigger] images@[i].name@, name@),
            r matches Some(img) ==> exists|i: int|
                0 <= i < images@.len() && img == images@[i] && has_infix(images@[i].name@, name@)
                    && forall|j: int|
                    0 <= j < i ==> !has_infix(#[trigger] images@[j].name@, name@),
    {
        let ghost all = images@;
        let mut pool = images;
        let mut i: usize = 0;
        while i < pool.len()
            invariant
                i <= pool@.len(),
                pool@ == all,
                all == images@,
                forall|j: int| 0 <= j < i ==> !has_infix(#[trigger] all[j].name@, name@),
            decreases pool.len() - i,
        {
            if contains(pool[i].name.as_str(), name) {
                assert(has_infix(all[i as int].name@, name@));
                let found = pool.remove(i);
                assert(found == all[i as int]);
                assert(forall|j: int| 0 <= j < i ==> !has_infix(#[trigger] all[j].name@, name@));
                assert(0 <= i < all.len() && found == all[i as int] && has_infix(
                    all[i as int].name@,
                    name@,
                ) && forall|j: int| 0 <= j < i ==> !has_infix(#[trigger] all[j].name@, name@));
                return Some(found);
            }
            i = i + 1;
        }
        None
    }
}

} // verus!
