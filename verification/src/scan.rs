//! The directory scanner: which entries of a directory are images, and which
//! of them is shown first.
//!
//! Listing the directory is the caller's business. The scanner is handed the
//! entries' paths in the order the listing gave them and keeps that order.

use crate::paths::{
    extension, extension_of, is_same_path, parent, parent_of, same_path, text_of, texts_of,
};
use vstd::prelude::*;

verus! {

/// The code of `c`, with an ASCII capital letter counted as its small letter.
pub open spec fn folded_code(c: char) -> int {
    if 'A' <= c && c <= 'Z' {
        c as int + 32
    } else {
        c as int
    }
}

/// Whether two texts are the same up to the case of their ASCII letters.
pub open spec fn same_ignoring_ascii_case(a: Seq<char>, b: Seq<char>) -> bool {
    &&& a.len() == b.len()
    &&& forall|i: int| 0 <= i < a.len() ==> folded_code(#[trigger] a[i]) == folded_code(b[i])
}

/// Whether `ext` is one of the extensions of an image file: `png`, `jpg` or
/// `jpeg`, in any mix of upper and lower case.
pub open spec fn image_extension(ext: Seq<char>) -> bool {
    ||| same_ignoring_ascii_case(ext, "png"@)
    ||| same_ignoring_ascii_case(ext, "jpg"@)
    ||| same_ignoring_ascii_case(ext, "jpeg"@)
}

/// Whether the path written as `path` is that of an image file: it has an
/// extension, and the extension is an image's.
pub open spec fn image_path(path: Seq<char>) -> bool {
    match extension_of(path) {
        Some(ext) => image_extension(ext),
        None => false,
    }
}

/// The image paths among `entries`, in the order of `entries`.
pub open spec fn images_among(entries: Seq<Seq<char>>) -> Seq<Seq<char>> {
    entries.filter(|path: Seq<char>| image_path(path))
}

/// Whether `i` is the first place in `images` that holds the path `start`.
pub open spec fn is_first_match(images: Seq<Seq<char>>, start: Seq<char>, i: int) -> bool {
    &&& 0 <= i < images.len()
    &&& same_path(images[i], start)
    &&& forall|j: int| 0 <= j < i ==> !same_path(#[trigger] images[j], start)
}

/// Whether some place in `images` holds the path `start`.
pub open spec fn holds_path(images: Seq<Seq<char>>, start: Seq<char>) -> bool {
    exists|j: int| 0 <= j < images.len() && same_path(#[trigger] images[j], start)
}

/// Whether `index` is where the viewer starts in `images`: at the first place
/// that holds the starting file, and at 0 where no file was asked for or the
/// set does not hold it.
pub open spec fn is_start_index(
    images: Seq<Seq<char>>,
    start: Option<Seq<char>>,
    index: int,
) -> bool {
    match start {
        Some(start) => if holds_path(images, start) {
            is_first_match(images, start, index)
        } else {
            index == 0
        },
        None => index == 0,
    }
}

fn fold_case(c: char) -> (code: u32)
    ensures
        code == folded_code(c),
{
    let code: u32 = c as u32;
    if 'A' <= c && c <= 'Z' {
        code + 32
    } else {
        code
    }
}

/// Compares two texts up to the case of their ASCII letters.
pub fn eq_ignore_ascii_case(a: &str, b: &str) -> (same: bool)
    ensures
        same == same_ignoring_ascii_case(a@, b@),
{
    let n: usize = a.unicode_len();
    if b.unicode_len() != n {
        return false;
    }
    let mut i: usize = 0;
    while i < n
        invariant
            i <= n,
            n == a@.len(),
            n == b@.len(),
            forall|j: int| 0 <= j < i ==> folded_code(#[trigger] a@[j]) == folded_code(b@[j]),
        decreases n - i,
    {
        if fold_case(a.get_char(i)) != fold_case(b.get_char(i)) {
            return false;
        }
        i += 1;
    }
    true
}

/// Whether `ext` is the extension of an image file.
pub fn is_image_extension(ext: &str) -> (yes: bool)
    ensures
        yes == image_extension(ext@),
{
    eq_ignore_ascii_case(ext, "png") || eq_ignore_ascii_case(ext, "jpg") || eq_ignore_ascii_case(
        ext,
        "jpeg",
    )
}

/// Whether an entry with the extension `ext`, if it has one, is kept.
pub fn accepts_extension(ext: Option<String>) -> (yes: bool)
    ensures
        yes == match ext {
            Some(ext) => image_extension(ext@),
            None => false,
        },
{
    match ext {
        Some(ext) => is_image_extension(ext.as_str()),
        None => false,
    }
}

/// Whether the entry at `path` is an image file, judged by its extension.
pub fn is_image_path(path: &str) -> (yes: bool)
    ensures
        yes == image_path(path@),
{
    accepts_extension(extension(path))
}

/// Keeps the image files among `entries`, in the order they came in.
pub fn select_images(entries: Vec<String>) -> (images: Vec<String>)
    ensures
        texts_of(images@) == images_among(texts_of(entries@)),
{
    let ghost all = texts_of(entries@);
    let ghost keep = |path: Seq<char>| image_path(path);
    let mut images: Vec<String> = Vec::new();
    let mut i: usize = 0;
    proof {
        reveal(Seq::filter);
        assert(all.take(0) =~= Seq::<Seq<char>>::empty());
        assert(texts_of(images@) =~= all.take(0).filter(keep));
    }
    while i < entries.len()
        invariant
            i <= entries.len(),
            all == texts_of(entries@),
            keep == |path: Seq<char>| image_path(path),
            texts_of(images@) == all.take(i as int).filter(keep),
        decreases entries.len() - i,
    {
        let ghost before = texts_of(images@);
        proof {
            reveal(Seq::filter);
            assert(all.take(i + 1).drop_last() =~= all.take(i as int));
            assert(all.take(i + 1).last() == entries@[i as int]@);
        }
        if is_image_path(entries[i].as_str()) {
            images.push(entries[i].clone());
            assert(texts_of(images@) =~= before.push(entries@[i as int]@));
        }
        i += 1;
    }
    proof {
        assert(all.take(i as int) =~= all);
    }
    images
}

/// Where the viewer starts in `images`: at the first place that holds the
/// file `start`, and at 0 where no file was asked for or the set does not
/// hold it.
pub fn initial_index(images: &Vec<String>, start: Option<&str>) -> (index: usize)
    ensures
        is_start_index(
            texts_of(images@),
            match start {
                Some(s) => Some(s@),
                None => None,
            },
            index as int,
        ),
{
    match start {
        None => 0,
        Some(wanted) => {
            let ghost all = texts_of(images@);
            let mut i: usize = 0;
            while i < images.len()
                invariant
                    i <= images.len(),
                    start == Some(wanted),
                    all == texts_of(images@),
                    forall|j: int| 0 <= j < i ==> !same_path(#[trigger] all[j], wanted@),
                decreases images.len() - i,
            {
                if is_same_path(images[i].as_str(), wanted) {
                    assert(same_path(all[i as int], wanted@));
                    return i;
                }
                i += 1;
            }
            0
        },
    }
}

/// What is to be scanned: a directory, and the file to start at if one was
/// asked for.
pub struct ScanTarget {
    pub directory: String,
    pub start: Option<String>,
}

/// The path `path`, or the current directory `.` where none is given.
pub fn or_current_directory(path: Option<String>) -> (chosen: String)
    ensures
        chosen@ == match path {
            Some(path) => path@,
            None => "."@,
        },
{
    match path {
        Some(path) => path,
        None => ".".to_owned(),
    }
}

/// What to scan for the path `path` that the viewer was started with. A
/// directory is scanned itself, with no file to start at. Anything else is
/// taken for a file: its parent is scanned (the current directory where it has
/// none) and the file is where the viewer starts.
pub fn scan_target(path: String, is_directory: bool) -> (target: ScanTarget)
    ensures
        is_directory ==> target.directory@ == path@ && target.start is None,
        !is_directory ==> text_of(target.start) == Some(path@),
        !is_directory ==> target.directory@ == match parent_of(path@) {
            Some(directory) => directory,
            None => "."@,
        },
{
    if is_directory {
        ScanTarget { directory: path, start: None }
    } else {
        let directory = or_current_directory(parent(path.as_str()));
        ScanTarget { directory, start: Some(path) }
    }
}

} // verus!
