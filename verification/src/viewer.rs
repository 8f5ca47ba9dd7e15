//! The navigator: an ordered set of image paths and the position in it.
//!
//! A command moves the position; reading the file at the new position is left
//! to the caller, who hands the contents back to be decoded. The position has
//! moved before anything is read, so in a set of several images a file that
//! cannot be decoded is left behind by the next command.

use crate::paths::{file_name, file_name_of, text_of, texts_of};
use crate::pixels::{decode, decoded_rgba8, raster_of, raster_view, PixelBuffer, Raster};
use crate::scan::{images_among, initial_index, is_start_index, select_images};
use vstd::prelude::*;

verus! {

/// What a viewer holds: the image set and the current index.
pub ghost struct Position {
    pub paths: Seq<Seq<char>>,
    pub index: int,
}

impl Position {
    /// The invariant of the navigator: in a set that is not empty the index
    /// is a place in the set.
    pub open spec fn well_formed(self) -> bool {
        &&& 0 <= self.index
        &&& self.paths.len() > 0 ==> self.index < self.paths.len()
    }

    /// The position one step forward, the last image followed by the first.
    pub open spec fn next(self) -> Position {
        Position { index: (self.index + 1) % (self.paths.len() as int), ..self }
    }

    /// The position one step back, the first image preceded by the last.
    pub open spec fn previous(self) -> Position {
        Position {
            index: if self.index == 0 {
                self.paths.len() - 1
            } else {
                self.index - 1
            },
            ..self
        }
    }

    /// The position after the command `direction`: `"previous"` and `"next"`
    /// move it, anything else leaves it, and nothing moves in an empty set.
    pub open spec fn moved(self, direction: Seq<char>) -> Position {
        if self.paths.len() == 0 {
            self
        } else if direction == "previous"@ {
            self.previous()
        } else if direction == "next"@ {
            self.next()
        } else {
            self
        }
    }

    /// The position after `count` steps forward.
    pub open spec fn next_times(self, count: nat) -> Position
        decreases count,
    {
        if count == 0 {
            self
        } else {
            self.next_times((count - 1) as nat).next()
        }
    }

    /// The position after the commands of `directions`, one after another.
    pub open spec fn run(self, directions: Seq<Seq<char>>) -> Position
        decreases directions.len(),
    {
        if directions.len() == 0 {
            self
        } else {
            self.run(directions.drop_last()).moved(directions.last())
        }
    }

    /// The path of the current image, if the index is a place in the set.
    pub open spec fn current(self) -> Option<Seq<char>> {
        if 0 <= self.index < self.paths.len() {
            Some(self.paths[self.index])
        } else {
            None
        }
    }

    /// What is shown of the current image when its file holds `contents`: the
    /// raster that the decoder's answer for its path and these bytes makes,
    /// and nothing where there is no current image.
    pub open spec fn decoded(self, contents: Seq<u8>) -> Option<Raster> {
        match self.current() {
            Some(path) => raster_of(decoded_rgba8(path, contents)),
            None => None,
        }
    }

    /// The name shown for the current image: the final component of its
    /// path, and the empty text where there is no current image or its path
    /// has no final component.
    pub open spec fn display_name(self) -> Seq<char> {
        match self.current() {
            Some(path) => match file_name_of(path) {
                Some(name) => name,
                None => Seq::empty(),
            },
            None => Seq::empty(),
        }
    }
}

/// The navigator of the viewer.
pub struct ImageViewer {
    images: Vec<String>,
    current_index: usize,
}

impl View for ImageViewer {
    type V = Position;

    closed spec fn view(&self) -> Position {
        Position { paths: texts_of(self.images@), index: self.current_index as int }
    }
}

fn same_text(a: &str, b: &str) -> (same: bool)
    ensures
        same == (a@ == b@),
{
    let a = a.to_owned();
    let b = b.to_owned();
    a == b
}

/// The name to show for a final path component: the component itself, or the
/// empty text where there is none.
pub fn name_or_empty(name: Option<String>) -> (shown: String)
    ensures
        shown@ == match name {
            Some(name) => name@,
            None => Seq::empty(),
        },
{
    match name {
        Some(name) => name,
        None => String::new(),
    }
}

impl ImageViewer {
    /// A viewer of `images` that stands at `current_index`.
    pub fn new(images: Vec<String>, current_index: usize) -> (viewer: Self)
        ensures
            viewer@ == (Position { paths: texts_of(images@), index: current_index as int }),
    {
        Self { images, current_index }
    }

    /// A viewer of the image files among the directory entries `entries`, in
    /// their order, that stands at the file `start` if the set holds it and
    /// at the first image otherwise.
    pub fn from_scan(entries: Vec<String>, start: Option<&str>) -> (viewer: Self)
        ensures
            viewer@.paths == images_among(texts_of(entries@)),
            is_start_index(
                viewer@.paths,
                match start {
                    Some(s) => Some(s@),
                    None => None,
                },
                viewer@.index,
            ),
            viewer@.well_formed(),
    {
        let images = select_images(entries);
        let current_index = initial_index(&images, start);
        Self { images, current_index }
    }

    /// The number of images in the set.
    pub fn len(&self) -> (len: usize)
        ensures
            len == self@.paths.len(),
    {
        self.images.len()
    }

    /// The current index.
    pub fn current_index(&self) -> (index: usize)
        ensures
            index == self@.index,
    {
        self.current_index
    }

    /// The path of the current image, if there is one.
    pub fn current_path(&self) -> (path: Option<&str>)
        ensures
            match path {
                Some(path) => Some(path@),
                None => None,
            } == self@.current(),
    {
        if self.current_index < self.images.len() {
            Some(self.images[self.current_index].as_str())
        } else {
            None
        }
    }

    /// Obeys the command `direction` and says which file is to be read next:
    /// the one at the new position, or none in an empty set.
    pub fn navigate(&mut self, direction: &str) -> (target: Option<String>)
        requires
            old(self)@.well_formed(),
        ensures
            final(self)@ == old(self)@.moved(direction@),
            final(self)@.well_formed(),
            text_of(target) == final(self)@.current(),
            target is Some <==> old(self)@.paths.len() > 0,
    {
        let len: usize = self.images.len();
        if len == 0 {
            return None;
        }
        if same_text(direction, "previous") {
            if self.current_index == 0 {
                self.current_index = len - 1;
            } else {
                self.current_index -= 1;
            }
        } else if same_text(direction, "next") {
            self.current_index = (self.current_index + 1) % len;
        }
        Some(self.images[self.current_index].clone())
    }

    /// The name to show for the current image.
    pub fn filename(&self) -> (name: String)
        ensures
            name@ == self@.display_name(),
    {
        if self.current_index < self.images.len() {
            name_or_empty(file_name(self.images[self.current_index].as_str()))
        } else {
            String::new()
        }
    }

    /// Decodes the current image from `contents`, the bytes of its file.
    /// `None` where there is no current image or the bytes cannot be decoded.
    pub fn load_image(&self, contents: &[u8]) -> (image: Option<PixelBuffer>)
        ensures
            raster_view(image) == self@.decoded(contents@),
            image matches Some(buffer) ==> buffer@.fits(),
    {
        if self.current_index < self.images.len() {
            decode(self.images[self.current_index].as_str(), contents)
        } else {
            None
        }
    }

    /// The current image, decoded from `contents`, with the name to show for
    /// it; `None` where `load_image` gives none.
    pub fn load_image_and_filename(&self, contents: &[u8]) -> (shown: Option<(PixelBuffer, String)>)
        ensures
            match shown {
                Some((buffer, name)) => Some(buffer@),
                None => None,
            } == self@.decoded(contents@),
            shown matches Some((buffer, name)) ==> buffer@.fits() && name@
                == self@.display_name(),
    {
        match self.load_image(contents) {
            Some(buffer) => Some((buffer, self.filename())),
            None => None,
        }
    }
}

} // verus!
