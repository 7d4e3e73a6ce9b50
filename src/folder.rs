use crate::config::{Config, InvocationMode};
use crate::paths::{
    extension_of, lower_of, lowercase, path_extension, paths_equal, same_path, same_text,
};
use vstd::arithmetic::div_mod::{lemma_mod_add_multiples_vanish, lemma_mod_self_0, lemma_small_mod};
use vstd::prelude::*;

verus! {

/// Error returned when a folder holds no supported image file.
pub const NO_SUPPORTED_FILES: &'static str = "No supported image files in the directory.";

/// One entry of a folder listing: its full path, its file name, and whether it
/// is a regular file.
#[derive(Debug)]
pub struct Entry {
    pub path: String,
    pub name: String,
    pub is_file: bool,
}

/// Whether a lowercase extension is one of the supported image formats.
pub open spec fn supported_extension(ext: Seq<char>) -> bool {
    ext == "jpeg"@ || ext == "jpg"@ || ext == "png"@ || ext == "webp"@
}

/// Whether a path names a supported image by its extension, in any case.
pub open spec fn supported_path(path: Seq<char>) -> bool {
    match extension_of(path) {
        Some(ext) => supported_extension(lower_of(ext)),
        None => false,
    }
}

/// Whether an entry is shown: a regular file with a supported extension.
pub open spec fn is_image(e: Entry) -> bool {
    e.is_file && supported_path(e.path@)
}

/// The entries of a listing that are shown, in listing order.
pub open spec fn images_of(listing: Seq<Entry>) -> Seq<Entry>
    decreases listing.len(),
{
    if listing.len() == 0 {
        Seq::empty()
    } else {
        let before = images_of(listing.drop_last());
        if is_image(listing.last()) {
            before.push(listing.last())
        } else {
            before
        }
    }
}

/// Whether `pos` is where the cursor starts over `images` when the viewer was
/// started on `target`: the first entry whose path equals `target`, or the
/// first entry where none does.
pub open spec fn starts_at(images: Seq<Entry>, target: Seq<char>, pos: int) -> bool {
    if exists|i: int| 0 <= i < images.len() && same_path(#[trigger] images[i].path@, target) {
        &&& 0 <= pos < images.len()
        &&& same_path(images[pos].path@, target)
        &&& forall|j: int| 0 <= j < pos ==> !same_path(#[trigger] images[j].path@, target)
    } else {
        pos == 0
    }
}

/// Whether a lowercase extension is one of the supported image formats.
pub fn is_supported_extension(ext: &str) -> (r: bool)
    ensures
        r == supported_extension(ext@),
{
    same_text(ext, "jpeg") || same_text(ext, "jpg") || same_text(ext, "png") || same_text(
        ext,
        "webp",
    )
}

/// A copy of an entry.
fn copy_entry(e: &Entry) -> (r: Entry)
    ensures
        r == *e,
{
    Entry { path: e.path.clone(), name: e.name.clone(), is_file: e.is_file }
}

/// The index of the first image whose path equals `target`, or 0 where none does.
fn first_with_path(images: &Vec<Entry>, target: &str) -> (r: usize)
    requires
        images@.len() > 0,
    ensures
        starts_at(images@, target@, r as int),
{
    let mut i: usize = 0;
    while i < images.len()
        invariant
            i <= images@.len(),
            forall|j: int| 0 <= j < i ==> !same_path(#[trigger] images@[j].path@, target@),
        decreases images@.len() - i,
    {
        if paths_equal(images[i].path.as_str(), target) {
            return i;
        }
        i += 1;
    }
    0
}

/// A folder's supported image files with a cursor that wraps around at both ends.
pub struct FolderView {
    elements: Vec<Entry>,
    cur: usize,
}

impl FolderView {
    /// The images of the folder, in listing order.
    pub closed spec fn entries(&self) -> Seq<Entry> {
        self.elements@
    }

    /// The index of the current image.
    pub closed spec fn position(&self) -> int {
        self.cur as int
    }

    /// The cursor stands on one of at least one image.
    pub open spec fn wf(&self) -> bool {
        0 <= self.position() < self.entries().len()
    }

    /// Builds the view of a folder from its listing: the regular files with a
    /// supported extension, in listing order. In directory mode the cursor
    /// starts on the first image; in file mode on the first image whose path
    /// equals the configured path, or on the first image where none does.
    ///
    /// Fails iff the listing holds no such file.
    pub fn from(config: &Config, listing: &Vec<Entry>) -> (r: Result<FolderView, &'static str>)
        ensures
            r is Err <==> images_of(listing@).len() == 0,
            r matches Err(e) ==> e == NO_SUPPORTED_FILES,
            r matches Ok(v) ==> {
                &&& v.wf()
                &&& v.entries() == images_of(listing@)
                &&& config.invoked_as == InvocationMode::Directory ==> v.position() == 0
                &&& config.invoked_as == InvocationMode::File ==> starts_at(
                    v.entries(),
                    config.args.path@,
                    v.position(),
                )
            },
    {
        let mut images: Vec<Entry> = Vec::new();
        let mut i: usize = 0;
        while i < listing.len()
            invariant
                i <= listing@.len(),
                images@ == images_of(listing@.subrange(0, i as int)),
            decreases listing@.len() - i,
        {
            let e = &listing[i];
            let ghost seen = listing@.subrange(0, i + 1);
            assert(seen.drop_last() =~= listing@.subrange(0, i as int));
            assert(seen.last() == *e);
            if e.is_file && Self::is_supported_file_format(e.path.as_str()) {
                images.push(copy_entry(e));
            }
            i += 1;
        }
        assert(listing@.subrange(0, listing@.len() as int) =~= listing@);
        if images.len() == 0 {
            return Err(NO_SUPPORTED_FILES);
        }
        let cur = match config.invoked_as {
            InvocationMode::Directory => 0,
            InvocationMode::File => first_with_path(&images, config.args.path.as_str()),
        };
        Ok(FolderView { elements: images, cur })
    }

    /// Moves the cursor to the next image, wrapping from the last to the first,
    /// and returns that image.
    pub fn next(&mut self) -> (r: &Entry)
        requires
            old(self).wf(),
        ensures
            final(self).wf(),
            final(self).entries() == old(self).entries(),
            final(self).position() == (old(self).position() + 1) % old(self).entries().len() as int,
            *r == final(self).entries()[final(self).position()],
    {
        let ghost n = self.elements@.len() as int;
        if self.cur == self.elements.len() - 1 {
            proof {
                lemma_mod_self_0(n);
            }
            self.cur = 0;
        } else {
            proof {
                lemma_small_mod((self.cur + 1) as nat, n as nat);
            }
            self.cur += 1;
        }
        &self.elements[self.cur]
    }

    /// Moves the cursor to the previous image, wrapping from the first to the
    /// last, and returns that image.
    pub fn prev(&mut self) -> (r: &Entry)
        requires
            old(self).wf(),
        ensures
            final(self).wf(),
            final(self).entries() == old(self).entries(),
            final(self).position() == (old(self).position() + old(self).entries().len() - 1)
                % old(self).entries().len() as int,
            *r == final(self).entries()[final(self).position()],
    {
        let ghost n = self.elements@.len() as int;
        if self.cur == 0 {
            proof {
                lemma_small_mod((n - 1) as nat, n as nat);
            }
            self.cur = self.elements.len() - 1;
        } else {
            proof {
                lemma_mod_add_multiples_vanish(self.cur - 1, n);
                lemma_small_mod((self.cur - 1) as nat, n as nat);
            }
            self.cur -= 1;
        }
        &self.elements[self.cur]
    }

    /// The current image.
    pub fn cur(&self) -> (r: &Entry)
        requires
            self.wf(),
        ensures
            *r == self.entries()[self.position()],
    {
        &self.elements[self.cur]
    }

    /// Moving the cursor to the next image and then to the previous one leaves
    /// it where it was, and so does the reverse order.
    pub proof fn lemma_next_prev_inverse(&self)
        requires
            self.wf(),
        ensures
            ({
                let n = self.entries().len() as int;
                let p = self.position();
                &&& ((p + 1) % n + n - 1) % n == p
                &&& ((p + n - 1) % n + 1) % n == p
            }),
    {
        let n = self.entries().len() as int;
        let p = self.position();
        if p == n - 1 {
            lemma_mod_self_0(n);
            lemma_small_mod((n - 1) as nat, n as nat);
        } else {
            lemma_small_mod((p + 1) as nat, n as nat);
            lemma_mod_add_multiples_vanish(p, n);
        }
        lemma_small_mod(p as nat, n as nat);
        if p == 0 {
            lemma_small_mod((n - 1) as nat, n as nat);
            lemma_mod_self_0(n);
        } else {
            lemma_mod_add_multiples_vanish(p - 1, n);
            lemma_small_mod((p - 1) as nat, n as nat);
        }
    }

    /// Whether a path names a supported image file format by its extension
    /// (jpeg, jpg, png or webp, in any case).
    pub fn is_supported_file_format(path: &str) -> (r: bool)
        ensures
            r == supported_path(path@),
    {
        match path_extension(path) {
            Some(ext) => {
                let lower = lowercase(ext.as_str());
                is_supported_extension(lower.as_str())
            },
            None => false,
        }
    }
}

} // verus!
