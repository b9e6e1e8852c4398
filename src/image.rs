//! Images, and the caption shown in their place until the image is loaded.
use vstd::prelude::*;
use crate::modifier::ContentMode;

verus! {

/// Where an image comes from.
#[derive(Clone, Debug)]
pub enum ImageSource {
    /// Image from a file path.
    File(String),
    /// Image from a URL.
    Url(String),
    /// System icon, by its system image name.
    System(String),
}

/// A view that displays an image.
#[derive(Debug)]
pub struct Image {
    pub source: ImageSource,
    pub content_mode: ContentMode,
}

/// The last segment of a path: what follows its last `/`, or the whole path
/// when it has none.
pub open spec fn last_segment(s: Seq<char>) -> Seq<char>
    decreases s.len(),
{
    if s.len() == 0 {
        s
    } else if s.last() == '/' {
        Seq::empty()
    } else {
        last_segment(s.drop_last()).push(s.last())
    }
}

/// `s` between square brackets.
pub open spec fn bracketed(s: Seq<char>) -> Seq<char> {
    "["@ + s + "]"@
}

/// The placeholder caption of each source: the file name of a file, `[URL]`
/// for a URL, the name of a system image; each between brackets.
pub open spec fn caption_of(source: ImageSource) -> Seq<char> {
    match source {
        ImageSource::File(path) => bracketed(last_segment(path@)),
        ImageSource::Url(_) => "[URL]"@,
        ImageSource::System(name) => bracketed(name@),
    }
}

/// The text between square brackets, as placeholders show a name.
pub fn bracket(s: &str) -> (r: String)
    ensures
        r@ == bracketed(s@),
{
    let mut r = String::from_str("[");
    r.append(s);
    r.append("]");
    r
}

/// The file name at the end of a path: the text after its last `/`.
pub fn file_name(path: &str) -> (r: &str)
    ensures
        r@ == last_segment(path@),
{
    let n = path.unicode_len();
    let mut i: usize = n;
    assert(path@.subrange(0, n as int) == path@);
    assert(last_segment(path@) + path@.subrange(n as int, n as int) =~= last_segment(path@));
    while i > 0 && path.get_char(i - 1) != '/'
        invariant
            n == path@.len(),
            i <= n,
            last_segment(path@) == last_segment(path@.subrange(0, i as int)) + path@.subrange(
                i as int,
                n as int,
            ),
        decreases i,
    {
        let ghost head = path@.subrange(0, i as int);
        assert(head.drop_last() == path@.subrange(0, i - 1));
        assert(path@.subrange(i - 1, n as int) == seq![path@[i - 1]] + path@.subrange(
            i as int,
            n as int,
        ));
        assert(last_segment(head) == last_segment(path@.subrange(0, i - 1)).push(path@[i - 1]));
        assert(last_segment(path@.subrange(0, i - 1)).push(path@[i - 1]) + path@.subrange(
            i as int,
            n as int,
        ) =~= last_segment(path@.subrange(0, i - 1)) + path@.subrange(i - 1, n as int));
        i = i - 1;
    }
    assert(last_segment(path@.subrange(0, i as int)) =~= Seq::<char>::empty());
    assert(Seq::<char>::empty() + path@.subrange(i as int, n as int) =~= path@.subrange(
        i as int,
        n as int,
    ));
    path.substring_char(i, n)
}

impl Image {
    /// An image from a file path, fitted to its frame.
    pub fn new(path: &str) -> (r: Image)
        ensures
            r.source matches ImageSource::File(p) && p@ == path@,
            r.content_mode == ContentMode::Fit,
    {
        Image { source: ImageSource::File(String::from_str(path)), content_mode: ContentMode::Fit }
    }

    /// An image from a URL, fitted to its frame.
    pub fn url(url: &str) -> (r: Image)
        ensures
            r.source matches ImageSource::Url(u) && u@ == url@,
            r.content_mode == ContentMode::Fit,
    {
        Image { source: ImageSource::Url(String::from_str(url)), content_mode: ContentMode::Fit }
    }

    /// A system icon, by its system image name, fitted to its frame.
    pub fn system_name(name: &str) -> (r: Image)
        ensures
            r.source matches ImageSource::System(n) && n@ == name@,
            r.content_mode == ContentMode::Fit,
    {
        Image {
            source: ImageSource::System(String::from_str(name)),
            content_mode: ContentMode::Fit,
        }
    }

    /// Sets the content mode.
    pub fn content_mode(self, mode: ContentMode) -> (r: Image)
        ensures
            r.source == self.source,
            r.content_mode == mode,
    {
        Image { content_mode: mode, ..self }
    }

    /// Makes the image resizable: it scales to fit its frame.
    pub fn resizable(self) -> (r: Image)
        ensures
            r.source == self.source,
            r.content_mode == ContentMode::Fit,
    {
        Image { content_mode: ContentMode::Fit, ..self }
    }

    /// Scales the image to fill its frame.
    pub fn scale_to_fill(self) -> (r: Image)
        ensures
            r.source == self.source,
            r.content_mode == ContentMode::Fill,
    {
        Image { content_mode: ContentMode::Fill, ..self }
    }

    /// Scales the image to fit its frame.
    pub fn scale_to_fit(self) -> (r: Image)
        ensures
            r.source == self.source,
            r.content_mode == ContentMode::Fit,
    {
        Image { content_mode: ContentMode::Fit, ..self }
    }

    /// The caption shown in place of the image: `[photo.png]` for a file
    /// (its name without the directories), `[URL]` for a URL, `[star]` for a
    /// system image.
    pub fn placeholder_caption(&self) -> (r: String)
        ensures
            r@ == caption_of(self.source),
    {
        match &self.source {
            ImageSource::File(path) => bracket(file_name(path.as_str())),
            ImageSource::Url(_) => String::from_str("[URL]"),
            ImageSource::System(name) => bracket(name.as_str()),
        }
    }
}

} // verus!
