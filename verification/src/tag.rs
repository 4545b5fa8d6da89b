use vstd::prelude::*;

verus! {

/// The fields this tool reads from a file's embedded metadata: the title
/// text (empty when absent) and the track number (zero when absent).
pub struct Tag {
    pub title: String,
    pub track: u32,
}

/// The mathematical content of a `Tag`.
pub ghost struct TagView {
    pub title: Seq<char>,
    pub track: u32,
}

impl View for Tag {
    type V = TagView;

    open spec fn view(&self) -> TagView {
        TagView { title: self.title@, track: self.track }
    }
}

impl Tag {
    /// Builds a tag from its two fields.
    pub fn new(title: String, track: u32) -> (r: Tag)
        ensures
            r@.title == title@,
            r@.track == track,
    {
        Tag { title, track }
    }
}

} // verus!
