//! Posts and their ownership.

use vstd::prelude::*;

verus! {

/// Placeholder type for holding an image.
pub type Image = ();

/// A post holds its author and optional content and/or image.
///
/// The identifier is present exactly when the record has been persisted;
/// the author is the identifier of a persisted user and never changes.
#[derive(Debug)]
pub struct Post {
    pub id: Option<u64>,
    pub author: u64,
    pub content: Option<String>,
    pub image: Option<Image>,
}

/// The mathematical value of a [`Post`].
pub struct PostV {
    pub id: Option<u64>,
    pub author: u64,
    pub content: Option<Seq<char>>,
    pub image: Option<Image>,
}

impl View for Post {
    type V = PostV;

    open spec fn view(&self) -> PostV {
        PostV {
            id: self.id,
            author: self.author,
            content: match self.content {
                Some(s) => Some(s@),
                None => None,
            },
            image: self.image,
        }
    }
}

impl Clone for Post {
    fn clone(&self) -> (r: Self)
        ensures
            r == *self,
    {
        Post {
            id: self.id,
            author: self.author,
            content: match &self.content {
                Some(s) => Some(s.clone()),
                None => None,
            },
            image: self.image,
        }
    }
}

impl Post {
    /// Create a new post from an author and content.  This does not save
    /// the post to any store, so the new record carries no identifier.
    pub fn create(author: u64, content: Option<String>, image: Option<Image>) -> (r: Post)
        ensures
            r.id is None,
            r.author == author,
            r@.content == (match content {
                Some(s) => Some::<Seq<char>>(s@),
                None => None::<Seq<char>>,
            }),
            r.image == image,
    {
        Post { id: None, author, content, image }
    }
}

} // verus!
