//! Images: links to image resources, and a place kept for gradients.

use vstd::prelude::*;
use super::url::Url;
use super::IntoCss;

verus! {

/// A token that nothing can build. A variant that holds one cannot be
/// reached.
#[derive(Clone, Copy, Debug, PartialEq, Eq, Structural)]
pub struct Sealed {
    seal: bool,
}

/// Gradients have no values so far: the only variant cannot be built.
/// The type keeps their place among the images.
#[derive(Clone, Copy, Debug, PartialEq, Eq, Structural)]
pub enum Gradient {
    Pending(Sealed),
}

impl IntoCss for Gradient {
    open spec fn renderable(&self) -> bool {
        false
    }

    open spec fn css(&self) -> Seq<char> {
        Seq::empty()
    }

    fn into_css(self) -> (text: String) {
        String::new()
    }
}

/// An image.
#[derive(Debug, PartialEq, Eq)]
pub enum Image {
    Url(Url),
    Gradient(Gradient),
}

impl Image {
    /// The text of the image, without taking the image apart.
    pub fn render(&self) -> (text: String)
        requires
            self.renderable(),
        ensures
            text@ == self.css(),
    {
        match self {
            Image::Url(link) => link.render(),
            Image::Gradient(_) => String::new(),
        }
    }
}

impl Clone for Image {
    fn clone(&self) -> (copy: Self)
        ensures
            copy == *self,
    {
        match self {
            Image::Url(link) => Image::Url(link.clone()),
            Image::Gradient(gradient) => Image::Gradient(*gradient),
        }
    }
}

impl IntoCss for Image {
    open spec fn renderable(&self) -> bool {
        match self {
            Image::Url(link) => link.renderable(),
            Image::Gradient(gradient) => gradient.renderable(),
        }
    }

    open spec fn css(&self) -> Seq<char> {
        match self {
            Image::Url(link) => link.css(),
            Image::Gradient(gradient) => gradient.css(),
        }
    }

    fn into_css(self) -> (text: String) {
        match self {
            Image::Url(link) => link.into_css(),
            Image::Gradient(gradient) => gradient.into_css(),
        }
    }
}

impl From<Url> for Image {
    fn from(link: Url) -> (image: Self) {
        Image::Url(link)
    }
}

impl vstd::std_specs::convert::FromSpecImpl<Url> for Image {
    open spec fn obeys_from_spec() -> bool {
        true
    }

    open spec fn from_spec(link: Url) -> Self {
        Image::Url(link)
    }
}

} // verus!
