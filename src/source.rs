use vstd::prelude::*;
use crate::rect::Rect;

verus! {

/// An image to draw: its pixels, the cells it should take, and a fingerprint
/// of its content that changes exactly when the pixels do.
#[derive(Clone)]
pub struct ImageSource<P> {
    pub pixels: P,
    pub desired: Rect,
    pub identity: u64,
}

impl<P> ImageSource<P> {
    pub fn new(pixels: P, desired: Rect, identity: u64) -> (r: ImageSource<P>)
        ensures
            r.pixels == pixels,
            r.desired == desired,
            r.identity == identity,
    {
        ImageSource { pixels, desired, identity }
    }

    /// The rectangle a frame is encoded for: the one the resize policy chose,
    /// or the desired one when the policy left the image as it is.
    pub fn target(&self, resized: Option<Rect>) -> (r: Rect)
        ensures
            r == (match resized {
                Some(t) => t,
                None => self.desired,
            }),
    {
        match resized {
            Some(t) => t,
            None => self.desired,
        }
    }
}

} // verus!
