use vstd::prelude::*;

verus! {

/// An RGBA color, one byte per channel.
#[derive(Clone, Copy, Debug, PartialEq, Eq)]
pub struct Rgba {
    pub r: u8,
    pub g: u8,
    pub b: u8,
    pub a: u8,
}

/// An axis-aligned rectangle in world coordinates, with its color.
///
/// Position and size are the bit patterns of single-precision floats: the store
/// and the layout carry them through without reading them.
#[derive(Clone, Copy, Debug, PartialEq, Eq)]
pub struct Shape {
    pub x: u32,
    pub y: u32,
    pub w: u32,
    pub h: u32,
    pub color: Rgba,
}

/// One piece of debug data: a preformatted line of text or a rectangle.
#[derive(Debug, PartialEq, Eq)]
pub enum Entry {
    Message(String),
    Shape(Shape),
}

impl Clone for Entry {
    fn clone(&self) -> (r: Self)
        ensures
            r == *self,
    {
        match self {
            Entry::Message(s) => Entry::Message(s.clone()),
            Entry::Shape(s) => Entry::Shape(*s),
        }
    }
}

/// An entry of the history, stamped with the frame in which it was recorded.
#[derive(Debug, PartialEq, Eq)]
pub struct Record {
    pub frame: u64,
    pub entry: Entry,
}

impl Clone for Record {
    fn clone(&self) -> (r: Self)
        ensures
            r == *self,
    {
        Record { frame: self.frame, entry: self.entry.clone() }
    }
}

} // verus!
