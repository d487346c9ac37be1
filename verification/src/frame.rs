//! Frames: the units that a connection exchanges.

use vstd::prelude::*;

verus! {

/// The abstract value of a frame.
pub enum FrameView {
    Simple(Seq<char>),
    Error(Seq<char>),
    Integer(u64),
    Bulk(Seq<u8>),
    Null,
    Array(Seq<FrameView>),
}

/// One self-delimited message: a simple string, an error, an integer, a
/// bulk byte-string, null, or an array of frames.
#[derive(Debug, PartialEq, Eq)]
pub enum PlainFrame {
    Simple(String),
    Error(String),
    Integer(u64),
    Bulk(Vec<u8>),
    Null,
    Array(Vec<PlainFrame>),
}

impl View for PlainFrame {
    type V = FrameView;

    open spec fn view(&self) -> FrameView
        decreases self,
    {
        match self {
            PlainFrame::Simple(text) => FrameView::Simple(text@),
            PlainFrame::Error(text) => FrameView::Error(text@),
            PlainFrame::Integer(number) => FrameView::Integer(*number),
            PlainFrame::Bulk(bytes) => FrameView::Bulk(bytes@),
            PlainFrame::Null => FrameView::Null,
            PlainFrame::Array(items) => FrameView::Array(
                Seq::new(
                    items.len() as nat,
                    |i: int|
                        if 0 <= i < items.len() {
                            items[i]@
                        } else {
                            FrameView::Null
                        },
                ),
            ),
        }
    }
}

} // verus!
