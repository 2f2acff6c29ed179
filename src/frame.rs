use vstd::prelude::*;

verus! {

/// One websocket frame, as the relay sees it.
#[derive(Clone, Debug, PartialEq, Eq)]
pub enum Frame {
    Text(String),
    Binary(Vec<u8>),
    Ping(Vec<u8>),
    Pong(Vec<u8>),
    Close,
}

/// The mathematical value of a frame.
pub enum FrameModel {
    Text(Seq<char>),
    Binary(Seq<u8>),
    Ping(Seq<u8>),
    Pong(Seq<u8>),
    Close,
}

impl View for Frame {
    type V = FrameModel;

    open spec fn view(&self) -> FrameModel {
        match self {
            Frame::Text(s) => FrameModel::Text(s@),
            Frame::Binary(b) => FrameModel::Binary(b@),
            Frame::Ping(b) => FrameModel::Ping(b@),
            Frame::Pong(b) => FrameModel::Pong(b@),
            Frame::Close => FrameModel::Close,
        }
    }
}

impl Frame {
    /// Only text frames are relayed; every other kind is local to its connection.
    pub fn is_text(&self) -> (r: bool)
        ensures
            r == (self@ is Text),
    {
        match self {
            Frame::Text(_) => true,
            _ => false,
        }
    }

    /// A copy with the same kind and payload.
    pub fn duplicate(&self) -> (r: Frame)
        ensures
            r@ == self@,
    {
        match self {
            Frame::Text(s) => Frame::Text(s.clone()),
            Frame::Binary(b) => Frame::Binary(b.clone()),
            Frame::Ping(b) => Frame::Ping(b.clone()),
            Frame::Pong(b) => Frame::Pong(b.clone()),
            Frame::Close => Frame::Close,
        }
    }
}

} // verus!
