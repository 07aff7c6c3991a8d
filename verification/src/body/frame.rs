//! The unit of output of a body.

use http::header::HeaderMap;
use vstd::prelude::*;

verus! {

/// One frame: a chunk of content bytes, or trailing metadata. The tag
/// tells a consumer which it is.
#[derive(Debug)]
pub enum Frame {
    /// A chunk of content.
    Data(Vec<u8>),
    /// Trailing metadata, sent after the content.
    Trailers(HeaderMap),
}

impl Frame {
    /// A frame of content bytes.
    pub fn data(buf: Vec<u8>) -> (frame: Self)
        ensures
            frame == Frame::Data(buf),
    {
        Frame::Data(buf)
    }

    /// A frame of trailers.
    pub fn trailers(map: HeaderMap) -> (frame: Self)
        ensures
            frame == Frame::Trailers(map),
    {
        Frame::Trailers(map)
    }

    /// The number of content bytes the frame carries: the length of a data
    /// chunk, 0 for trailers.
    pub open spec fn len(&self) -> nat {
        match self {
            Frame::Data(buf) => buf@.len(),
            Frame::Trailers(_) => 0,
        }
    }

    pub fn is_data(&self) -> (b: bool)
        ensures
            b == (*self is Data),
    {
        match self {
            Frame::Data(_) => true,
            Frame::Trailers(_) => false,
        }
    }

    pub fn is_trailers(&self) -> (b: bool)
        ensures
            b == (*self is Trailers),
    {
        match self {
            Frame::Data(_) => false,
            Frame::Trailers(_) => true,
        }
    }

    /// The chunk of a data frame.
    pub fn data_ref(&self) -> (data: Option<&Vec<u8>>)
        ensures
            match self {
                Frame::Data(buf) => data == Some(buf),
                Frame::Trailers(_) => data is None,
            },
    {
        match self {
            Frame::Data(buf) => Some(buf),
            Frame::Trailers(_) => None,
        }
    }

    /// The map of a trailers frame.
    pub fn trailers_ref(&self) -> (trailers: Option<&HeaderMap>)
        ensures
            match self {
                Frame::Data(_) => trailers is None,
                Frame::Trailers(map) => trailers == Some(map),
            },
    {
        match self {
            Frame::Data(_) => None,
            Frame::Trailers(map) => Some(map),
        }
    }

    /// Takes the chunk out of a data frame; any other frame is handed back.
    pub fn into_data(self) -> (data: Result<Vec<u8>, Self>)
        ensures
            match self {
                Frame::Data(buf) => data == Ok::<Vec<u8>, Self>(buf),
                Frame::Trailers(_) => data == Err::<Vec<u8>, Self>(self),
            },
    {
        match self {
            Frame::Data(buf) => Ok(buf),
            frame => Err(frame),
        }
    }

    /// Takes the map out of a trailers frame; any other frame is handed
    /// back.
    pub fn into_trailers(self) -> (trailers: Result<HeaderMap, Self>)
        ensures
            match self {
                Frame::Data(_) => trailers == Err::<HeaderMap, Self>(self),
                Frame::Trailers(map) => trailers == Ok::<HeaderMap, Self>(map),
            },
    {
        match self {
            Frame::Trailers(map) => Ok(map),
            frame => Err(frame),
        }
    }
}

} // verus!
