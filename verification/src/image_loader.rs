//! Decoding the images that the chat shows.

use vstd::prelude::*;

verus! {

/// Decodes image bytes (png/jpg/jpeg/gif/bmp/webp) with the `image` crate.
pub struct ImageBytesLoader;

/// An image as pixels: four bytes each, red, green, blue and alpha, row by row.
pub struct DecodedImage {
    pub width: u32,
    pub height: u32,
    pub rgba: Vec<u8>,
}

/// The pixels that a file holds, or why it cannot be decoded.
#[verifier::ext_equal]
pub enum Decoding {
    Pixels { width: u32, height: u32, rgba: Seq<u8> },
    Refused(Seq<char>),
}

/// What `image::load_from_memory` makes of a file: its pixels as RGBA with
/// eight bits each, or the text of the error.
pub uninterp spec fn decoding(file: Seq<u8>) -> Decoding;

/// What a result of decoding says.
pub open spec fn decoded(r: Result<DecodedImage, String>) -> Decoding {
    match r {
        Ok(i) => Decoding::Pixels { width: i.width, height: i.height, rgba: i.rgba@ },
        Err(e) => Decoding::Refused(e@),
    }
}

/// Calls `image::load_from_memory` and turns the image into RGBA bytes with
/// `into_rgba8` and `into_raw`; an error becomes its text. The contract names
/// what comes out of it.
#[verifier::external_body]
fn load_from_memory(file: &Vec<u8>) -> (r: Result<DecodedImage, String>)
    ensures
        decoded(r) == decoding(file@),
{
    match image::load_from_memory(file) {
        Ok(img) => {
            let img = img.into_rgba8();
            let (width, height) = img.dimensions();
            Ok(DecodedImage { width, height, rgba: img.into_raw() })
        },
        Err(e) => Err(e.to_string()),
    }
}

/// How an image file comes to be loaded.
pub enum BytesPoll {
    Ready(Vec<u8>),
    /// The bytes are still on their way.
    Pending,
    /// Nothing has bytes under this URI.
    Missing,
}

/// What the loader answers.
pub enum ImagePoll {
    Ready(DecodedImage),
    /// Ask again in a later frame.
    Pending,
    /// Other loaders may have a turn.
    NotMine,
    /// The bytes are no image that can be decoded; the text says why.
    FormatNotSupported(String),
}

/// Whether `r` is the answer to a poll, where `d` is what decoding gives.
pub open spec fn answers(poll: BytesPoll, d: Decoding, r: ImagePoll) -> bool {
    match poll {
        BytesPoll::Ready(_) => match d {
            Decoding::Pixels { width, height, rgba } => r matches ImagePoll::Ready(i) && i.width
                == width && i.height == height && i.rgba@ == rgba,
            Decoding::Refused(e) => r matches ImagePoll::FormatNotSupported(f) && f@ == e,
        },
        BytesPoll::Pending => r is Pending,
        BytesPoll::Missing => r is NotMine,
    }
}

impl ImageBytesLoader {
    /// Answer for bytes that were polled.
    pub fn load(&self, poll: &BytesPoll) -> (r: ImagePoll)
        ensures
            answers(
                *poll,
                match *poll {
                    BytesPoll::Ready(file) => decoding(file@),
                    _ => Decoding::Refused(Seq::empty()),
                },
                r,
            ),
    {
        match poll {
            BytesPoll::Ready(file) => loaded(load_from_memory(file)),
            BytesPoll::Pending => ImagePoll::Pending,
            BytesPoll::Missing => ImagePoll::NotMine,
        }
    }
}

/// The answer for bytes that were decoded.
pub fn loaded(result: Result<DecodedImage, String>) -> (r: ImagePoll)
    ensures
        match result {
            Ok(i) => r == ImagePoll::Ready(i),
            Err(e) => r == ImagePoll::FormatNotSupported(e),
        },
{
    match result {
        Ok(image) => ImagePoll::Ready(image),
        Err(e) => ImagePoll::FormatNotSupported(e),
    }
}

} // verus!
