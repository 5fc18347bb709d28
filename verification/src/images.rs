//! Images in the chat: pixels become PNG bytes that wait to be sent, and bytes
//! become the base64 text of a message.

use std::collections::hash_map::DefaultHasher;
use std::hash::Hasher;

use base64::Engine;
use vstd::prelude::*;
use vstd::std_specs::hash::DefaultHasherAdditionalSpecFns;

use crate::chat_state::{opt_image, ChatApp, ChatView, ImageView, PendingImage};
use crate::text::opt_text;

verus! {

// ---------------------------------------------------------------------------
// Base64
// ---------------------------------------------------------------------------

/// The text that `base64::engine::general_purpose::STANDARD` encodes bytes as.
pub uninterp spec fn base64_text(bytes: Seq<u8>) -> Seq<char>;

/// The bytes that `base64::engine::general_purpose::STANDARD` decodes a text
/// to; `None` where the text is not valid.
pub uninterp spec fn base64_bytes(text: Seq<char>) -> Option<Seq<u8>>;

/// Calls `Engine::encode` of the standard engine of the base64 crate. The
/// contract names the text it gives.
#[verifier::external_body]
fn base64_encode(bytes: &Vec<u8>) -> (r: String)
    ensures
        r@ == base64_text(bytes@),
{
    base64::engine::general_purpose::STANDARD.encode(bytes)
}

/// The bytes of an optional list.
pub open spec fn opt_bytes(v: Option<Vec<u8>>) -> Option<Seq<u8>> {
    match v {
        Some(b) => Some(b@),
        None => None,
    }
}

/// Whether decoding a text to `r` gives back the bytes it was encoded from.
pub open spec fn gives_back(text: Seq<char>, r: Option<Seq<u8>>) -> bool {
    forall|b: Seq<u8>| text == #[trigger] base64_text(b) ==> r == Some(b)
}

/// Calls `Engine::decode` of the standard engine of the base64 crate. The
/// contract names the bytes it gives, and says that decoding an encoded text
/// gives back the bytes it was made from.
#[verifier::external_body]
fn base64_decode(text: &str) -> (r: Option<Vec<u8>>)
    ensures
        opt_bytes(r) == base64_bytes(text@),
        gives_back(text@, opt_bytes(r)),
{
    base64::engine::general_purpose::STANDARD.decode(text).ok()
}

/// The base64 text of an optional image.
pub open spec fn image_text(image: Option<ImageView>) -> Option<Seq<char>> {
    match image {
        Some(i) => Some(base64_text(i.bytes)),
        None => None,
    }
}

/// The `data:` URI of an optional image in base64 text.
pub open spec fn data_uri(image_text: Option<Seq<char>>) -> Option<Seq<char>> {
    match image_text {
        Some(t) => Some("data:image/png;base64,"@ + t),
        None => None,
    }
}

/// Raw base64 (STANDARD) of a pending image's PNG bytes, for the chat display.
pub fn pending_image_b64(image: &Option<PendingImage>) -> (r: Option<String>)
    ensures
        opt_text(r) == image_text(opt_image(*image)),
{
    match image {
        Some(i) => Some(base64_encode(&i.bytes)),
        None => None,
    }
}

/// The `data:` URI of an image in base64 text, for the model request.
pub fn image_data_uri(image_text: &Option<String>) -> (r: Option<String>)
    ensures
        opt_text(r) == data_uri(opt_text(*image_text)),
{
    match image_text {
        Some(t) => {
            let mut uri = "data:image/png;base64,".to_owned();
            uri.append(t.as_str());
            Some(uri)
        },
        None => None,
    }
}

/// The image bytes of a message, where its base64 text is valid. The bytes
/// that a message was sent with come back.
pub fn message_image(image_text: &str) -> (r: Option<Vec<u8>>)
    ensures
        opt_bytes(r) == base64_bytes(image_text@),
        gives_back(image_text@, opt_bytes(r)),
{
    base64_decode(image_text)
}

// ---------------------------------------------------------------------------
// PNG
// ---------------------------------------------------------------------------

/// The PNG file that the image crate writes for RGBA pixels; `None` where it
/// cannot.
pub uninterp spec fn png_file(width: u32, height: u32, rgba: Seq<u8>) -> Option<Seq<u8>>;

/// Calls `image::RgbaImage::from_raw` on the pixels and writes the image with
/// `write_to` in the PNG format. The contract names the bytes that are
/// written; an image that the crate refuses gives `None`, and it refuses one
/// with fewer bytes than its pixels take.
#[verifier::external_body]
fn png_bytes_from_rgba(w: u32, h: u32, rgba: &Vec<u8>) -> (r: Option<Vec<u8>>)
    ensures
        opt_bytes(r) == png_file(w, h, rgba@),
        rgba@.len() < 4 * (w * h) ==> r is None,
{
    let img = image::RgbaImage::from_raw(w, h, rgba.clone())?;
    let mut buf = std::io::Cursor::new(Vec::new());
    img.write_to(&mut buf, image::ImageFormat::Png).ok()?;
    Some(buf.into_inner())
}

/// The number that stands for an image: what std's default hasher finishes with
/// once the bytes were written to it.
pub open spec fn image_hash(bytes: Seq<u8>) -> u64 {
    DefaultHasher::spec_finish(seq![bytes])
}

/// The number that stands for an image.
fn content_hash(bytes: &Vec<u8>) -> (r: u64)
    ensures
        r == image_hash(bytes@),
{
    let mut hasher = DefaultHasher::new();
    hasher.write(bytes.as_slice());
    assert(hasher@ =~= seq![bytes@]);
    hasher.finish()
}

/// The character of a hexadecimal digit.
pub open spec fn hex_digit(d: int) -> char {
    if d < 10 {
        (48 + d) as char
    } else {
        (87 + d) as char
    }
}

/// The last `n` hexadecimal digits of a number.
pub open spec fn hex(v: int, n: nat) -> Seq<char>
    decreases n,
{
    if n == 0 {
        Seq::empty()
    } else {
        hex(v / 16, (n - 1) as nat).push(hex_digit(v % 16))
    }
}

fn hex_char(d: u64) -> (c: char)
    requires
        d < 16,
    ensures
        c == hex_digit(d as int),
{
    if d == 0 {
        '0'
    } else if d == 1 {
        '1'
    } else if d == 2 {
        '2'
    } else if d == 3 {
        '3'
    } else if d == 4 {
        '4'
    } else if d == 5 {
        '5'
    } else if d == 6 {
        '6'
    } else if d == 7 {
        '7'
    } else if d == 8 {
        '8'
    } else if d == 9 {
        '9'
    } else if d == 10 {
        'a'
    } else if d == 11 {
        'b'
    } else if d == 12 {
        'c'
    } else if d == 13 {
        'd'
    } else if d == 14 {
        'e'
    } else {
        'f'
    }
}

fn hex_text(v: u64, n: usize) -> (r: String)
    ensures
        r@ == hex(v as int, n as nat),
    decreases n,
{
    if n == 0 {
        String::new()
    } else {
        let mut r = hex_text(v / 16, n - 1);
        r.push(hex_char(v % 16));
        r
    }
}

/// The URI of an attached image with the given hash: one per content, for the
/// image loader keeps the first payload of a URI.
pub open spec fn attached_uri(hash: u64) -> Seq<char> {
    "bytes://attached_image_"@ + hex(hash as int, 16) + ".png"@
}

/// The URI of an attached image with the given hash.
pub fn uri_of_hash(hash: u64) -> (r: String)
    ensures
        r@ == attached_uri(hash),
{
    let mut r = "bytes://attached_image_".to_owned();
    r.append(hex_text(hash, 16).as_str());
    r.append(".png");
    r
}

/// Whether some bytes are the RGBA pixels of an image of this size.
pub open spec fn pixels_fit(w: u32, h: u32, len: nat) -> bool {
    w > 0 && h > 0 && len == pixel_bytes(w, h)
}

/// How many bytes the RGBA pixels of an image take; the number stops at the
/// largest that 32 bits hold.
pub open spec fn pixel_bytes(w: u32, h: u32) -> int {
    capped_u32(capped_u32(w * h) * 4)
}

/// A number, or the largest that 32 bits hold where it is larger.
pub open spec fn capped_u32(n: int) -> int {
    if n > u32::MAX {
        u32::MAX as int
    } else {
        n
    }
}

/// Whether some bytes are the RGBA pixels of an image of this size.
pub fn check_pixels(w: u32, h: u32, len: usize) -> (r: bool)
    ensures
        r == pixels_fit(w, h, len as nat),
{
    assert(0 <= w * h <= u64::MAX) by (nonlinear_arith)
        requires
            0 <= w <= u32::MAX,
            0 <= h <= u32::MAX,
    ;
    let max: u64 = u32::MAX as u64;
    let area: u64 = w as u64 * h as u64;
    let pixels: u64 = if area > max {
        max
    } else {
        area
    };
    let expected: u64 = if pixels * 4 > max {
        max
    } else {
        pixels * 4
    };
    w != 0 && h != 0 && len as u64 == expected
}

impl ChatApp {
    /// Let the selected session's next message carry a PNG image; an image
    /// that was there is replaced.
    pub fn attach_png(&mut self, png: Vec<u8>, hash: u64)
        ensures
            final(self)@ == (match old(self)@.selected() {
                Some(k) => old(self)@.with_chat(
                    k,
                    ChatView {
                        pending_image: Some(ImageView { uri: attached_uri(hash), bytes: png@ }),
                        ..old(self)@.sessions[k].chat
                    },
                ),
                None => old(self)@,
            }),
    {
        if let Some(k) = self.find_selected() {
            let image = PendingImage { uri: uri_of_hash(hash), bytes: png };
            self.sessions[k].chat.pending_image = Some(image);
            assert(self@.sessions =~= old(self)@.sessions.update(k as int, self.sessions@[k as int]@));
            assert(self@ =~= old(self)@.with_chat(k as int, self.sessions@[k as int].chat@));
        }
    }

    /// Store RGBA8 pixels as the session's pending image (re-encoded as PNG).
    /// Replaces any previously attached image (one image per message).
    /// Returns true on success: a session is selected, the bytes are the
    /// pixels of the image, and the image can be encoded.
    pub fn attach_rgba(&mut self, w: u32, h: u32, bytes: &Vec<u8>) -> (r: bool)
        ensures
            r == (old(self)@.selected_session_id is Some && pixels_fit(w, h, bytes@.len())
                && png_file(w, h, bytes@) is Some),
            !r ==> final(self)@ == old(self)@,
            r ==> match old(self)@.selected() {
                Some(k) => {
                    let png = png_file(w, h, bytes@)->Some_0;
                    final(self)@ == old(self)@.with_chat(
                        k,
                        ChatView {
                            pending_image: Some(
                                ImageView { uri: attached_uri(image_hash(png)), bytes: png },
                            ),
                            ..old(self)@.sessions[k].chat
                        },
                    )
                },
                None => final(self)@ == old(self)@,
            },
    {
        if self.selected_session_id.is_none() {
            return false;
        }
        if !check_pixels(w, h, bytes.len()) {
            return false;
        }
        match png_bytes_from_rgba(w, h, bytes) {
            Some(png) => {
                let hash: u64 = content_hash(&png);
                self.attach_png(png, hash);
                true
            },
            None => false,
        }
    }

    /// Take the waiting image of the selected session away.
    pub fn detach_image(&mut self)
        ensures
            final(self)@ == (match old(self)@.selected() {
                Some(k) => old(self)@.with_chat(
                    k,
                    ChatView { pending_image: None, ..old(self)@.sessions[k].chat },
                ),
                None => old(self)@,
            }),
    {
        if let Some(k) = self.find_selected() {
            self.sessions[k].chat.pending_image = None;
            assert(self@.sessions =~= old(self)@.sessions.update(k as int, self.sessions@[k as int]@));
            assert(self@ =~= old(self)@.with_chat(k as int, self.sessions@[k as int].chat@));
        }
    }
}

} // verus!
