//! The kind of image that a logo or an icon is.

use vstd::prelude::*;
use vstd::string::StringSliceAdditionalSpecFns;

verus! {

/// The number of bytes at the end of an address that name the kind of
/// image.
pub const LOGO_EXTENSION_SPLIT_SPAN: usize = 4;

/// The kinds of image that the page can show.
#[derive(Clone, Copy, Debug, PartialEq, Eq, Structural)]
pub enum ImageMime {
    ImagePNG,
    ImageJPEG,
    ImageGIF,
    ImageSVG,
}

/// The bytes of `.svg`.
pub open spec fn svg_extension() -> Seq<u8> {
    seq![0x2eu8, 0x73u8, 0x76u8, 0x67u8]
}

/// The bytes of `.jpg`.
pub open spec fn jpg_extension() -> Seq<u8> {
    seq![0x2eu8, 0x6au8, 0x70u8, 0x67u8]
}

/// The bytes of `.gif`.
pub open spec fn gif_extension() -> Seq<u8> {
    seq![0x2eu8, 0x67u8, 0x69u8, 0x66u8]
}

/// The kind of image at an address, by the last four bytes of an address of
/// more than four bytes: `.svg`, `.jpg` and `.gif` name their kinds, and
/// everything else is taken for a PNG image.
pub open spec fn guessed_mime(address: Seq<u8>) -> ImageMime {
    if address.len() > LOGO_EXTENSION_SPLIT_SPAN {
        let extension = address.subrange(address.len() - LOGO_EXTENSION_SPLIT_SPAN, address.len() as int);
        if extension == svg_extension() {
            ImageMime::ImageSVG
        } else if extension == jpg_extension() {
            ImageMime::ImageJPEG
        } else if extension == gif_extension() {
            ImageMime::ImageGIF
        } else {
            ImageMime::ImagePNG
        }
    } else {
        ImageMime::ImagePNG
    }
}

impl ImageMime {
    /// Guesses the kind of image from its address.
    pub fn guess_from(logo_url: &str) -> (mime: ImageMime)
        ensures
            mime == guessed_mime(logo_url.spec_bytes()),
    {
        let bytes = logo_url.as_bytes();
        let length = bytes.len();
        if length > LOGO_EXTENSION_SPLIT_SPAN {
            let dot = bytes[length - 4];
            let first = bytes[length - 3];
            let second = bytes[length - 2];
            let third = bytes[length - 1];
            let ghost extension = bytes@.subrange(length - 4, length as int);
            assert(extension =~= seq![dot, first, second, third]);
            if dot == 0x2e && first == 0x73 && second == 0x76 && third == 0x67 {
                assert(extension =~= svg_extension());
                ImageMime::ImageSVG
            } else if dot == 0x2e && first == 0x6a && second == 0x70 && third == 0x67 {
                assert(extension =~= jpg_extension());
                ImageMime::ImageJPEG
            } else if dot == 0x2e && first == 0x67 && second == 0x69 && third == 0x66 {
                assert(extension =~= gif_extension());
                ImageMime::ImageGIF
            } else {
                assert(extension[0] == dot && extension[1] == first && extension[2] == second
                    && extension[3] == third);
                ImageMime::ImagePNG
            }
        } else {
            ImageMime::ImagePNG
        }
    }

    pub open spec fn spec_as_str(self) -> Seq<char> {
        match self {
            ImageMime::ImagePNG => "image/png"@,
            ImageMime::ImageJPEG => "image/jpeg"@,
            ImageMime::ImageGIF => "image/gif"@,
            ImageMime::ImageSVG => "image/svg"@,
        }
    }

    /// The kind as the page writes it.
    pub fn as_str(&self) -> (text: &'static str)
        ensures
            text@ == self.spec_as_str(),
    {
        match self {
            ImageMime::ImagePNG => "image/png",
            ImageMime::ImageJPEG => "image/jpeg",
            ImageMime::ImageGIF => "image/gif",
            ImageMime::ImageSVG => "image/svg",
        }
    }
}

} // verus!
