//! What is decided before a picture is turned into an icon: how large the
//! icon is, and where the picture comes from.

use crate::text::{
    chars_of, find_from, first_occurrence, has_prefix, join_two, opt_text, string_of_range,
};
use base64::Engine;
use vstd::prelude::*;

verus! {

/// `base64::DecodeError`, why a text is no base64.
#[verifier::external_type_specification]
#[verifier::external_body]
pub struct ExDecodeError(base64::DecodeError);

/// The bytes that the standard base64 alphabet with padding decodes `text`
/// to, or `None` where `text` is no such encoding.
pub uninterp spec fn base64_decoded(text: Seq<char>) -> Option<Seq<u8>>;

/// `Engine::decode` of `base64::engine::general_purpose::STANDARD`. Whether
/// the text is decoded, and to which bytes, depends on the text alone.
#[verifier::external_body]
fn decode_standard(text: &str) -> (decoded: Result<Vec<u8>, base64::DecodeError>)
    ensures
        match decoded {
            Ok(bytes) => base64_decoded(text@) == Some(bytes@),
            Err(_) => base64_decoded(text@) is None,
        },
{
    base64::engine::general_purpose::STANDARD.decode(text)
}

/// `Display` of `base64::DecodeError`: the words of the decoder. Nothing is
/// claimed of them.
#[verifier::external_body]
fn decode_error_text(error: &base64::DecodeError) -> String {
    error.to_string()
}

/// The side of an icon where none is asked for.
pub const DEFAULT_ICON_SIZE: u32 = 32;

/// How the failure to decode a picture begins.
pub const UNDECODED: &'static str = "无法解码 Base64 数据: ";

/// The failure of a request that names no picture.
pub const NO_PICTURE: &'static str = "必须提供图片路径或Base64编码的图片数据";

/// What stands before the encoded bytes in a data URL.
pub const DATA_MARKER: &'static str = "base64,";

/// The request to turn a picture into an icon. The picture is named by the
/// path of a file or given as base64 text.
#[derive(Debug, PartialEq, Eq)]
pub struct ImageData {
    path: Option<String>,
    base64: Option<String>,
    output_path: String,
    size: Option<u32>,
}

/// The mathematical value of an [`ImageData`].
pub struct ImageDataView {
    pub path: Option<Seq<char>>,
    pub base64: Option<Seq<char>>,
    pub output_path: Seq<char>,
    pub size: Option<u32>,
}

impl View for ImageData {
    type V = ImageDataView;

    closed spec fn view(&self) -> ImageDataView {
        ImageDataView {
            path: opt_text(self.path),
            base64: opt_text(self.base64),
            output_path: self.output_path@,
            size: self.size,
        }
    }
}

/// What came of a conversion.
#[derive(Debug, PartialEq, Eq)]
pub struct ConversionResult {
    success: bool,
    message: String,
    output_path: String,
}

/// The mathematical value of a [`ConversionResult`].
pub struct ConversionResultView {
    pub success: bool,
    pub message: Seq<char>,
    pub output_path: Seq<char>,
}

impl View for ConversionResult {
    type V = ConversionResultView;

    closed spec fn view(&self) -> ConversionResultView {
        ConversionResultView {
            success: self.success,
            message: self.message@,
            output_path: self.output_path@,
        }
    }
}

/// Where the picture comes from.
#[derive(Debug, PartialEq, Eq)]
pub enum ImageSource {
    /// The file at this path.
    File(String),
    /// These bytes.
    Bytes(Vec<u8>),
}

/// The mathematical value of an [`ImageSource`].
pub enum ImageSourceView {
    File(Seq<char>),
    Bytes(Seq<u8>),
}

impl View for ImageSource {
    type V = ImageSourceView;

    open spec fn view(&self) -> ImageSourceView {
        match *self {
            ImageSource::File(path) => ImageSourceView::File(path@),
            ImageSource::Bytes(bytes) => ImageSourceView::Bytes(bytes@),
        }
    }
}

/// The encoded bytes of a text that may be a data URL: what stands between
/// the first marker and the next, or the end; the whole text where it holds
/// no marker.
pub open spec fn payload_of(text: Seq<char>) -> Seq<char> {
    match first_occurrence(text, DATA_MARKER@, 0) {
        None => text,
        Some(at) => {
            let start = at + DATA_MARKER@.len();
            match first_occurrence(text, DATA_MARKER@, start) {
                Some(next) => text.subrange(start, next),
                None => text.skip(start),
            }
        },
    }
}

/// The side of the icon.
pub open spec fn side_of(data: ImageDataView) -> u32 {
    match data.size {
        Some(size) => size,
        None => DEFAULT_ICON_SIZE,
    }
}

/// Where the picture of a request comes from: its file where a path is
/// given, else the bytes of its base64 text, which has to decode.
pub open spec fn source_of(data: ImageDataView) -> Option<ImageSourceView> {
    match data.path {
        Some(path) => Some(ImageSourceView::File(path)),
        None => match data.base64 {
            Some(text) => match base64_decoded(payload_of(text)) {
                Some(bytes) => Some(ImageSourceView::Bytes(bytes)),
                None => None,
            },
            None => None,
        },
    }
}

/// Takes the encoded bytes out of a text that may be a data URL.
pub fn base64_payload(text: &str) -> (payload: String)
    ensures
        payload@ == payload_of(text@),
{
    let chars = chars_of(text);
    let marker = chars_of(DATA_MARKER);
    match find_from(&chars, &marker, 0) {
        None => {
            assert(chars@.subrange(0, chars.len() as int) =~= chars@);
            string_of_range(&chars, 0, chars.len())
        },
        Some(at) => {
            let total = chars.len();
            assert(at + marker@.len() <= total);
            let start = at + marker.len();
            match find_from(&chars, &marker, start) {
                Some(next) => string_of_range(&chars, start, next),
                None => {
                    assert(chars@.subrange(start as int, total as int) =~= chars@.skip(
                        start as int,
                    ));
                    string_of_range(&chars, start, total)
                },
            }
        },
    }
}

/// Decodes the picture that a base64 text or data URL holds. The failure
/// begins with [`UNDECODED`] and goes on with the words of the decoder.
pub fn decode_image_text(text: &str) -> (decoded: Result<Vec<u8>, String>)
    ensures
        match decoded {
            Ok(bytes) => base64_decoded(payload_of(text@)) == Some(bytes@),
            Err(why) => base64_decoded(payload_of(text@)) is None && has_prefix(
                why@,
                UNDECODED@,
            ),
        },
{
    let payload = base64_payload(text);
    match decode_standard(payload.as_str()) {
        Ok(bytes) => Ok(bytes),
        Err(e) => {
            let why = decode_error_text(&e);
            let words = join_two(UNDECODED, why.as_str());
            assert(words@.subrange(0, UNDECODED@.len() as int) =~= UNDECODED@);
            Err(words)
        },
    }
}

impl ImageData {
    /// A request. `path` names the file of the picture, `base64` holds the
    /// picture itself; `path` counts where both are given. `size` is the side
    /// of the icon in pixels.
    pub fn new(
        path: Option<String>,
        base64: Option<String>,
        output_path: String,
        size: Option<u32>,
    ) -> (data: ImageData)
        ensures
            data@ == (ImageDataView {
                path: opt_text(path),
                base64: opt_text(base64),
                output_path: output_path@,
                size,
            }),
    {
        ImageData { path, base64, output_path, size }
    }

    /// The side of the icon in pixels.
    pub fn icon_size(&self) -> (side: u32)
        ensures
            side == side_of(self@),
    {
        match self.size {
            Some(size) => size,
            None => DEFAULT_ICON_SIZE,
        }
    }

    /// The path of the icon file.
    pub fn output_path(&self) -> (path: &str)
        ensures
            path@ == self@.output_path,
    {
        self.output_path.as_str()
    }

    /// Where the picture comes from.
    pub fn source(&self) -> (source: Result<ImageSource, String>)
        ensures
            match source {
                Ok(s) => source_of(self@) == Some(s@),
                Err(why) => source_of(self@) is None && if self@.base64 is None {
                    why@ == NO_PICTURE@
                } else {
                    has_prefix(why@, UNDECODED@)
                },
            },
    {
        match &self.path {
            Some(path) => Ok(ImageSource::File(path.clone())),
            None => match &self.base64 {
                Some(text) => match decode_image_text(text.as_str()) {
                    Ok(bytes) => Ok(ImageSource::Bytes(bytes)),
                    Err(why) => Err(why),
                },
                None => Err(String::from_str(NO_PICTURE)),
            },
        }
    }
}

impl ConversionResult {
    /// The result of a conversion that wrote the icon to `output_path`.
    pub fn converted(output_path: &str) -> (result: ConversionResult)
        ensures
            result@ == (ConversionResultView {
                success: true,
                message: "图片成功转换为.ico格式"@,
                output_path: output_path@,
            }),
    {
        ConversionResult {
            success: true,
            message: String::from_str("图片成功转换为.ico格式"),
            output_path: String::from_str(output_path),
        }
    }

    /// Whether the icon was written.
    pub fn success(&self) -> (b: bool)
        ensures
            b == self@.success,
    {
        self.success
    }

    /// The words for the user.
    pub fn message(&self) -> (words: &str)
        ensures
            words@ == self@.message,
    {
        self.message.as_str()
    }

    /// The path of the icon file.
    pub fn output_path(&self) -> (path: &str)
        ensures
            path@ == self@.output_path,
    {
        self.output_path.as_str()
    }
}

} // verus!
