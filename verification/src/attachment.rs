//! Attachments: the media type under which content is uploaded, and which
//! media types the content-generation service takes.

use vstd::prelude::*;
use vstd::string::*;

verus! {

/// The media type of content whose own type is unknown or not taken.
pub const DEFAULT_MIME: &'static str = "text/plain";

/// The file name of content that has none.
pub const DEFAULT_FILE_NAME: &'static str = "file.txt";

/// The bytes that stand for content that could not be fetched.
pub const EMPTY_CONTENT: &'static str = "[empty]";

/// The top-level type and the subtype that a media type parses to, or
/// `None` where the text is no media type.
pub uninterp spec fn parsed_media_type(text: Seq<char>) -> Option<(Seq<char>, Seq<char>)>;

/// `str::parse` to a `mime::Mime`, then `Mime::type_` and `Mime::subtype`:
/// the two names of the media type that the text parses to, or `None` where
/// it does not parse.
#[verifier::external_body]
fn parse_media_type(text: &str) -> (parsed: Option<(String, String)>)
    ensures
        match parsed {
            Some(names) => parsed_media_type(text@) == Some((names.0@, names.1@)),
            None => parsed_media_type(text@) is None,
        },
{
    match text.parse::<mime::Mime>() {
        Ok(mime) => Some((mime.type_().as_str().to_string(), mime.subtype().as_str().to_string())),
        Err(_) => None,
    }
}

/// A media type by its top-level type and its subtype.
#[derive(Clone, Debug)]
pub struct MimeType {
    pub type_: String,
    pub subtype: String,
}

/// The media type under which content of the given parsed media type is
/// uploaded: the type, a slash and the subtype, without parameters; one
/// media type that the service refuses is replaced by the default one.
pub open spec fn sanitized(names: (Seq<char>, Seq<char>)) -> Seq<char> {
    let essence = names.0 + "/"@ + names.1;
    if essence == "application/rls-services"@ {
        DEFAULT_MIME@
    } else {
        essence
    }
}

/// Brings a parsed media type into the form under which content is
/// uploaded.
pub fn sanitize_media_type(mime: &MimeType) -> (content_type: String)
    ensures
        content_type@ == sanitized((mime.type_@, mime.subtype@)),
{
    let mut essence = String::from_str(mime.type_.as_str());
    essence.append("/");
    essence.append(mime.subtype.as_str());
    if *essence.as_str() == *"application/rls-services" {
        String::from_str(DEFAULT_MIME)
    } else {
        essence
    }
}

/// Parses `content_type` and brings it into the form under which content
/// is uploaded, or returns `None` where it is no media type.
pub fn sanitize_content_type(content_type: &str) -> (result: Option<String>)
    ensures
        match parsed_media_type(content_type@) {
            Some(names) => result matches Some(text) && text@ == sanitized(names),
            None => result is None,
        },
{
    match parse_media_type(content_type) {
        Some(names) => {
            let mime = MimeType { type_: names.0, subtype: names.1 };
            Some(sanitize_media_type(&mime))
        },
        None => None,
    }
}

/// Content that is ready to be uploaded.
#[derive(Debug)]
pub struct AttachmentContent<'a> {
    pub content_type: String,
    pub file_name: Option<&'a str>,
    pub bytes: Vec<u8>,
}

/// A file that was registered and uploaded.
#[derive(Clone, Debug)]
pub struct GeminiAttachment {
    pub uri: String,
    pub content_type: String,
}

impl<'a> AttachmentContent<'a> {
    /// The content that stands for what could not be fetched: a short
    /// plain text without a file name.
    pub fn default() -> (content: Self)
        ensures
            content.content_type@ == DEFAULT_MIME@,
            content.file_name is None,
            content.bytes@ == EMPTY_CONTENT.spec_bytes(),
    {
        Self {
            content_type: String::from_str(DEFAULT_MIME),
            file_name: None,
            bytes: EMPTY_CONTENT.as_bytes_vec(),
        }
    }

    /// Content of the given media type, which defaults to plain text, or
    /// `None` where the media type does not parse.
    pub fn new(content_type: Option<&str>, file_name: Option<&'a str>, bytes: Vec<u8>) -> (result:
        Option<Self>)
        ensures
            match parsed_media_type(
                match content_type {
                    Some(text) => text@,
                    None => DEFAULT_MIME@,
                },
            ) {
                Some(names) => result matches Some(content) && content.content_type@ == sanitized(
                    names,
                ) && content.file_name == file_name && content.bytes == bytes,
                None => result is None,
            },
    {
        let given: &str = match content_type {
            Some(text) => text,
            None => DEFAULT_MIME,
        };
        match sanitize_content_type(given) {
            Some(content_type) => Some(Self { content_type, file_name, bytes }),
            None => None,
        }
    }

    /// The name under which the content is uploaded.
    pub fn upload_name(&self) -> (name: &str)
        ensures
            name@ == match self.file_name {
                Some(name) => name@,
                None => DEFAULT_FILE_NAME@,
            },
    {
        match self.file_name {
            Some(name) => name,
            None => DEFAULT_FILE_NAME,
        }
    }

    /// The size of the content as it is announced, or `None` where it does
    /// not fit the announcement.
    pub fn content_size(&self) -> (size: Option<u32>)
        ensures
            size == if self.bytes@.len() <= u32::MAX {
                Some(self.bytes@.len() as u32)
            } else {
                None
            },
    {
        if self.bytes.len() <= u32::MAX as usize {
            Some(self.bytes.len() as u32)
        } else {
            None
        }
    }
}

/// Whether the service takes content of the media type with these names.
pub open spec fn supported_media(type_: Seq<char>, subtype: Seq<char>) -> bool {
    ||| type_ == "audio"@ && (subtype == "wav"@ || subtype == "mpeg"@ || subtype == "mp3"@
        || subtype == "aiff"@ || subtype == "aac"@ || subtype == "ogg"@ || subtype == "flac"@)
    ||| type_ == "application"@ && (subtype == "pdf"@ || subtype == "x-javascript"@ || subtype
        == "rls-services"@ || subtype == "x-python"@)
    ||| type_ == "text"@ && (subtype == "javascript"@ || subtype == "x-python"@ || subtype
        == "plain"@ || subtype == "html"@ || subtype == "css"@ || subtype == "md"@ || subtype
        == "csv"@ || subtype == "xml"@ || subtype == "rtf"@)
    ||| type_ == "image"@ && (subtype == "png"@ || subtype == "jpeg"@ || subtype == "webp"@
        || subtype == "heic"@ || subtype == "heif"@)
    ||| type_ == "video"@ && (subtype == "mp4"@ || subtype == "mpeg"@ || subtype == "mov"@
        || subtype == "quicktime"@ || subtype == "avi"@ || subtype == "x-flv"@ || subtype
        == "mpg"@ || subtype == "webm"@ || subtype == "wmv"@ || subtype == "3gpp"@)
}

/// Whether the service takes content of the media type `mime`.
pub fn is_supported_mime(mime: &MimeType) -> (supported: bool)
    ensures
        supported == supported_media(mime.type_@, mime.subtype@),
{
    let type_: &str = mime.type_.as_str();
    let subtype: &str = mime.subtype.as_str();
    let is_audio: bool = *type_ == *"audio";
    let is_application: bool = *type_ == *"application";
    let is_text: bool = *type_ == *"text";
    let is_image: bool = *type_ == *"image";
    let is_video: bool = *type_ == *"video";
    let audio: bool = *subtype == *"wav" || *subtype == *"mpeg" || *subtype == *"mp3" || *subtype
        == *"aiff" || *subtype == *"aac" || *subtype == *"ogg" || *subtype == *"flac";
    let application: bool = *subtype == *"pdf" || *subtype == *"x-javascript" || *subtype
        == *"rls-services" || *subtype == *"x-python";
    let text: bool = *subtype == *"javascript" || *subtype == *"x-python" || *subtype == *"plain"
        || *subtype == *"html" || *subtype == *"css" || *subtype == *"md" || *subtype == *"csv"
        || *subtype == *"xml" || *subtype == *"rtf";
    let image: bool = *subtype == *"png" || *subtype == *"jpeg" || *subtype == *"webp" || *subtype
        == *"heic" || *subtype == *"heif";
    let video: bool = *subtype == *"mp4" || *subtype == *"mpeg" || *subtype == *"mov" || *subtype
        == *"quicktime" || *subtype == *"avi" || *subtype == *"x-flv" || *subtype == *"mpg"
        || *subtype == *"webm" || *subtype == *"wmv" || *subtype == *"3gpp";
    (is_audio && audio) || (is_application && application) || (is_text && text) || (is_image
        && image) || (is_video && video)
}

} // verus!
