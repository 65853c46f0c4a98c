use angel::attachment::{
    is_supported_mime, sanitize_content_type, sanitize_media_type, AttachmentContent, MimeType,
    DEFAULT_FILE_NAME, DEFAULT_MIME,
};
use angel::chat::{Chat, Role, CHAT_MODEL};
use angel::cli::Cli;
use angel::content::{exceeds_limit, Content, ContentKind, Inspection, Treatment};
use angel::live::{
    connect_url, parts_is_empty, Content as Turn, LiveSettings, Modality, Part, ResponseModality,
    Role as TurnRole, SetupConfig, Voice,
};
use angel::model::{int_to_requirement, length_answer, Error as ModelError, MessageId};
use angel::tokenizer::Error as TokenizerError;

fn mime(type_: &str, subtype: &str) -> MimeType {
    MimeType {
        type_: String::from(type_),
        subtype: String::from(subtype),
    }
}

#[test]
fn content_type_loses_its_parameters() {
    assert_eq!(
        sanitize_content_type("text/html; charset=utf-8").as_deref(),
        Some("text/html")
    );
    assert_eq!(
        sanitize_content_type("IMAGE/PNG").as_deref(),
        Some("image/png")
    );
    assert_eq!(
        sanitize_content_type("video/mp4").as_deref(),
        Some("video/mp4")
    );
    assert_eq!(
        sanitize_content_type("image/svg+xml").as_deref(),
        Some("image/svg")
    );
}

#[test]
fn refused_content_type_becomes_plain_text() {
    assert_eq!(
        sanitize_content_type("application/rls-services+xml").as_deref(),
        Some("text/plain")
    );
    assert_eq!(
        sanitize_media_type(&mime("application", "rls-services")),
        "text/plain"
    );
    assert_eq!(sanitize_media_type(&mime("application", "pdf")), "application/pdf");
}

#[test]
fn text_that_is_no_media_type_is_refused() {
    assert_eq!(sanitize_content_type(""), None);
    assert_eq!(sanitize_content_type("plain"), None);
    assert_eq!(sanitize_content_type("a b/c"), None);
}

#[test]
fn attachment_content() {
    let content = AttachmentContent::default();
    assert_eq!(content.content_type, "text/plain");
    assert_eq!(content.file_name, None);
    assert_eq!(content.bytes, b"[empty]");
    assert_eq!(content.upload_name(), "file.txt");
    assert_eq!(content.content_size(), Some(7));

    let content = AttachmentContent::new(None, Some("notes"), vec![1, 2, 3]).unwrap();
    assert_eq!(content.content_type, DEFAULT_MIME);
    assert_eq!(content.upload_name(), "notes");
    assert_eq!(content.bytes, vec![1, 2, 3]);

    let content =
        AttachmentContent::new(Some("image/jpeg; q=1"), None, Vec::new()).unwrap();
    assert_eq!(content.content_type, "image/jpeg");
    assert_eq!(content.upload_name(), DEFAULT_FILE_NAME);
    assert_eq!(content.content_size(), Some(0));

    assert!(AttachmentContent::new(Some("nonsense"), None, Vec::new()).is_none());
}

#[test]
fn supported_media_types() {
    for (type_, subtype) in [
        ("audio", "wav"),
        ("audio", "flac"),
        ("application", "pdf"),
        ("application", "rls-services"),
        ("application", "x-python"),
        ("text", "x-python"),
        ("text", "plain"),
        ("text", "rtf"),
        ("image", "png"),
        ("image", "heif"),
        ("video", "mp4"),
        ("video", "mpeg"),
        ("audio", "mpeg"),
        ("video", "3gpp"),
    ] {
        assert!(is_supported_mime(&mime(type_, subtype)), "{type_}/{subtype}");
    }
    for (type_, subtype) in [
        ("audio", "mp4"),
        ("video", "wav"),
        ("image", "gif"),
        ("text", "pdf"),
        ("application", "json"),
        ("application", "plain"),
        ("font", "woff"),
        ("", ""),
        ("Image", "png"),
        ("image", "PNG"),
    ] {
        assert!(!is_supported_mime(&mime(type_, subtype)), "{type_}/{subtype}");
    }
}

#[test]
fn conversation_becomes_a_request() {
    let mut chat = Chat::with_name("Clyde");
    chat.human("mari", "hi");
    chat.angel("hello");
    chat.human("kim", "who is there?");
    let request = chat.to_request();
    assert_eq!(request.model, CHAT_MODEL);
    assert_eq!(request.model, "gemma2");
    let lines: Vec<(Role, &str)> = request
        .messages
        .iter()
        .map(|line| (line.role, line.content.as_str()))
        .collect();
    assert_eq!(
        lines,
        vec![
            (Role::System, "You are a Discord user named Clyde."),
            (Role::User, "mari: hi"),
            (Role::Assistant, "Clyde: hello"),
            (Role::User, "kim: who is there?"),
        ]
    );
    assert_eq!(Chat::with_name("x").to_request().messages.len(), 1);
}

#[test]
fn command_line_defaults() {
    assert_eq!(Cli::new(None).config, "./Clyde.toml");
    assert_eq!(Cli::new(Some(String::from("a.toml"))).config, "a.toml");
}

#[test]
fn content_summaries() {
    assert_eq!(Content::text("a").kind(), ContentKind::Text);
    assert_eq!(Content::html("b").kind(), ContentKind::Html);
    assert_eq!(Content::image("c").kind(), ContentKind::Image);
    assert_eq!(Content::unknown("d").kind(), ContentKind::Unknown);
    assert_eq!(Content::new(ContentKind::Html, "page").summary(), "page");
    assert_eq!(Content::unimplemented().summary(), "unimplemented content type");
    assert_eq!(Content::unimplemented().kind(), ContentKind::Unknown);
    assert_eq!(Content::treatment(Inspection::Text), Treatment::MarkupThenText);
    assert_eq!(Content::treatment(Inspection::Binary), Treatment::Image);
    assert_eq!(Content::treatment(Inspection::Other), Treatment::Unimplemented);
    assert!(exceeds_limit(9, 8));
    assert!(!exceeds_limit(8, 8));
    assert!(!exceeds_limit(0, 0));
}

#[test]
fn live_settings() {
    assert_eq!(Voice::default(), Voice::Aoede);
    assert_eq!(
        Modality::default(),
        Modality {
            audio: false,
            image: false,
            text: true
        }
    );
    let all = Modality {
        audio: true,
        image: true,
        text: true,
    };
    assert_eq!(
        ResponseModality::new(all),
        vec![
            ResponseModality::Audio,
            ResponseModality::Image,
            ResponseModality::Text
        ]
    );
    assert_eq!(
        ResponseModality::new(Modality::default()),
        vec![ResponseModality::Text]
    );
    let none = Modality {
        audio: false,
        image: false,
        text: false,
    };
    assert!(ResponseModality::new(none).is_empty());
    let audio_text = Modality {
        audio: true,
        image: false,
        text: true,
    };
    assert_eq!(
        ResponseModality::new(audio_text),
        vec![ResponseModality::Audio, ResponseModality::Text]
    );
}

#[test]
fn live_setup() {
    let settings = LiveSettings {
        api_key: String::from("key"),
        modality: Modality::default(),
        system: String::from("be brief"),
        voice: Some(Voice::Puck),
    };
    let setup = SetupConfig::new(&settings);
    assert_eq!(setup.model, "models/gemini-2.0-flash-exp");
    assert_eq!(setup.response_modalities, vec![ResponseModality::Text]);
    assert_eq!(setup.voice_name, Some(Voice::Aoede));
    assert_eq!(setup.system_instruction.role, None);
    assert_eq!(setup.system_instruction.parts[0].as_text(), Some("be brief"));
    assert!(connect_url(&settings).unwrap().ends_with("BidiGenerateContent?key=key"));
    assert!(connect_url(&settings).unwrap().starts_with("wss://"));
    let unauthorized = LiveSettings {
        api_key: String::new(),
        ..settings
    };
    assert_eq!(connect_url(&unauthorized), None);
}

#[test]
fn live_content() {
    let turn = Turn::new("hi");
    assert_eq!(turn.role, Some(TurnRole::User));
    assert_eq!(turn.parts[0].as_text(), Some("hi"));
    assert!(!turn.is_empty());
    assert!(Turn::new("").is_empty());
    assert!(Turn::new_system("").is_empty());
    assert_eq!(Turn::new_system("x").role, None);
    assert!(parts_is_empty(&vec![]));
    assert!(parts_is_empty(&vec![
        Part::Text(String::new()),
        Part::Text(String::new())
    ]));
    assert!(!parts_is_empty(&vec![
        Part::Text(String::new()),
        Part::Text(String::from("x"))
    ]));
    assert!(Part::Text(String::new()).is_empty());
    assert_eq!(
        Part::Text(String::from("t")).into_text(),
        Some(String::from("t"))
    );
}

#[test]
fn message_identifiers_are_positive() {
    assert!(MessageId::new(0).is_none());
    assert_eq!(MessageId::new(1).unwrap().get(), 1);
    assert_eq!(MessageId::new(u64::MAX).unwrap().get(), u64::MAX);
}

#[test]
fn native_answers() {
    assert_eq!(int_to_requirement(1), Some(true));
    assert_eq!(int_to_requirement(0), Some(false));
    assert_eq!(int_to_requirement(-1), None);
    assert_eq!(int_to_requirement(2), None);
    assert_eq!(length_answer(0), Ok(0));
    assert_eq!(length_answer(17), Ok(17));
    assert_eq!(length_answer(i32::MAX), Ok(2147483647));
    assert_eq!(length_answer(-1), Err(1));
    assert_eq!(length_answer(-300), Err(300));
    assert_eq!(length_answer(i32::MIN), Err(2147483648));
}

#[test]
fn failure_texts() {
    assert_eq!(ModelError::LoadModel.to_string(), "load model");
    assert_eq!(TokenizerError::Tokenize.to_string(), "tokenize");
    assert_eq!(TokenizerError::Detokenize.to_string(), "detokenize");
}
