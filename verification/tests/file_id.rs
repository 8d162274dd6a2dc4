use downloader_hub::file_id::{
    largest_photo, FileId, FileIdError, MessageKind, MessageMedia, PhotoSize,
};

fn size(id: &str, width: u32, height: u32) -> PhotoSize {
    PhotoSize { file_id: id.to_string(), width, height }
}

fn id_of(media: MessageMedia) -> Result<String, FileIdError> {
    FileId::try_from(&MessageKind::Common(media)).map(|id| id.0)
}

fn document(mime: Option<&str>) -> MessageMedia {
    MessageMedia::Document { file_id: "doc".to_string(), mime_type: mime.map(|m| m.to_string()) }
}

#[test]
fn video_animation_audio_and_video_note_name_their_file() {
    assert_eq!(id_of(MessageMedia::Video { file_id: "v".to_string() }).unwrap(), "v");
    assert_eq!(id_of(MessageMedia::Animation { file_id: "a".to_string() }).unwrap(), "a");
    assert_eq!(id_of(MessageMedia::Audio { file_id: "s".to_string() }).unwrap(), "s");
    assert_eq!(id_of(MessageMedia::VideoNote { file_id: "n".to_string() }).unwrap(), "n");
}

#[test]
fn a_photo_names_its_largest_rendering() {
    let photo = vec![size("small", 90, 90), size("large", 1280, 720), size("medium", 320, 180)];
    assert_eq!(id_of(MessageMedia::Photo { photo }).unwrap(), "large");
}

#[test]
fn among_renderings_with_as_many_pixels_the_widest_is_taken() {
    let photo = vec![size("tall", 10, 40), size("wide", 40, 10), size("square", 20, 20)];
    assert_eq!(largest_photo(&photo), Some(1));
    assert_eq!(id_of(MessageMedia::Photo { photo }).unwrap(), "wide");
}

#[test]
fn the_largest_renderings_do_not_overflow() {
    let photo = vec![size("a", u32::MAX, u32::MAX - 1), size("b", u32::MAX, u32::MAX)];
    assert_eq!(largest_photo(&photo), Some(1));
    assert_eq!(largest_photo(&vec![size("only", 0, 0)]), Some(0));
    assert_eq!(largest_photo(&Vec::new()), None);
}

#[test]
fn a_photo_without_renderings_is_not_taken() {
    assert!(matches!(
        id_of(MessageMedia::Photo { photo: Vec::new() }),
        Err(FileIdError::UnsupportedMediaKind)
    ));
}

#[test]
fn a_document_is_taken_where_it_is_an_image_a_video_or_audio() {
    assert_eq!(id_of(document(Some("image/png"))).unwrap(), "doc");
    assert_eq!(id_of(document(Some("video/mp4"))).unwrap(), "doc");
    assert_eq!(id_of(document(Some("audio/mpeg"))).unwrap(), "doc");
    assert_eq!(id_of(document(Some("audio"))).unwrap(), "doc");
}

#[test]
fn a_document_of_another_type_is_refused_with_its_type() {
    match id_of(document(Some("application/pdf"))) {
        Err(FileIdError::UnsupportedDocumentType(mime)) => assert_eq!(mime, "application/pdf"),
        other => panic!("{other:?}"),
    }
    assert!(matches!(
        id_of(document(Some("Image/png"))),
        Err(FileIdError::UnsupportedDocumentType(_))
    ));
    assert!(matches!(id_of(document(Some(""))), Err(FileIdError::UnsupportedDocumentType(_))));
}

#[test]
fn a_document_without_a_type_is_refused() {
    assert!(matches!(id_of(document(None)), Err(FileIdError::DocumentMessageWithoutMimeType)));
}

#[test]
fn other_messages_name_no_file() {
    assert!(matches!(id_of(MessageMedia::Other), Err(FileIdError::UnsupportedMediaKind)));
    assert!(matches!(
        FileId::try_from(&MessageKind::Other),
        Err(FileIdError::UnknownMessageKind)
    ));
    assert!(FileId::from_message(&MessageKind::Other).is_none());
    let found =
        FileId::from_message(&MessageKind::Common(MessageMedia::Audio { file_id: "s".to_string() }));
    assert_eq!(found.unwrap().as_str(), "s");
}

#[test]
fn the_errors_have_their_texts() {
    assert_eq!(FileIdError::UnknownMessageKind.message(), "Unknown message kind");
    assert_eq!(FileIdError::PhotoMessageWithoutPhotos.message(), "Photo message without photos");
    assert_eq!(
        FileIdError::DocumentMessageWithoutMimeType.message(),
        "Document message without mime type"
    );
    assert_eq!(FileIdError::UnsupportedMediaKind.message(), "Unsupported media kind");
    assert_eq!(
        FileIdError::UnsupportedDocumentType("x/y".to_string()).message(),
        "Unsupported document type"
    );
}
