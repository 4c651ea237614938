use tg_keeper::media::{
    chat_dir_name, choose_extension, download_media_raw, extension_of_document, media_rel_path,
    pick_largest, pick_largest_index, thumbnail_rel_path, DownloadableWrapper, DownloadedMedia,
    Media, NotDownloadable, PhotoSize, Source,
};
use tg_keeper::message::{
    MediaKind, Message, MessageBody, MessageEmpty, MessageMedia, MessageService, Peer,
};

fn message_with(id: i32, peer: Peer, kind: MediaKind, content: Option<Media>) -> Message {
    Message::Message(MessageBody {
        id,
        peer_id: peer,
        date: 1_700_000_000,
        message: String::new(),
        media: Some(MessageMedia { kind, content }),
        serialized: vec![1, 2, 3],
    })
}

#[test]
fn widest_thumbnail_is_picked() {
    let sizes = vec![
        PhotoSize::Stripped,
        PhotoSize::Size { width: 120 },
        PhotoSize::Size { width: 480 },
        PhotoSize::Path,
    ];
    assert_eq!(pick_largest_index(&sizes), Some(2));
    assert_eq!(pick_largest(sizes), Some(PhotoSize::Size { width: 480 }));
}

#[test]
fn last_of_equally_wide_thumbnails_is_picked() {
    let sizes = vec![
        PhotoSize::Cached { width: 320 },
        PhotoSize::Size { width: 90 },
        PhotoSize::Progressive { width: 320 },
        PhotoSize::Empty,
    ];
    assert_eq!(pick_largest_index(&sizes), Some(2));
    assert_eq!(pick_largest(sizes), Some(PhotoSize::Progressive { width: 320 }));
}

#[test]
fn stripped_preview_is_the_last_resort() {
    let sizes = vec![PhotoSize::Path, PhotoSize::Stripped, PhotoSize::Empty];
    assert_eq!(pick_largest_index(&sizes), Some(1));
    assert_eq!(pick_largest(sizes), Some(PhotoSize::Stripped));
}

#[test]
fn stripped_preview_beats_a_negative_width() {
    let sizes = vec![PhotoSize::Size { width: -5 }, PhotoSize::Stripped];
    assert_eq!(pick_largest_index(&sizes), Some(1));
    let sizes = vec![PhotoSize::Stripped, PhotoSize::Size { width: 0 }];
    assert_eq!(pick_largest_index(&sizes), Some(1));
}

#[test]
fn excluded_variants_are_never_picked() {
    assert_eq!(pick_largest_index(&vec![PhotoSize::Empty, PhotoSize::Path]), None);
    assert_eq!(pick_largest(vec![PhotoSize::Path]), None);
    assert_eq!(pick_largest(Vec::new()), None);
}

#[test]
fn file_name_extension_wins_and_is_lower_cased() {
    let ext = extension_of_document("report.PDF", &Some("image/png".to_string()));
    assert_eq!(ext, "pdf");
    let ext = extension_of_document("report.PDF", &None);
    assert_eq!(ext, "pdf");
}

#[test]
fn mime_type_decides_without_a_file_name() {
    assert_eq!(extension_of_document("", &Some("image/png".to_string())), "png");
    assert_eq!(extension_of_document("", &Some("text/html; charset=UTF-8".to_string())), "html");
}

#[test]
fn mime_type_decides_for_a_name_without_extension() {
    assert_eq!(extension_of_document("README", &Some("image/jpeg".to_string())), "jpg");
    assert_eq!(extension_of_document(".bashrc", &Some("image/png".to_string())), "png");
    assert_eq!(extension_of_document("dir.d/notes", &Some("image/png".to_string())), "png");
}

#[test]
fn bin_is_the_fallback_extension() {
    assert_eq!(extension_of_document("", &None), "bin");
    assert_eq!(extension_of_document("", &Some("notareal/mimetype".to_string())), "bin");
    assert_eq!(extension_of_document("noext", &Some("invalid-mimetype".to_string())), "bin");
}

#[test]
fn only_the_last_extension_of_a_name_counts() {
    assert_eq!(extension_of_document("archive.tar.GZ", &None), "gz");
    assert_eq!(extension_of_document("some/dir/photo.JpEg", &None), "jpeg");
}

#[test]
fn choose_extension_follows_the_order_of_precedence() {
    assert_eq!(choose_extension(Some("PDF".to_string()), Some("png".to_string())), "pdf");
    assert_eq!(choose_extension(None, Some("png".to_string())), "png");
    assert_eq!(choose_extension(None, None), "bin");
    assert_eq!(choose_extension(Some(String::new()), Some("png".to_string())), "");
    assert_eq!(choose_extension(Some("ÄB".to_string()), None), "Äb");
}

#[test]
fn fixed_extensions_by_kind() {
    assert_eq!(Media::Photo.extension(), Some("jpg".to_string()));
    assert_eq!(Media::Contact.extension(), Some("vcf".to_string()));
    let animated = Media::Sticker { animated: true, thumbs: vec![] };
    assert_eq!(animated.extension(), Some("tgs".to_string()));
    let still = Media::Sticker { animated: false, thumbs: vec![] };
    assert_eq!(still.extension(), Some("webp".to_string()));
    for media in [Media::Poll, Media::Geo, Media::GeoLive, Media::Venue, Media::Dice, Media::WebPage]
    {
        assert_eq!(media.extension(), None);
    }
}

#[test]
fn thumbnails_are_picked_for_stickers_and_documents_only() {
    let thumbs = vec![PhotoSize::Size { width: 10 }, PhotoSize::Size { width: 20 }];
    let sticker = Media::Sticker { animated: false, thumbs: thumbs.clone() };
    assert_eq!(sticker.thumbnail_index(), Some(1));
    let document = Media::Document { name: String::new(), mime_type: None, thumbs };
    assert_eq!(document.thumbnail_index(), Some(1));
    assert_eq!(Media::Photo.thumbnail_index(), None);
    assert_eq!(Media::Contact.thumbnail_index(), None);
}

#[test]
fn paths_are_built_from_chat_message_and_extension() {
    assert_eq!(chat_dir_name(42), "chat_42");
    assert_eq!(media_rel_path(42, 1001, "jpg"), "chat_42/1001.jpg");
    assert_eq!(thumbnail_rel_path(42, 1001, "webp"), "chat_42/1001.webp_thumb.jpg");
    assert_eq!(media_rel_path(-1001234567890, -7, "bin"), "chat_-1001234567890/-7.bin");
    assert_eq!(media_rel_path(0, 0, ""), "chat_0/0.");
    assert_eq!(
        media_rel_path(i64::MIN, i32::MIN, "x"),
        "chat_-9223372036854775808/-2147483648.x"
    );
    assert_eq!(
        media_rel_path(i64::MAX, i32::MAX, "x"),
        "chat_9223372036854775807/2147483647.x"
    );
}

#[test]
fn photo_message_downloads_to_jpg() {
    let msg = message_with(1001, Peer::Chat(42), MediaKind::Photo, Some(Media::Photo));
    let plan = download_media_raw(&msg).expect("a photo is stored");
    assert_eq!(plan.dir, "chat_42");
    assert_eq!(
        plan.paths,
        DownloadedMedia { media_rel_path: "chat_42/1001.jpg".to_string(), thumbnail_rel_path: None }
    );
    assert_eq!(plan.media, DownloadableWrapper::new(Source::Photo));
    assert_eq!(plan.thumbnail, None);
    assert_eq!(plan.media.to_raw_input_location(), Some(Source::Photo));
}

#[test]
fn document_message_downloads_with_thumbnail() {
    let media = Media::Document {
        name: "report.PDF".to_string(),
        mime_type: Some("application/pdf".to_string()),
        thumbs: vec![
            PhotoSize::Stripped,
            PhotoSize::Size { width: 120 },
            PhotoSize::Size { width: 480 },
            PhotoSize::Path,
        ],
    };
    let msg = message_with(7, Peer::User(99), MediaKind::Document, Some(media));
    let plan = download_media_raw(&msg).expect("a document is stored");
    assert_eq!(plan.dir, "chat_99");
    assert_eq!(plan.paths.media_rel_path, "chat_99/7.pdf");
    assert_eq!(plan.paths.thumbnail_rel_path, Some("chat_99/7.pdf_thumb.jpg".to_string()));
    assert_eq!(plan.media.dl, Source::Document);
    assert_eq!(plan.thumbnail, Some(DownloadableWrapper::new(Source::Thumbnail(2))));
    assert_eq!(
        DownloadableWrapper::new(Source::Thumbnail(2)).to_raw_input_location(),
        Some(Source::Thumbnail(2))
    );
}

#[test]
fn document_without_usable_thumbnail_downloads_alone() {
    let media = Media::Document {
        name: String::new(),
        mime_type: Some("image/png".to_string()),
        thumbs: vec![PhotoSize::Path, PhotoSize::Empty],
    };
    let msg = message_with(8, Peer::Channel(5), MediaKind::Document, Some(media));
    let plan = download_media_raw(&msg).expect("a document is stored");
    assert_eq!(plan.paths.media_rel_path, "chat_5/8.png");
    assert_eq!(plan.paths.thumbnail_rel_path, None);
    assert_eq!(plan.thumbnail, None);
}

#[test]
fn sticker_message_downloads_by_animation() {
    let media = Media::Sticker { animated: true, thumbs: vec![PhotoSize::Cached { width: 64 }] };
    let msg = message_with(9, Peer::User(1), MediaKind::Document, Some(media));
    let plan = download_media_raw(&msg).expect("a sticker is stored");
    assert_eq!(plan.paths.media_rel_path, "chat_1/9.tgs");
    assert_eq!(plan.media.dl, Source::Sticker);
    assert_eq!(plan.paths.thumbnail_rel_path, Some("chat_1/9.tgs_thumb.jpg".to_string()));
    assert_eq!(plan.thumbnail, Some(DownloadableWrapper::new(Source::Thumbnail(0))));
    let media = Media::Sticker { animated: false, thumbs: vec![] };
    let msg = message_with(10, Peer::User(1), MediaKind::Document, Some(media));
    let plan = download_media_raw(&msg).expect("a sticker is stored");
    assert_eq!(plan.paths.media_rel_path, "chat_1/10.webp");
    assert_eq!(plan.thumbnail, None);
}

#[test]
fn contact_message_has_a_path_but_nothing_to_fetch() {
    let msg = message_with(11, Peer::User(3), MediaKind::Contact, Some(Media::Contact));
    let plan = download_media_raw(&msg).expect("a contact gets a path");
    assert_eq!(plan.paths.media_rel_path, "chat_3/11.vcf");
    assert_eq!(plan.paths.thumbnail_rel_path, None);
    assert_eq!(plan.media.dl, Source::Nothing(NotDownloadable));
    assert_eq!(plan.media.to_raw_input_location(), None);
    assert_eq!(NotDownloadable.to_raw_input_location(), None);
}

#[test]
fn messages_without_storable_media_download_nothing() {
    for (kind, media) in [
        (MediaKind::Poll, Media::Poll),
        (MediaKind::Geo, Media::Geo),
        (MediaKind::GeoLive, Media::GeoLive),
        (MediaKind::Venue, Media::Venue),
        (MediaKind::Dice, Media::Dice),
        (MediaKind::WebPage, Media::WebPage),
    ] {
        let msg = message_with(1, Peer::Chat(2), kind, Some(media));
        assert_eq!(download_media_raw(&msg), None);
    }
    let msg = message_with(1, Peer::Chat(2), MediaKind::Game, None);
    assert_eq!(download_media_raw(&msg), None);
    let plain = Message::Message(MessageBody {
        id: 1,
        peer_id: Peer::Chat(2),
        date: 0,
        message: "hello".to_string(),
        media: None,
        serialized: vec![],
    });
    assert_eq!(download_media_raw(&plain), None);
    let service = Message::Service(MessageService {
        id: 1,
        peer_id: Peer::Chat(2),
        date: 0,
        action: "PinMessage".to_string(),
        serialized: vec![],
    });
    assert_eq!(download_media_raw(&service), None);
    let empty = Message::Empty(MessageEmpty { id: 1, peer_id: None, serialized: vec![] });
    assert_eq!(download_media_raw(&empty), None);
}
