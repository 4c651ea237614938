//! Media attached to messages: the choice of a thumbnail, the extension and
//! the path under which an attachment is stored, and the downloads that a
//! message calls for.

use vstd::prelude::*;
use crate::filename::{extension, extension_of_name};
use crate::message::{ChatIdTrait, Message};
use crate::text::{decimal, lower, push_decimal, push_text, text_of, to_lower};

verus! {

/// One thumbnail variant offered for a document or sticker.
#[derive(Clone, Copy, Debug, PartialEq, Eq)]
pub enum PhotoSize {
    /// No thumbnail is available.
    Empty,
    /// A plain image description with its pixel width.
    Size { width: i32 },
    /// An image description that carries its content inline.
    Cached { width: i32 },
    /// A low-resolution embedded preview without explicit dimensions.
    Stripped,
    /// A progressively encoded image.
    Progressive { width: i32 },
    /// A vector outline shown before the real content arrives.
    Path,
}

impl PhotoSize {
    /// The width by which a variant competes, or `None` when it never competes.
    pub open spec fn rank(self) -> Option<int> {
        match self {
            PhotoSize::Empty => None,
            PhotoSize::Size { width } => Some(width as int),
            PhotoSize::Cached { width } => Some(width as int),
            PhotoSize::Stripped => Some(0),
            PhotoSize::Progressive { width } => Some(width as int),
            PhotoSize::Path => None,
        }
    }

    /// Executable form of [`PhotoSize::rank`].
    pub fn width(&self) -> (r: Option<i32>)
        ensures
            r.is_some() == self.rank().is_some(),
            r matches Some(w) ==> self.rank() == Some(w as int),
    {
        match self {
            PhotoSize::Empty => None,
            PhotoSize::Size { width } => Some(*width),
            PhotoSize::Cached { width } => Some(*width),
            PhotoSize::Stripped => Some(0),
            PhotoSize::Progressive { width } => Some(*width),
            PhotoSize::Path => None,
        }
    }
}

/// Whether `sizes[k]` is the thumbnail to fetch: it competes, none that
/// competes is wider, and of several equally wide ones it is the last.
pub open spec fn is_largest(sizes: Seq<PhotoSize>, k: int) -> bool {
    &&& 0 <= k < sizes.len()
    &&& sizes[k].rank() is Some
    &&& forall|i: int|
        0 <= i < sizes.len() && (#[trigger] sizes[i]).rank() is Some ==> sizes[i].rank()->0
            <= sizes[k].rank()->0
    &&& forall|i: int|
        k < i < sizes.len() && (#[trigger] sizes[i]).rank() is Some ==> sizes[i].rank()->0
            < sizes[k].rank()->0
}

/// Whether no variant of `sizes` competes at all.
pub open spec fn none_competes(sizes: Seq<PhotoSize>) -> bool {
    forall|i: int| 0 <= i < sizes.len() ==> (#[trigger] sizes[i]).rank() is None
}

/// At most one index is the thumbnail to fetch.
pub proof fn lemma_largest_unique(sizes: Seq<PhotoSize>, a: int, b: int)
    requires
        is_largest(sizes, a),
        is_largest(sizes, b),
    ensures
        a == b,
{
    if a < b {
        assert(sizes[b].rank()->0 < sizes[a].rank()->0);
        assert(sizes[a].rank()->0 <= sizes[b].rank()->0);
    } else if b < a {
        assert(sizes[a].rank()->0 < sizes[b].rank()->0);
        assert(sizes[b].rank()->0 <= sizes[a].rank()->0);
    }
}

/// The index of the thumbnail to fetch among `photo_sizes`, if any competes.
pub fn pick_largest_index(photo_sizes: &Vec<PhotoSize>) -> (r: Option<usize>)
    ensures
        match r {
            Some(k) => is_largest(photo_sizes@, k as int),
            None => none_competes(photo_sizes@),
        },
{
    let mut best: Option<usize> = None;
    let mut best_width: i32 = 0;
    let mut i: usize = 0;
    while i < photo_sizes.len()
        invariant
            i <= photo_sizes.len(),
            match best {
                Some(k) => {
                    &&& is_largest(photo_sizes@.take(i as int), k as int)
                    &&& photo_sizes@[k as int].rank() == Some(best_width as int)
                },
                None => none_competes(photo_sizes@.take(i as int)),
            },
        decreases photo_sizes.len() - i,
    {
        let ghost before = photo_sizes@.take(i as int);
        let ghost after = photo_sizes@.take(i + 1);
        assert(forall|j: int| 0 <= j < i ==> before[j] == #[trigger] after[j]);
        assert(after[i as int] == photo_sizes@[i as int]);
        match photo_sizes[i].width() {
            Some(w) => {
                let take = match best {
                    Some(_) => w >= best_width,
                    None => true,
                };
                if take {
                    best = Some(i);
                    best_width = w;
                }
            },
            None => {},
        }
        i += 1;
    }
    assert(photo_sizes@.take(i as int) == photo_sizes@);
    best
}

/// The thumbnail to fetch among `photo_sizes`: the widest one that
/// competes, the last of several equally wide ones.
pub fn pick_largest(photo_sizes: Vec<PhotoSize>) -> (r: Option<PhotoSize>)
    ensures
        match r {
            Some(ps) => exists|k: int| is_largest(photo_sizes@, k) && ps == photo_sizes@[k],
            None => none_competes(photo_sizes@),
        },
{
    match pick_largest_index(&photo_sizes) {
        Some(k) => Some(photo_sizes[k]),
        None => None,
    }
}

/// The content of an attachment, as far as naming and fetching need it.
#[derive(Clone, Debug, PartialEq, Eq)]
pub enum Media {
    Photo,
    Sticker { animated: bool, thumbs: Vec<PhotoSize> },
    Document { name: String, mime_type: Option<String>, thumbs: Vec<PhotoSize> },
    Contact,
    Poll,
    Geo,
    GeoLive,
    Venue,
    Dice,
    WebPage,
}

/// The file extension that the MIME database lists for a MIME type.
pub uninterp spec fn mime_extension(mime: Seq<char>) -> Option<Seq<char>>;

/// The extension that the MIME database suggests for a MIME type.
///
/// Trusted: `mime2ext::mime2ext`, a lookup in a table compiled into that
/// crate. The contract only names the result: the same MIME type always
/// yields the same answer.
#[verifier::external_body]
fn mime_to_extension(mime: &str) -> (r: Option<String>)
    ensures
        text_of(r) == mime_extension(mime@),
{
    mime2ext::mime2ext(mime).map(|e| e.to_owned())
}

/// The extension of a document, given what its file name and its MIME type
/// each suggest: the name's extension in lower case if it has one, else the
/// MIME type's, else `bin`.
pub open spec fn chosen_extension(
    by_name: Option<Seq<char>>,
    by_mime: Option<Seq<char>>,
) -> Seq<char> {
    match by_name {
        Some(e) => lower(e),
        None => match by_mime {
            Some(e) => e,
            None => "bin"@,
        },
    }
}

/// What a document's MIME type suggests as extension: nothing without a type.
pub open spec fn mime_suggestion(mime_type: Option<Seq<char>>) -> Option<Seq<char>> {
    match mime_type {
        Some(m) => mime_extension(m),
        None => None,
    }
}

/// The extension under which a document is stored.
pub open spec fn document_extension(name: Seq<char>, mime_type: Option<Seq<char>>) -> Seq<char> {
    chosen_extension(extension(name), mime_suggestion(mime_type))
}

/// A document's file name decides its extension wherever it has one; the
/// MIME type decides only for names without extension, and `bin` is left
/// where neither decides.
pub proof fn lemma_extension_precedence(name: Seq<char>, mime_type: Option<Seq<char>>)
    ensures
        extension(name) matches Some(e) ==> document_extension(name, mime_type) == lower(e),
        extension(name) is None ==> (mime_suggestion(mime_type) matches Some(e)
            ==> document_extension(name, mime_type) == e),
        extension(name) is None && mime_suggestion(mime_type) is None ==> document_extension(
            name,
            mime_type,
        ) == "bin"@,
{
}

/// Picks a document's extension from the two suggestions.
pub fn choose_extension(by_name: Option<String>, by_mime: Option<String>) -> (r: String)
    ensures
        r@ == chosen_extension(text_of(by_name), text_of(by_mime)),
{
    match by_name {
        Some(e) => to_lower(e.as_str()),
        None => match by_mime {
            Some(e) => e,
            None => "bin".to_owned(),
        },
    }
}

/// Computes the extension under which a document is stored.
pub fn extension_of_document(name: &str, mime_type: &Option<String>) -> (r: String)
    ensures
        r@ == document_extension(name@, text_of(*mime_type)),
{
    let by_name = extension_of_name(name);
    let by_mime = match mime_type {
        Some(m) => mime_to_extension(m.as_str()),
        None => None,
    };
    choose_extension(by_name, by_mime)
}

impl Media {
    /// The extension under which this attachment is stored, or `None` where
    /// there is nothing to store.
    pub open spec fn spec_extension(&self) -> Option<Seq<char>> {
        match *self {
            Media::Photo => Some("jpg"@),
            Media::Sticker { animated, .. } => Some(
                if animated {
                    "tgs"@
                } else {
                    "webp"@
                },
            ),
            Media::Document { name, mime_type, .. } => Some(
                document_extension(name@, text_of(mime_type)),
            ),
            Media::Contact => Some("vcf"@),
            _ => None,
        }
    }

    /// The thumbnail variants to choose from, for the kinds that have a
    /// thumbnail fetched.
    pub open spec fn spec_thumbs(&self) -> Option<Seq<PhotoSize>> {
        match *self {
            Media::Sticker { thumbs, .. } => Some(thumbs@),
            Media::Document { thumbs, .. } => Some(thumbs@),
            _ => None,
        }
    }

    /// What is asked of the remote side for the attachment itself; a
    /// contact card has nothing to ask for.
    pub open spec fn spec_source(&self) -> Source {
        match *self {
            Media::Photo => Source::Photo,
            Media::Sticker { .. } => Source::Sticker,
            Media::Document { .. } => Source::Document,
            _ => Source::Nothing(NotDownloadable),
        }
    }

    /// Computes [`Media::spec_extension`].
    pub fn extension(&self) -> (r: Option<String>)
        ensures
            text_of(r) == self.spec_extension(),
    {
        match self {
            Media::Photo => Some("jpg".to_owned()),
            Media::Sticker { animated, .. } => Some(
                if *animated {
                    "tgs".to_owned()
                } else {
                    "webp".to_owned()
                },
            ),
            Media::Document { name, mime_type, .. } => Some(
                extension_of_document(name.as_str(), mime_type),
            ),
            Media::Contact => Some("vcf".to_owned()),
            _ => None,
        }
    }

    /// The index of the thumbnail to fetch, for the kinds that have one
    /// fetched and offer a variant that competes.
    pub fn thumbnail_index(&self) -> (r: Option<usize>)
        ensures
            match r {
                Some(k) => self.spec_thumbs() matches Some(thumbs) && is_largest(thumbs, k as int),
                None => self.spec_thumbs() matches Some(thumbs) ==> none_competes(thumbs),
            },
    {
        match self {
            Media::Sticker { thumbs, .. } => pick_largest_index(thumbs),
            Media::Document { thumbs, .. } => pick_largest_index(thumbs),
            _ => None,
        }
    }
}

/// The directory of a conversation's media, relative to the media root:
/// `chat_<chat_id>`.
pub open spec fn chat_dir(chat_id: int) -> Seq<char> {
    "chat_"@ + decimal(chat_id)
}

/// The path of a message's media, relative to the media root:
/// `chat_<chat_id>/<message_id>.<ext>`.
pub open spec fn media_path(chat_id: int, message_id: int, ext: Seq<char>) -> Seq<char> {
    chat_dir(chat_id) + "/"@ + decimal(message_id) + "."@ + ext
}

/// The path of the thumbnail that goes with a message's media:
/// `chat_<chat_id>/<message_id>.<ext>_thumb.jpg`.
pub open spec fn thumb_path(chat_id: int, message_id: int, ext: Seq<char>) -> Seq<char> {
    media_path(chat_id, message_id, ext) + "_thumb.jpg"@
}

/// Builds [`chat_dir`].
pub fn chat_dir_name(chat_id: i64) -> (r: String)
    ensures
        r@ == chat_dir(chat_id as int),
{
    let mut out = String::new();
    push_text(&mut out, "chat_");
    push_decimal(&mut out, chat_id);
    out
}

/// Builds [`media_path`].
pub fn media_rel_path(chat_id: i64, message_id: i32, ext: &str) -> (r: String)
    ensures
        r@ == media_path(chat_id as int, message_id as int, ext@),
{
    let mut out = chat_dir_name(chat_id);
    push_text(&mut out, "/");
    push_decimal(&mut out, message_id as i64);
    push_text(&mut out, ".");
    push_text(&mut out, ext);
    out
}

/// Builds [`thumb_path`].
pub fn thumbnail_rel_path(chat_id: i64, message_id: i32, ext: &str) -> (r: String)
    ensures
        r@ == thumb_path(chat_id as int, message_id as int, ext@),
{
    let mut out = media_rel_path(chat_id, message_id, ext);
    push_text(&mut out, "_thumb.jpg");
    out
}

/// Where a message's media was put, relative to the media root.
#[derive(Clone, Debug, PartialEq, Eq)]
pub struct DownloadedMedia {
    pub media_rel_path: String,
    pub thumbnail_rel_path: Option<String>,
}

/// Stands for an attachment that has no bytes to ask for (a contact card).
#[derive(Clone, Copy, Debug, PartialEq, Eq, Structural)]
pub struct NotDownloadable;

/// What a download asks the remote side for.
#[derive(Clone, Copy, Debug, PartialEq, Eq, Structural)]
pub enum Source {
    /// The photo that the message carries.
    Photo,
    /// The sticker that the message carries.
    Sticker,
    /// The document that the message carries.
    Document,
    /// The thumbnail variant at this index of the attachment's variants.
    Thumbnail(usize),
    /// Nothing: the download is bound to fail.
    Nothing(NotDownloadable),
}

impl NotDownloadable {
    /// What to ask the remote side for: never anything.
    pub fn to_raw_input_location(&self) -> (r: Option<Source>)
        ensures
            r is None,
    {
        None
    }
}

/// One thing to download, whatever its kind.
#[derive(Clone, Copy, Debug, PartialEq, Eq, Structural)]
pub struct DownloadableWrapper {
    pub dl: Source,
}

impl DownloadableWrapper {
    /// Wraps a source.
    pub fn new(dl: Source) -> (r: Self)
        ensures
            r.dl == dl,
    {
        DownloadableWrapper { dl }
    }

    /// What to ask the remote side for, if there is anything to ask for.
    pub fn to_raw_input_location(&self) -> (r: Option<Source>)
        ensures
            r == match self.dl {
                Source::Nothing(_) => None,
                dl => Some(dl),
            },
    {
        match self.dl {
            Source::Nothing(n) => n.to_raw_input_location(),
            dl => Some(dl),
        }
    }
}

/// The downloads that a message calls for.
#[derive(Clone, Debug, PartialEq, Eq)]
pub struct MediaDownload {
    /// The directory that holds the files, relative to the media root.
    pub dir: String,
    /// The files' paths, known before any byte has arrived.
    pub paths: DownloadedMedia,
    /// What to fetch into `paths.media_rel_path`.
    pub media: DownloadableWrapper,
    /// What to fetch into `paths.thumbnail_rel_path`, if a thumbnail is due.
    pub thumbnail: Option<DownloadableWrapper>,
}

/// The attachment of a message, where it is an ordinary message whose
/// attachment the archive understands.
pub open spec fn attachment(msg: Message) -> Option<Media> {
    match msg {
        Message::Message(m) => match m.media {
            Some(mm) => mm.content,
            None => None,
        },
        _ => None,
    }
}

/// What [`download_media_raw`] owes for an attachment with extension `ext`.
pub open spec fn download_matches(
    d: MediaDownload,
    media: Media,
    ext: Seq<char>,
    chat_id: int,
    message_id: int,
) -> bool {
    &&& d.dir@ == chat_dir(chat_id)
    &&& d.paths.media_rel_path@ == media_path(chat_id, message_id, ext)
    &&& d.media.dl == media.spec_source()
    &&& match d.thumbnail {
        Some(t) => {
            &&& t.dl matches Source::Thumbnail(k)
            &&& media.spec_thumbs() matches Some(thumbs)
            &&& is_largest(thumbs, k as int)
            &&& text_of(d.paths.thumbnail_rel_path) == Some(thumb_path(chat_id, message_id, ext))
        },
        None => {
            &&& d.paths.thumbnail_rel_path is None
            &&& media.spec_thumbs() matches Some(thumbs) ==> none_competes(thumbs)
        },
    }
}

/// Whether `r` is what a message calls for: nothing, unless the message is
/// an ordinary one with an attachment of a kind that is stored; else the
/// downloads described by [`download_matches`].
pub open spec fn download_owed(msg: Message, r: Option<MediaDownload>) -> bool {
    match r {
        Some(d) => {
            &&& attachment(msg) matches Some(media)
            &&& media.spec_extension() matches Some(ext)
            &&& msg.spec_chat_id() matches Some(chat_id)
            &&& download_matches(d, media, ext, chat_id as int, msg.spec_id() as int)
        },
        None => attachment(msg) matches Some(media) ==> media.spec_extension() is None,
    }
}

/// Decides what to download for a message and where it goes.
///
/// Nothing is due unless the message is an ordinary one with an attachment
/// of a kind that is stored. Otherwise the attachment goes to
/// `chat_<chat_id>/<message_id>.<ext>`, and for stickers and documents the
/// widest thumbnail, if any competes, goes to the same path with
/// `_thumb.jpg` appended.
pub fn download_media_raw(raw_message: &Message) -> (r: Option<MediaDownload>)
    ensures
        download_owed(*raw_message, r),
{
    let msg_id = raw_message.id();
    let body = match raw_message {
        Message::Message(body) => body,
        _ => {
            return None;
        },
    };
    let media = match &body.media {
        Some(mm) => match &mm.content {
            Some(media) => media,
            None => {
                return None;
            },
        },
        None => {
            return None;
        },
    };
    let chat_id = match body.chat_id() {
        Some(chat_id) => chat_id,
        None => {
            return None;
        },
    };
    let media_ext = match media.extension() {
        Some(ext) => ext,
        None => {
            return None;
        },
    };
    let media_dl = match media {
        Media::Photo => DownloadableWrapper::new(Source::Photo),
        Media::Sticker { .. } => DownloadableWrapper::new(Source::Sticker),
        Media::Document { .. } => DownloadableWrapper::new(Source::Document),
        _ => DownloadableWrapper::new(Source::Nothing(NotDownloadable)),
    };
    let thumb_dl = match media.thumbnail_index() {
        Some(k) => Some(DownloadableWrapper::new(Source::Thumbnail(k))),
        None => None,
    };
    let media_rel_path = media_rel_path(chat_id, msg_id, media_ext.as_str());
    let thumbnail_rel_path = match thumb_dl {
        Some(_) => Some(thumbnail_rel_path(chat_id, msg_id, media_ext.as_str())),
        None => None,
    };
    Some(
        MediaDownload {
            dir: chat_dir_name(chat_id),
            paths: DownloadedMedia { media_rel_path, thumbnail_rel_path },
            media: media_dl,
            thumbnail: thumb_dl,
        },
    )
}

} // verus!
