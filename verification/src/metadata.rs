//! The metadata record of an audio file and the rules that fill it.
//!
//! A record comes from one of three tiers: the fields of the selected tag,
//! a guess from the file name where the file holds no tag, or a bare guess
//! from the file name where the file could not be parsed but the failure is
//! one that is tolerated.

use crate::bindings::{base64_standard, encode_standard, encoded_len, final_component, lossy_text};
use crate::filename::{extract_title_and_artist_from_filename, title_and_artist, unknown_artist};
use crate::text::{
    chars_of, contains_text, is_blank, str_is_blank, text_contains, trim, trim_bounds,
};
use vstd::prelude::*;
use vstd::string::StrSliceExecFns;
use vstd::string::StringExecFns;
use vstd::string::StringSliceAdditionalSpecFns;
use vstd::utf8::{encode_utf8_decode_utf8, encode_utf8_valid_utf8};

verus! {

/// A picture embedded in a tag.
#[derive(Clone, Debug, PartialEq, Eq)]
pub struct EmbeddedPicture {
    pub mime_type: Option<String>,
    pub data: Vec<u8>,
}

/// What a tag holds of the fields that a record is filled from.
#[derive(Clone, Debug, PartialEq, Eq)]
pub struct TagFields {
    pub title: Option<String>,
    pub artist: Option<String>,
    pub album: Option<String>,
    pub pictures: Vec<EmbeddedPicture>,
}

/// Playing time as whole seconds and the nanoseconds beyond them. A record
/// carries the playing time of the stream as it was reported; a stream of
/// unknown length reports zero.
#[derive(Clone, Copy, Debug, PartialEq, Eq, Structural)]
pub struct TrackLength {
    pub secs: u64,
    pub subsec_nanos: u32,
}

/// A parsed audio file: the tag of the container's primary kind, the first
/// tag of any kind, and the playing time of the stream.
#[derive(Clone, Debug, PartialEq, Eq)]
pub struct ParsedFile {
    pub primary_tag: Option<TagFields>,
    pub first_tag: Option<TagFields>,
    pub length: TrackLength,
}

/// What reading the file at a path gave.
#[derive(Clone, Debug, PartialEq, Eq)]
pub enum ReadOutcome {
    /// Nothing exists at the path.
    Missing,
    /// The parser gave up, with this message.
    Failed(String),
    /// The parser succeeded.
    Parsed(ParsedFile),
}

/// The metadata record of one audio file.
#[derive(Clone, Debug, PartialEq, Eq)]
pub struct AudioMetadata {
    pub title: String,
    pub artist: String,
    pub album: String,
    pub duration: TrackLength,
    pub full_path: String,
    pub cover_data: Option<String>,
    pub cover_mime_type: Option<String>,
}

/// Why no record could be made.
#[derive(Clone, Debug, PartialEq, Eq)]
pub enum MetadataError {
    /// The path is empty or blank.
    InvalidInput,
    /// Nothing exists at the path, which is carried along.
    NotFound(String),
    /// The file could not be parsed; the parser's message is carried along.
    UnreadableFile(String),
}

/// What an [`EmbeddedPicture`] holds, as plain values.
pub struct PictureView {
    pub mime_type: Option<Seq<char>>,
    pub data: Seq<u8>,
}

/// What a [`TagFields`] holds, as plain values.
pub struct TagView {
    pub title: Option<Seq<char>>,
    pub artist: Option<Seq<char>>,
    pub album: Option<Seq<char>>,
    pub pictures: Seq<PictureView>,
}

/// What a [`ParsedFile`] holds, as plain values.
pub struct ParsedFileView {
    pub primary_tag: Option<TagView>,
    pub first_tag: Option<TagView>,
    pub length: TrackLength,
}

/// What a [`ReadOutcome`] holds, as plain values.
pub enum ReadOutcomeView {
    Missing,
    Failed(Seq<char>),
    Parsed(ParsedFileView),
}

/// What an [`AudioMetadata`] holds, as plain values.
pub struct RecordView {
    pub title: Seq<char>,
    pub artist: Seq<char>,
    pub album: Seq<char>,
    pub duration: TrackLength,
    pub full_path: Seq<char>,
    pub cover_data: Option<Seq<char>>,
    pub cover_mime_type: Option<Seq<char>>,
}

/// What a [`MetadataError`] holds, as plain values.
pub enum ErrorView {
    InvalidInput,
    NotFound(Seq<char>),
    UnreadableFile(Seq<char>),
}

/// The characters of an optional string.
pub open spec fn text_view(value: Option<String>) -> Option<Seq<char>> {
    match value {
        Some(s) => Some(s@),
        None => None,
    }
}

impl View for EmbeddedPicture {
    type V = PictureView;

    open spec fn view(&self) -> PictureView {
        PictureView { mime_type: text_view(self.mime_type), data: self.data@ }
    }
}

impl View for TagFields {
    type V = TagView;

    open spec fn view(&self) -> TagView {
        TagView {
            title: text_view(self.title),
            artist: text_view(self.artist),
            album: text_view(self.album),
            pictures: self.pictures@.map_values(|p: EmbeddedPicture| p@),
        }
    }
}

/// The view of an optional tag.
pub open spec fn tag_view(tag: Option<TagFields>) -> Option<TagView> {
    match tag {
        Some(t) => Some(t@),
        None => None,
    }
}

impl View for ParsedFile {
    type V = ParsedFileView;

    open spec fn view(&self) -> ParsedFileView {
        ParsedFileView {
            primary_tag: tag_view(self.primary_tag),
            first_tag: tag_view(self.first_tag),
            length: self.length,
        }
    }
}

impl View for ReadOutcome {
    type V = ReadOutcomeView;

    open spec fn view(&self) -> ReadOutcomeView {
        match self {
            ReadOutcome::Missing => ReadOutcomeView::Missing,
            ReadOutcome::Failed(message) => ReadOutcomeView::Failed(message@),
            ReadOutcome::Parsed(file) => ReadOutcomeView::Parsed(file@),
        }
    }
}

impl View for AudioMetadata {
    type V = RecordView;

    open spec fn view(&self) -> RecordView {
        RecordView {
            title: self.title@,
            artist: self.artist@,
            album: self.album@,
            duration: self.duration,
            full_path: self.full_path@,
            cover_data: text_view(self.cover_data),
            cover_mime_type: text_view(self.cover_mime_type),
        }
    }
}

impl View for MetadataError {
    type V = ErrorView;

    open spec fn view(&self) -> ErrorView {
        match self {
            MetadataError::InvalidInput => ErrorView::InvalidInput,
            MetadataError::NotFound(path) => ErrorView::NotFound(path@),
            MetadataError::UnreadableFile(message) => ErrorView::UnreadableFile(message@),
        }
    }
}

/// The view of a record or of the error in its place.
pub open spec fn result_view(r: Result<AudioMetadata, MetadataError>) -> Result<
    RecordView,
    ErrorView,
> {
    match r {
        Ok(record) => Ok(record@),
        Err(error) => Err(error@),
    }
}

/// The title reported when the tag gives none.
pub open spec fn unknown_title() -> Seq<char> {
    "未知标题"@
}

/// The album reported when none is known.
pub open spec fn unknown_album() -> Seq<char> {
    "未知专辑"@
}

/// The file name assumed for a path that has no last component.
pub open spec fn unknown_file() -> Seq<char> {
    "未知文件"@
}

/// The MIME type assumed for a picture that reports none.
pub open spec fn default_mime_type() -> Seq<char> {
    "image/jpeg"@
}

/// The word that some writers store in a field they mean to leave empty.
pub open spec fn absent_marker() -> Seq<char> {
    "None"@
}

/// The playing time reported when none is known.
pub open spec fn zero_length() -> TrackLength {
    TrackLength { secs: 0, subsec_nanos: 0 }
}

/// The text of a field: its trimmed value where that holds something other
/// than the marker of absence, else the default.
pub open spec fn field_or_default(value: Option<Seq<char>>, default: Seq<char>) -> Seq<char> {
    match value {
        Some(s) => if trim(s).len() > 0 && trim(s) != absent_marker() {
            trim(s)
        } else {
            default
        },
        None => default,
    }
}

/// The tag that a record is filled from: the primary one, else the first.
pub open spec fn selected_tag(file: ParsedFileView) -> Option<TagView> {
    match file.primary_tag {
        Some(tag) => Some(tag),
        None => file.first_tag,
    }
}

/// The MIME type reported for a picture.
pub open spec fn mime_or_default(mime_type: Option<Seq<char>>) -> Seq<char> {
    match mime_type {
        Some(m) => if m.len() > 0 {
            m
        } else {
            default_mime_type()
        },
        None => default_mime_type(),
    }
}

/// The picture that serves as cover: the first one, where it holds data.
pub open spec fn cover_picture(tag: TagView) -> Option<PictureView> {
    if tag.pictures.len() > 0 && tag.pictures[0].data.len() > 0 {
        Some(tag.pictures[0])
    } else {
        None
    }
}

/// The failures after which a record is still made from the file name.
pub open spec fn is_recoverable(message: Seq<char>) -> bool {
    ||| contains_text(message, "invalid sample frequency"@)
    ||| contains_text(message, "File contains an invalid"@)
    ||| contains_text(message, "unsupported"@)
}

/// The cover of a tag as text: the base64 encoding of the picture's bytes.
pub open spec fn cover_data(tag: TagView) -> Option<Seq<char>> {
    match cover_picture(tag) {
        Some(picture) => Some(base64_standard(picture.data)),
        None => None,
    }
}

/// The MIME type that goes with the cover of a tag.
pub open spec fn cover_mime_type(tag: TagView) -> Option<Seq<char>> {
    match cover_picture(tag) {
        Some(picture) => Some(mime_or_default(picture.mime_type)),
        None => None,
    }
}

/// The record made from the fields of a tag.
pub open spec fn tagged_record(path: Seq<char>, tag: TagView, length: TrackLength) -> RecordView {
    RecordView {
        title: field_or_default(tag.title, unknown_title()),
        artist: field_or_default(tag.artist, unknown_artist()),
        album: field_or_default(tag.album, unknown_album()),
        duration: length,
        full_path: path,
        cover_data: cover_data(tag),
        cover_mime_type: cover_mime_type(tag),
    }
}

/// The record made from the file name alone.
pub open spec fn fallback_record(
    path: Seq<char>,
    file_name: Option<Seq<char>>,
    length: TrackLength,
) -> RecordView {
    let name = match file_name {
        Some(n) => n,
        None => unknown_file(),
    };
    RecordView {
        title: title_and_artist(name).0,
        artist: title_and_artist(name).1,
        album: unknown_album(),
        duration: length,
        full_path: path,
        cover_data: None,
        cover_mime_type: None,
    }
}

/// What is returned for a path, the last component of that path and the
/// outcome of reading the file there.
pub open spec fn extraction(
    path: Seq<char>,
    file_name: Option<Seq<char>>,
    outcome: ReadOutcomeView,
) -> Result<RecordView, ErrorView> {
    if is_blank(path) {
        Err(ErrorView::InvalidInput)
    } else {
        match outcome {
            ReadOutcomeView::Missing => Err(ErrorView::NotFound(path)),
            ReadOutcomeView::Failed(message) => if is_recoverable(message) {
                Ok(fallback_record(path, file_name, zero_length()))
            } else {
                Err(ErrorView::UnreadableFile(message))
            },
            ReadOutcomeView::Parsed(file) => match selected_tag(file) {
                Some(tag) => Ok(tagged_record(path, tag, file.length)),
                None => Ok(fallback_record(path, file_name, file.length)),
            },
        }
    }
}

/// The cover of a tag can be encoded: the text for it has a length that the
/// machine can hold.
pub open spec fn cover_fits(tag: TagView) -> bool {
    match cover_picture(tag) {
        Some(picture) => encoded_len(picture.data.len()) <= usize::MAX,
        None => true,
    }
}

/// The cover of the tag that would be selected can be encoded.
pub open spec fn outcome_fits(outcome: ReadOutcomeView) -> bool {
    match outcome {
        ReadOutcomeView::Parsed(file) => match selected_tag(file) {
            Some(tag) => cover_fits(tag),
            None => true,
        },
        _ => true,
    }
}

/// The text of the message that goes with an error.
pub open spec fn message_text(error: ErrorView) -> Seq<char> {
    match error {
        ErrorView::InvalidInput => "文件路径不能为空"@,
        ErrorView::NotFound(path) => "文件不存在: "@ + path,
        ErrorView::UnreadableFile(message) => "无法读取音频文件: "@ + message,
    }
}

impl MetadataError {
    /// The message shown for this error.
    pub fn message(&self) -> (r: String)
        ensures
            r@ == message_text(self@),
    {
        match self {
            MetadataError::InvalidInput => String::from_str("文件路径不能为空"),
            MetadataError::NotFound(path) => String::from_str("文件不存在: ").concat(path.as_str()),
            MetadataError::UnreadableFile(message) => String::from_str("无法读取音频文件: ").concat(
                message.as_str(),
            ),
        }
    }
}

/// A borrowed optional string as an optional slice.
fn as_text(value: &Option<String>) -> (r: Option<&str>)
    ensures
        slice_view(r) == text_view(*value),
{
    match value {
        Some(s) => Some(s.as_str()),
        None => None,
    }
}

/// The characters of an optional string slice.
pub open spec fn slice_view(value: Option<&str>) -> Option<Seq<char>> {
    match value {
        Some(s) => Some(s@),
        None => None,
    }
}

/// Whether `v[a..b]` spells the marker of absence.
fn is_absent_marker(v: &Vec<char>, a: usize, b: usize) -> (r: bool)
    requires
        a <= b <= v.len(),
    ensures
        r == (v@.subrange(a as int, b as int) == absent_marker()),
{
    proof {
        reveal_strlit("None");
    }
    let ghost part = v@.subrange(a as int, b as int);
    if b - a != 4 {
        assert(part.len() != absent_marker().len());
        return false;
    }
    let r = v[a] == 'N' && v[a + 1] == 'o' && v[a + 2] == 'n' && v[a + 3] == 'e';
    proof {
        assert(part[0] == v@[a as int]);
        assert(part[1] == v@[a + 1]);
        assert(part[2] == v@[a + 2]);
        assert(part[3] == v@[a + 3]);
        if r {
            assert(part =~= absent_marker());
        }
    }
    r
}

/// The text of a field: its trimmed value where that holds something other
/// than the marker of absence, else the default.
pub fn safe_extract_string(option_str: Option<&str>, default: &str) -> (r: String)
    ensures
        r@ == field_or_default(slice_view(option_str), default@),
{
    match option_str {
        Some(s) => {
            let v = chars_of(s);
            let (a, b) = trim_bounds(&v, 0, v.len());
            assert(v@.subrange(0, v.len() as int) =~= v@);
            if a < b && !is_absent_marker(&v, a, b) {
                let trimmed = s.substring_char(a, b);
                proof {
                    encode_utf8_valid_utf8(trimmed@);
                    encode_utf8_decode_utf8(trimmed@);
                }
                lossy_text(trimmed.as_bytes())
            } else {
                String::from_str(default)
            }
        },
        None => String::from_str(default),
    }
}

/// Whether a parser's message names a failure after which a record is still
/// made from the file name.
pub fn is_recoverable_failure(message: &str) -> (r: bool)
    ensures
        r == is_recoverable(message@),
{
    let hay = chars_of(message);
    let frequency = chars_of("invalid sample frequency");
    let invalid = chars_of("File contains an invalid");
    let unsupported = chars_of("unsupported");
    text_contains(&hay, &frequency) || text_contains(&hay, &invalid) || text_contains(
        &hay,
        &unsupported,
    )
}

/// The tag that a record is filled from: the primary one, else the first.
pub fn select_tag(file: &ParsedFile) -> (r: Option<&TagFields>)
    ensures
        match r {
            Some(tag) => selected_tag(file@) == Some(tag@),
            None => selected_tag(file@) is None,
        },
{
    match &file.primary_tag {
        Some(tag) => Some(tag),
        None => match &file.first_tag {
            Some(tag) => Some(tag),
            None => None,
        },
    }
}

/// The bytes and the MIME type of the picture that serves as cover.
pub fn embedded_cover(tag: &TagFields) -> (r: Option<(&Vec<u8>, String)>)
    ensures
        r is Some == cover_picture(tag@) is Some,
        r matches Some(c) ==> c.0@ == cover_picture(tag@)->0.data && c.1@ == mime_or_default(
            cover_picture(tag@)->0.mime_type,
        ),
{
    if tag.pictures.len() == 0 {
        return None;
    }
    let picture = &tag.pictures[0];
    assert(tag@.pictures[0] == picture@);
    if picture.data.len() == 0 {
        return None;
    }
    let mime_type = match &picture.mime_type {
        Some(m) => if m.as_str().is_empty() {
            String::from_str("image/jpeg")
        } else {
            m.clone()
        },
        None => String::from_str("image/jpeg"),
    };
    Some((&picture.data, mime_type))
}

/// Whether the cover of the tag that would be selected can be encoded.
pub fn fits_encoder(outcome: &ReadOutcome) -> (r: bool)
    ensures
        r == outcome_fits(outcome@),
{
    match outcome {
        ReadOutcome::Parsed(file) => match select_tag(file) {
            Some(tag) => match embedded_cover(tag) {
                Some(cover) => {
                    let n: usize = cover.0.len();
                    let groups: usize = n / 3 + if n % 3 > 0 {
                        1
                    } else {
                        0
                    };
                    assert(groups == (n + 2) / 3);
                    groups <= usize::MAX / 4
                },
                None => true,
            },
            None => true,
        },
        _ => true,
    }
}

/// The record of a file from the fields of its tag.
///
/// The three texts are never empty, and a tag whose first picture holds
/// data gives a cover that is not empty, with a MIME type that is not empty.
pub fn tagged_metadata(full_path: String, tag: &TagFields, length: TrackLength) -> (r:
    AudioMetadata)
    requires
        cover_fits(tag@),
    ensures
        r@ == tagged_record(full_path@, tag@, length),
        r.title@.len() > 0,
        r.artist@.len() > 0,
        r.album@.len() > 0,
        cover_picture(tag@) is Some ==> r.cover_data is Some && r.cover_data->0@.len() > 0
            && r.cover_mime_type is Some && r.cover_mime_type->0@.len() > 0,
        cover_picture(tag@) is None ==> r.cover_data is None && r.cover_mime_type is None,
{
    proof {
        reveal_strlit("未知标题");
        reveal_strlit("未知艺术家");
        reveal_strlit("未知专辑");
        reveal_strlit("image/jpeg");
    }
    let (cover_data, cover_mime_type) = match embedded_cover(tag) {
        Some((data, mime_type)) => (Some(encode_standard(data)), Some(mime_type)),
        None => (None, None),
    };
    let title = safe_extract_string(as_text(&tag.title), "未知标题");
    let artist = safe_extract_string(as_text(&tag.artist), "未知艺术家");
    let album = safe_extract_string(as_text(&tag.album), "未知专辑");
    AudioMetadata {
        title,
        artist,
        album,
        duration: length,
        full_path,
        cover_data,
        cover_mime_type,
    }
}

/// The record of a file from its name alone: title and artist are guessed
/// from the name, the album is unknown and there is no cover.
pub fn fallback_metadata(full_path: String, file_name: Option<&str>, length: TrackLength) -> (r:
    AudioMetadata)
    ensures
        r@ == fallback_record(full_path@, slice_view(file_name), length),
{
    let name = match file_name {
        Some(n) => n,
        None => "未知文件",
    };
    let (title, artist) = extract_title_and_artist_from_filename(name);
    AudioMetadata {
        title,
        artist,
        album: String::from_str("未知专辑"),
        duration: length,
        full_path,
        cover_data: None,
        cover_mime_type: None,
    }
}

/// Refuses a path that is empty or blank.
pub fn check_path(full_path: &str) -> (r: Result<(), MetadataError>)
    ensures
        is_blank(full_path@) ==> r == Err::<(), MetadataError>(MetadataError::InvalidInput),
        !is_blank(full_path@) ==> r is Ok,
{
    if str_is_blank(full_path) {
        Err(MetadataError::InvalidInput)
    } else {
        Ok(())
    }
}

/// The record for a path, given the last component of the path and the
/// outcome of reading the file.
pub fn assemble_metadata(full_path: String, file_name: Option<&str>, outcome: ReadOutcome) -> (r:
    Result<AudioMetadata, MetadataError>)
    requires
        outcome_fits(outcome@),
    ensures
        result_view(r) == extraction(full_path@, slice_view(file_name), outcome@),
        r matches Ok(record) ==> (record.cover_data matches Some(data) ==> data@.len() > 0),
{
    if str_is_blank(full_path.as_str()) {
        return Err(MetadataError::InvalidInput);
    }
    match outcome {
        ReadOutcome::Missing => Err(MetadataError::NotFound(full_path)),
        ReadOutcome::Failed(message) => {
            if is_recoverable_failure(message.as_str()) {
                Ok(fallback_metadata(full_path, file_name, TrackLength { secs: 0, subsec_nanos: 0 }))
            } else {
                Err(MetadataError::UnreadableFile(message))
            }
        },
        ReadOutcome::Parsed(file) => match select_tag(&file) {
            Some(tag) => Ok(tagged_metadata(full_path, tag, file.length)),
            None => Ok(fallback_metadata(full_path, file_name, file.length)),
        },
    }
}

/// The record for a path, given the outcome of reading the file there.
///
/// The last component of the path is asked of the platform, so the record
/// is the one of [`extraction`] for some file name. A blank path, a missing
/// file, a failure that is not tolerated and a file with a tag give results
/// in which the file name plays no part.
pub fn get_audio_metadata(full_path: String, outcome: ReadOutcome) -> (r: Result<
    AudioMetadata,
    MetadataError,
>)
    requires
        outcome_fits(outcome@),
    ensures
        exists|file_name: Option<Seq<char>>|
            result_view(r) == #[trigger] extraction(full_path@, file_name, outcome@),
        is_blank(full_path@) ==> result_view(r) == Err::<RecordView, ErrorView>(
            ErrorView::InvalidInput,
        ),
        !is_blank(full_path@) && outcome@ is Missing ==> result_view(r) == Err::<
            RecordView,
            ErrorView,
        >(ErrorView::NotFound(full_path@)),
        !is_blank(full_path@) ==> (outcome@ matches ReadOutcomeView::Failed(message)
            ==> !is_recoverable(message) ==> result_view(r) == Err::<RecordView, ErrorView>(
            ErrorView::UnreadableFile(message),
        )),
        !is_blank(full_path@) ==> (outcome@ matches ReadOutcomeView::Parsed(file) ==> (selected_tag(
            file,
        ) matches Some(tag) ==> result_view(r) == Ok::<RecordView, ErrorView>(
            tagged_record(full_path@, tag, file.length),
        ))),
        r matches Ok(record) ==> (record.cover_data matches Some(data) ==> data@.len() > 0),
{
    let name = final_component(full_path.as_str());
    let r = assemble_metadata(full_path, as_text(&name), outcome);
    assert(result_view(r) == extraction(full_path@, text_view(name), outcome@));
    r
}

/// A field is never empty where its default is not.
pub proof fn law_field_is_never_empty(value: Option<Seq<char>>, default: Seq<char>)
    requires
        default.len() > 0,
    ensures
        field_or_default(value, default).len() > 0,
{
}

/// A file with a tag gives a record whose title, artist and album are not
/// empty. It has a cover exactly where the first picture of the tag holds
/// data, and then the MIME type of the cover is not empty.
pub proof fn law_tagged_record_is_complete(path: Seq<char>, tag: TagView, length: TrackLength)
    ensures
        tagged_record(path, tag, length).title.len() > 0,
        tagged_record(path, tag, length).artist.len() > 0,
        tagged_record(path, tag, length).album.len() > 0,
        tagged_record(path, tag, length).duration == length,
        tagged_record(path, tag, length).full_path == path,
        tagged_record(path, tag, length).cover_data is Some <==> tag.pictures.len() > 0
            && tag.pictures[0].data.len() > 0,
        tagged_record(path, tag, length).cover_mime_type is Some <==> tagged_record(
            path,
            tag,
            length,
        ).cover_data is Some,
        tagged_record(path, tag, length).cover_mime_type matches Some(m) ==> m.len() > 0,
{
    reveal_strlit("未知标题");
    reveal_strlit("未知艺术家");
    reveal_strlit("未知专辑");
    reveal_strlit("image/jpeg");
}

/// A picture that is present but holds no bytes gives a record without a
/// cover, not an error.
pub proof fn law_empty_picture_is_no_cover(
    path: Seq<char>,
    file_name: Option<Seq<char>>,
    file: ParsedFileView,
)
    requires
        !is_blank(path),
        selected_tag(file) matches Some(tag) && tag.pictures.len() > 0
            && tag.pictures[0].data.len() == 0,
    ensures
        extraction(path, file_name, ReadOutcomeView::Parsed(file)) matches Ok(record)
            && record.cover_data is None && record.cover_mime_type is None,
{
}

/// A file without a tag gives a record whose title and artist are guessed
/// from the file name, whose album is the placeholder and whose duration is
/// the one that the stream reports.
pub proof fn law_untagged_file_falls_back(
    path: Seq<char>,
    file_name: Seq<char>,
    file: ParsedFileView,
)
    requires
        !is_blank(path),
        file.primary_tag is None,
        file.first_tag is None,
    ensures
        extraction(path, Some(file_name), ReadOutcomeView::Parsed(file)) matches Ok(record) && (
        record.title, record.artist) == title_and_artist(file_name) && record.album
            == unknown_album() && record.duration == file.length && record.full_path == path,
{
}

/// A path that is empty or blank is refused, whatever was read.
pub proof fn law_blank_path_is_refused(
    path: Seq<char>,
    file_name: Option<Seq<char>>,
    outcome: ReadOutcomeView,
)
    requires
        path.len() == 0 || is_blank(path),
    ensures
        extraction(path, file_name, outcome) == Err::<RecordView, ErrorView>(
            ErrorView::InvalidInput,
        ),
{
}

/// A path at which nothing exists is reported as not found.
pub proof fn law_missing_file_is_not_found(path: Seq<char>, file_name: Option<Seq<char>>)
    requires
        !is_blank(path),
    ensures
        extraction(path, file_name, ReadOutcomeView::Missing) == Err::<RecordView, ErrorView>(
            ErrorView::NotFound(path),
        ),
{
}

/// Every file that was parsed gives a record, and so does every failure of
/// a tolerated class; the only errors are a blank path, a missing file and a
/// failure of another class.
pub proof fn law_errors_are_the_fatal_cases(
    path: Seq<char>,
    file_name: Option<Seq<char>>,
    outcome: ReadOutcomeView,
)
    ensures
        extraction(path, file_name, outcome) is Err <==> is_blank(path) || outcome is Missing || (
        outcome matches ReadOutcomeView::Failed(message) && !is_recoverable(message)),
        extraction(path, file_name, outcome) matches Ok(record) ==> record.full_path == path,
{
}

/// Two extractions from the same path, file name and outcome of reading
/// give the same record or the same error.
pub proof fn law_extraction_is_repeatable(
    full_path: String,
    file_name: Option<&str>,
    outcome: ReadOutcome,
    first: Result<AudioMetadata, MetadataError>,
    second: Result<AudioMetadata, MetadataError>,
)
    requires
        result_view(first) == extraction(full_path@, slice_view(file_name), outcome@),
        result_view(second) == extraction(full_path@, slice_view(file_name), outcome@),
    ensures
        result_view(first) == result_view(second),
{
}

} // verus!
