use player_backend::metadata::{
    assemble_metadata, check_path, embedded_cover, fallback_metadata, fits_encoder,
    get_audio_metadata, is_recoverable_failure, safe_extract_string, select_tag, tagged_metadata,
    AudioMetadata, EmbeddedPicture, MetadataError, ParsedFile, ReadOutcome, TagFields, TrackLength,
};

fn text(s: &str) -> Option<String> {
    Some(s.to_string())
}

fn tag(title: Option<&str>, artist: Option<&str>, album: Option<&str>) -> TagFields {
    TagFields {
        title: title.map(String::from),
        artist: artist.map(String::from),
        album: album.map(String::from),
        pictures: Vec::new(),
    }
}

fn picture(mime_type: Option<&str>, data: &[u8]) -> EmbeddedPicture {
    EmbeddedPicture { mime_type: mime_type.map(String::from), data: data.to_vec() }
}

fn length(secs: u64, subsec_nanos: u32) -> TrackLength {
    TrackLength { secs, subsec_nanos }
}

fn parsed(primary: Option<TagFields>, first: Option<TagFields>, len: TrackLength) -> ReadOutcome {
    ReadOutcome::Parsed(ParsedFile { primary_tag: primary, first_tag: first, length: len })
}

#[test]
fn empty_path_is_invalid_input() {
    assert_eq!(get_audio_metadata(String::new(), ReadOutcome::Missing), Err(MetadataError::InvalidInput));
    assert_eq!(check_path(""), Err(MetadataError::InvalidInput));
}

#[test]
fn blank_path_is_invalid_input_whatever_was_read() {
    let full = tag(Some("t"), Some("a"), Some("b"));
    assert_eq!(
        get_audio_metadata(" \t ".to_string(), parsed(Some(full), None, length(1, 0))),
        Err(MetadataError::InvalidInput)
    );
    assert_eq!(check_path(" \n"), Err(MetadataError::InvalidInput));
    assert_eq!(check_path("/a.mp3"), Ok(()));
}

#[test]
fn missing_file_is_not_found() {
    let path = "/no/such/file.mp3".to_string();
    assert_eq!(
        get_audio_metadata(path.clone(), ReadOutcome::Missing),
        Err(MetadataError::NotFound(path))
    );
}

#[test]
fn error_messages() {
    assert_eq!(MetadataError::InvalidInput.message(), "文件路径不能为空");
    assert_eq!(
        MetadataError::NotFound("/no/such/file.mp3".to_string()).message(),
        "文件不存在: /no/such/file.mp3"
    );
    assert_eq!(
        MetadataError::UnreadableFile("bad header".to_string()).message(),
        "无法读取音频文件: bad header"
    );
}

#[test]
fn fatal_parse_failure_is_unreadable_file() {
    let r = get_audio_metadata(
        "/music/a.mp3".to_string(),
        ReadOutcome::Failed("No format could be determined from the provided file".to_string()),
    );
    assert_eq!(
        r,
        Err(MetadataError::UnreadableFile(
            "No format could be determined from the provided file".to_string()
        ))
    );
}

#[test]
fn tolerated_parse_failure_falls_back_to_the_file_name() {
    for message in [
        "MPEG: invalid sample frequency",
        "File contains an invalid frame",
        "this codec is unsupported here",
    ] {
        let r = assemble_metadata(
            "/music/Sunrise - Artist X.mp3".to_string(),
            Some("Sunrise - Artist X.mp3"),
            ReadOutcome::Failed(message.to_string()),
        );
        assert_eq!(
            r,
            Ok(AudioMetadata {
                title: "Sunrise".to_string(),
                artist: "Artist X".to_string(),
                album: "未知专辑".to_string(),
                duration: length(0, 0),
                full_path: "/music/Sunrise - Artist X.mp3".to_string(),
                cover_data: None,
                cover_mime_type: None,
            })
        );
    }
}

#[test]
fn failure_classes_are_matched_by_case() {
    assert!(is_recoverable_failure("invalid sample frequency"));
    assert!(is_recoverable_failure("xx File contains an invalid yy"));
    assert!(is_recoverable_failure("unsupported"));
    assert!(!is_recoverable_failure("Unsupported"));
    assert!(!is_recoverable_failure("file contains an invalid"));
    assert!(!is_recoverable_failure("Invalid Sample Frequency"));
    assert!(!is_recoverable_failure(""));
}

#[test]
fn fully_tagged_file() {
    let mut t = tag(Some("  Song "), Some("Singer"), Some("Record\n"));
    t.pictures.push(picture(Some("image/png"), b"hello"));
    t.pictures.push(picture(Some("image/gif"), b"second"));
    let r = get_audio_metadata("/music/x.flac".to_string(), parsed(Some(t), None, length(201, 500_000_000)));
    assert_eq!(
        r,
        Ok(AudioMetadata {
            title: "Song".to_string(),
            artist: "Singer".to_string(),
            album: "Record".to_string(),
            duration: length(201, 500_000_000),
            full_path: "/music/x.flac".to_string(),
            cover_data: text("aGVsbG8="),
            cover_mime_type: text("image/png"),
        })
    );
}

#[test]
fn cover_is_base64_with_padding() {
    for (data, encoded) in [
        (&b"f"[..], "Zg=="),
        (&b"fo"[..], "Zm8="),
        (&b"foo"[..], "Zm9v"),
        (&b"foob"[..], "Zm9vYg=="),
        (&[0xfbu8, 0xff, 0xfe][..], "+//+"),
    ] {
        let mut t = tag(None, None, None);
        t.pictures.push(picture(None, data));
        let r = tagged_metadata("p".to_string(), &t, length(0, 0));
        assert_eq!(r.cover_data, text(encoded));
        assert_eq!(r.cover_mime_type, text("image/jpeg"));
    }
}

#[test]
fn mime_type_defaults_to_jpeg() {
    let mut t = tag(None, None, None);
    t.pictures.push(picture(None, b"x"));
    assert_eq!(embedded_cover(&t), Some((&b"x".to_vec(), "image/jpeg".to_string())));
    t.pictures[0].mime_type = text("");
    assert_eq!(embedded_cover(&t), Some((&b"x".to_vec(), "image/jpeg".to_string())));
    t.pictures[0].mime_type = text("image/webp");
    assert_eq!(embedded_cover(&t), Some((&b"x".to_vec(), "image/webp".to_string())));
}

#[test]
fn empty_picture_is_no_cover() {
    let mut t = tag(Some("t"), Some("a"), Some("b"));
    t.pictures.push(picture(Some("image/png"), b""));
    t.pictures.push(picture(Some("image/png"), b"later"));
    assert_eq!(embedded_cover(&t), None);
    let r = get_audio_metadata("/x.mp3".to_string(), parsed(Some(t), None, length(3, 0))).unwrap();
    assert_eq!(r.cover_data, None);
    assert_eq!(r.cover_mime_type, None);
    assert_eq!(r.title, "t");
}

#[test]
fn tag_without_pictures_is_no_cover() {
    let t = tag(Some("t"), Some("a"), Some("b"));
    assert_eq!(embedded_cover(&t), None);
}

#[test]
fn missing_blank_and_marked_fields_get_placeholders() {
    let t = tag(None, Some("   "), Some(" None "));
    let r = tagged_metadata("/x.mp3".to_string(), &t, length(1, 2));
    assert_eq!(r.title, "未知标题");
    assert_eq!(r.artist, "未知艺术家");
    assert_eq!(r.album, "未知专辑");
    assert_eq!(r.duration, length(1, 2));
    assert_eq!(r.full_path, "/x.mp3");
}

#[test]
fn field_text_rules() {
    assert_eq!(safe_extract_string(None, "d"), "d");
    assert_eq!(safe_extract_string(Some(""), "d"), "d");
    assert_eq!(safe_extract_string(Some(" \t"), "d"), "d");
    assert_eq!(safe_extract_string(Some("None"), "d"), "d");
    assert_eq!(safe_extract_string(Some("\u{3000}None\n"), "d"), "d");
    assert_eq!(safe_extract_string(Some("none"), "d"), "none");
    assert_eq!(safe_extract_string(Some("Nonesuch"), "d"), "Nonesuch");
    assert_eq!(safe_extract_string(Some("No ne"), "d"), "No ne");
    assert_eq!(safe_extract_string(Some("  héllo wörld  "), "d"), "héllo wörld");
    assert_eq!(safe_extract_string(Some("夜曲\u{fffd}"), "d"), "夜曲\u{fffd}");
    assert_eq!(safe_extract_string(Some(" x"), ""), "x");
    assert_eq!(safe_extract_string(None, ""), "");
}

#[test]
fn primary_tag_is_preferred_over_first() {
    let primary = tag(Some("primary"), None, None);
    let first = tag(Some("first"), None, None);
    let file = ParsedFile {
        primary_tag: Some(primary.clone()),
        first_tag: Some(first.clone()),
        length: length(0, 0),
    };
    assert_eq!(select_tag(&file), Some(&primary));
    let file = ParsedFile { primary_tag: None, first_tag: Some(first.clone()), length: length(0, 0) };
    assert_eq!(select_tag(&file), Some(&first));
    let file = ParsedFile { primary_tag: None, first_tag: None, length: length(0, 0) };
    assert_eq!(select_tag(&file), None);
    let r = get_audio_metadata("/x.mp3".to_string(), parsed(None, Some(first), length(9, 0))).unwrap();
    assert_eq!(r.title, "first");
}

#[test]
fn untagged_file_keeps_its_length() {
    let r = assemble_metadata(
        "/music/track007.wav".to_string(),
        Some("track007.wav"),
        parsed(None, None, length(12, 345_000_000)),
    );
    assert_eq!(
        r,
        Ok(AudioMetadata {
            title: "track007".to_string(),
            artist: "未知艺术家".to_string(),
            album: "未知专辑".to_string(),
            duration: length(12, 345_000_000),
            full_path: "/music/track007.wav".to_string(),
            cover_data: None,
            cover_mime_type: None,
        })
    );
}

#[test]
fn untagged_file_without_a_name() {
    let r = fallback_metadata("/".to_string(), None, length(0, 0));
    assert_eq!(r.title, "未知文件");
    assert_eq!(r.artist, "未知艺术家");
    assert_eq!(r.album, "未知专辑");
}

#[test]
fn file_name_is_the_last_component_of_the_path() {
    let r = get_audio_metadata(
        "music/Sunrise - Artist X.mp3".to_string(),
        parsed(None, None, length(1, 0)),
    )
    .unwrap();
    assert_eq!(r.title, "Sunrise");
    assert_eq!(r.artist, "Artist X");
    assert_eq!(r.full_path, "music/Sunrise - Artist X.mp3");
    let r = get_audio_metadata("..".to_string(), parsed(None, None, length(1, 0))).unwrap();
    assert_eq!(r.title, "未知文件");
}

#[test]
fn same_input_gives_the_same_record() {
    let mut t = tag(Some("Song"), None, Some("Record"));
    t.pictures.push(picture(None, &[1, 2, 3, 4]));
    let outcome = parsed(None, Some(t), length(5, 6));
    let a = get_audio_metadata("/m/a - b.mp3".to_string(), outcome.clone());
    let b = get_audio_metadata("/m/a - b.mp3".to_string(), outcome.clone());
    assert_eq!(a, b);
    let c = get_audio_metadata("/m/a - b.mp3".to_string(), ReadOutcome::Failed("unsupported".to_string()));
    let d = get_audio_metadata("/m/a - b.mp3".to_string(), ReadOutcome::Failed("unsupported".to_string()));
    assert_eq!(c, d);
}

#[test]
fn every_cover_that_exists_fits_the_encoder() {
    let mut t = tag(None, None, None);
    t.pictures.push(picture(None, &[0u8; 1000]));
    assert!(fits_encoder(&parsed(Some(t), None, length(0, 0))));
    assert!(fits_encoder(&ReadOutcome::Missing));
    assert!(fits_encoder(&ReadOutcome::Failed(String::new())));
    assert!(fits_encoder(&parsed(None, None, length(0, 0))));
}
