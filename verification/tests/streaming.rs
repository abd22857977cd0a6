use crab_dlna::streaming::{
    is_safe_segment, media_type, segment, server_address, subtitle_if_found, ServedFile,
};
use crab_dlna::{
    infer_subtitle_from_video, inferred_subtitle_path, Error, LocalFile, MediaFile,
    MediaStreamingServer, Route,
};

fn file(path: &str, exists: bool) -> LocalFile {
    LocalFile { path: path.to_string(), exists }
}

fn server(video: &str, subtitle: Option<&str>) -> MediaStreamingServer {
    MediaStreamingServer::new(
        &file(video, true),
        &subtitle.map(|s| file(s, true)),
        &"127.0.0.1".to_string(),
        &Some("127.0.0.1:9000".to_string()),
    )
    .unwrap()
}

fn is_url_safe(segment: &str) -> bool {
    segment.chars().all(|c| c.is_ascii_lowercase() || c.is_ascii_digit() || c == '.')
}

#[test]
fn existing_file_is_resolved() {
    let media = MediaFile::new(&file("video.mp4", true), "http://127.0.0.1:9000").unwrap();
    assert_eq!(media.file_path(), "video.mp4");
    assert_eq!(media.host_uri(), "http://127.0.0.1:9000");
    assert_eq!(media.file_uri(), "video.mp4");
    assert_eq!(media.uri(), "http://127.0.0.1:9000/video.mp4");
}

#[test]
fn missing_file_is_refused() {
    let made = MediaFile::new(&file("video.mp4", false), "http://127.0.0.1:9000");
    assert_eq!(made.err(), Some(Error::StreamingFileDoesNotExist("video.mp4".to_string())));
}

#[test]
fn segment_is_safe_in_a_url() {
    let paths = [
        "video.mp4",
        "/home/crab/Videos/My Video (2019).MP4",
        "C:\\Users\\crab\\film?.mkv",
        "Æúű--cool?.avi",
        "影師嗎.mp4",
        "a&b<c>d\"e'f.mp4",
        "",
        "...",
    ];
    for path in paths {
        let media = MediaFile::new(&file(path, true), "http://h").unwrap();
        assert!(is_url_safe(media.file_uri()), "{}", media.file_uri());
    }
}

#[test]
fn segment_is_the_slug_of_the_path() {
    let media = MediaFile::new(&file("/home/crab/Videos/my_video.mp4", true), "http://h").unwrap();
    assert_eq!(media.file_uri(), "home.crab.videos.my.video.mp4");
    let media = MediaFile::new(&file("My Video (2019).MP4", true), "http://h").unwrap();
    assert_eq!(media.file_uri(), "my.video.2019.mp4");
    let media = MediaFile::new(&file("Æúű--cool?.avi", true), "http://h").unwrap();
    assert_eq!(media.file_uri(), "aeuu.cool.avi");
}

#[test]
fn segment_of_a_path_without_letters_is_empty() {
    let media = MediaFile::new(&file("...", true), "http://h").unwrap();
    assert_eq!(media.file_uri(), "");
    assert_eq!(media.uri(), "http://h/");
}

#[test]
fn same_path_same_segment() {
    let a = MediaFile::new(&file("Some Film.mkv", true), "http://one:9000").unwrap();
    let b = MediaFile::new(&file("Some Film.mkv", true), "http://two:9000").unwrap();
    assert_eq!(a.file_uri(), b.file_uri());
}

#[test]
fn paths_that_differ_in_punctuation_collide() {
    let a = MediaFile::new(&file("my video.mp4", true), "http://h").unwrap();
    let b = MediaFile::new(&file("my_video.mp4", true), "http://h").unwrap();
    let c = MediaFile::new(&file("/my---video?.mp4", true), "http://h").unwrap();
    assert_eq!(a.file_uri(), "my.video.mp4");
    assert_eq!(b.file_uri(), "my.video.mp4");
    assert_eq!(c.file_uri(), "my.video.mp4");
}

#[test]
fn media_file_reads() {
    let media = MediaFile::new(&file("My Film.mkv", true), "http://127.0.0.1:9000").unwrap();
    assert_eq!(media.to_string(), "'My Film.mkv' @  http://127.0.0.1:9000/my.film.mkv");
}

#[test]
fn media_type_is_the_extension() {
    assert_eq!(MediaFile::new(&file("video.mp4", true), "h").unwrap().media_type(), "mp4");
    assert_eq!(MediaFile::new(&file("a/b.c/film.MKV", true), "h").unwrap().media_type(), "MKV");
    assert_eq!(MediaFile::new(&file("archive.tar.gz", true), "h").unwrap().media_type(), "gz");
}

#[test]
fn media_type_is_empty_without_extension() {
    assert_eq!(MediaFile::new(&file("video", true), "h").unwrap().media_type(), "");
    assert_eq!(MediaFile::new(&file(".hidden", true), "h").unwrap().media_type(), "");
    assert_eq!(MediaFile::new(&file("dir.d/video", true), "h").unwrap().media_type(), "");
    assert_eq!(MediaFile::new(&file("", true), "h").unwrap().media_type(), "");
}

#[test]
fn media_type_of_an_extension() {
    assert_eq!(media_type(Some("srt".to_string())), "srt");
    assert_eq!(media_type(None), "");
}

#[test]
fn server_address_is_host_and_port() {
    assert_eq!(server_address("127.0.0.1"), "127.0.0.1:9000");
    assert_eq!(server_address("[::1]"), "[::1]:9000");
    assert_eq!(server_address(""), ":9000");
}

#[test]
fn video_without_subtitle_is_served_under_its_slug() {
    let server = server("video.mp4", None);
    assert_eq!(server.video_uri(), "http://127.0.0.1:9000/video.mp4");
    assert_eq!(server.subtitle_uri(), None);
    assert_eq!(server.video_type(), "mp4");
    assert_eq!(server.subtitle_type(), None);
    assert_eq!(server.server_addr(), "127.0.0.1:9000");
}

#[test]
fn video_with_subtitle() {
    let server = server("/films/Movie.mp4", Some("/films/Movie.en.srt"));
    assert_eq!(server.video_uri(), "http://127.0.0.1:9000/films.movie.mp4");
    assert_eq!(
        server.subtitle_uri(),
        Some("http://127.0.0.1:9000/films.movie.en.srt".to_string())
    );
    assert_eq!(server.video_type(), "mp4");
    assert_eq!(server.subtitle_type(), Some("srt".to_string()));
}

#[test]
fn origin_is_the_address_as_it_reads() {
    let server = MediaStreamingServer::new(
        &file("video.mp4", true),
        &None,
        &"[0:0:0:0:0:0:0:1]".to_string(),
        &Some("[::1]:9000".to_string()),
    )
    .unwrap();
    assert_eq!(server.video_uri(), "http://[::1]:9000/video.mp4");
}

#[test]
fn bad_address_is_refused() {
    let made = MediaStreamingServer::new(
        &file("video.mp4", true),
        &None,
        &"nowhere".to_string(),
        &None,
    );
    assert_eq!(made.err(), Some(Error::StreamingHostParseError("nowhere:9000".to_string())));
}

#[test]
fn bad_address_comes_before_missing_files() {
    let made = MediaStreamingServer::new(
        &file("video.mp4", false),
        &Some(file("video.srt", false)),
        &"nowhere".to_string(),
        &None,
    );
    assert_eq!(made.err(), Some(Error::StreamingHostParseError("nowhere:9000".to_string())));
}

#[test]
fn missing_video_is_refused() {
    let made = MediaStreamingServer::new(
        &file("video.mp4", false),
        &Some(file("video.srt", false)),
        &"127.0.0.1".to_string(),
        &Some("127.0.0.1:9000".to_string()),
    );
    assert_eq!(made.err(), Some(Error::StreamingFileDoesNotExist("video.mp4".to_string())));
}

#[test]
fn missing_subtitle_is_refused() {
    let made = MediaStreamingServer::new(
        &file("video.mp4", true),
        &Some(file("video.srt", false)),
        &"127.0.0.1".to_string(),
        &Some("127.0.0.1:9000".to_string()),
    );
    assert_eq!(made.err(), Some(Error::StreamingFileDoesNotExist("video.srt".to_string())));
}

#[test]
fn routes_without_subtitle_hold_a_placeholder() {
    let (video, second) = server("/films/Movie.mp4", None).get_routes();
    assert_eq!(
        video,
        Route {
            segment: "films.movie.mp4".to_string(),
            file: ServedFile::Video,
            file_path: "/films/Movie.mp4".to_string()
        }
    );
    assert_eq!(
        second,
        Route {
            segment: "dummy.srt".to_string(),
            file: ServedFile::Video,
            file_path: "/films/Movie.mp4".to_string()
        }
    );
}

#[test]
fn routes_with_subtitle() {
    let (video, second) = server("/films/Movie.mp4", Some("/subs/Movie.srt")).get_routes();
    assert_eq!(
        video,
        Route {
            segment: "films.movie.mp4".to_string(),
            file: ServedFile::Video,
            file_path: "/films/Movie.mp4".to_string()
        }
    );
    assert_eq!(
        second,
        Route {
            segment: "subs.movie.srt".to_string(),
            file: ServedFile::Subtitle,
            file_path: "/subs/Movie.srt".to_string()
        }
    );
}

#[test]
fn subtitle_is_inferred_beside_the_video() {
    assert_eq!(infer_subtitle_from_video("movie.mp4", true), Some("movie.srt".to_string()));
    assert_eq!(
        infer_subtitle_from_video("/home/crab/Videos/my_video.mp4", true),
        Some("/home/crab/Videos/my_video.srt".to_string())
    );
}

#[test]
fn no_subtitle_where_none_is_on_disk() {
    assert_eq!(infer_subtitle_from_video("movie.mp4", false), None);
}

#[test]
fn inferred_path_has_the_extension_srt() {
    assert_eq!(inferred_subtitle_path("movie.mp4"), "movie.srt");
    assert_eq!(inferred_subtitle_path("movie"), "movie.srt");
    assert_eq!(inferred_subtitle_path("a.b/movie.final.mkv"), "a.b/movie.final.srt");
}

#[test]
fn subtitle_only_if_found() {
    assert_eq!(subtitle_if_found("movie.srt".to_string(), true), Some("movie.srt".to_string()));
    assert_eq!(subtitle_if_found("movie.srt".to_string(), false), None);
}

#[test]
fn safe_segments() {
    assert!(is_safe_segment("video.mp4"));
    assert!(is_safe_segment("a.b.c.0123456789.xyz"));
    assert!(is_safe_segment(""));
    assert!(!is_safe_segment("Video.mp4"));
    assert!(!is_safe_segment("my video.mp4"));
    assert!(!is_safe_segment("a/b"));
    assert!(!is_safe_segment("a-b"));
    assert!(!is_safe_segment("vidéo"));
    assert!(!is_safe_segment("a?b=c"));
}

#[test]
fn media_file_with_a_given_segment() {
    let media =
        MediaFile::with_segment(&file("Some Film.mkv", true), "http://h:9000", "film".to_string())
            .unwrap();
    assert_eq!(media.file_path(), "Some Film.mkv");
    assert_eq!(media.file_uri(), "film");
    assert_eq!(media.uri(), "http://h:9000/film");
}

#[test]
fn no_media_file_with_an_unsafe_segment() {
    assert!(MediaFile::with_segment(&file("a", true), "http://h", "not safe".to_string()).is_none());
    assert!(MediaFile::with_segment(&file("a", true), "http://h", "a/b".to_string()).is_none());
}

#[test]
fn no_media_file_for_a_missing_file() {
    assert!(MediaFile::with_segment(&file("a", false), "http://h", "a".to_string()).is_none());
}

#[test]
fn server_with_given_files() {
    let video =
        MediaFile::with_segment(&file("v.mp4", true), "http://h:9000", "v.mp4".to_string()).unwrap();
    let subtitle =
        MediaFile::with_segment(&file("s.srt", true), "http://h:9000", "s.srt".to_string()).unwrap();
    let server = MediaStreamingServer::with_files(video, Some(subtitle), "h:9000".to_string());
    assert_eq!(server.video_uri(), "http://h:9000/v.mp4");
    assert_eq!(server.subtitle_uri(), Some("http://h:9000/s.srt".to_string()));
    assert_eq!(server.server_addr(), "h:9000");
}

#[test]
fn segment_of_a_path() {
    assert_eq!(segment("My Video (2019).MP4"), "my.video.2019.mp4");
    assert_eq!(segment("a-b_c d"), "a.b.c.d");
    assert_eq!(segment(""), "");
}

#[test]
fn videos_that_collide_are_served_at_one_uri() {
    let one = server("my video.mp4", None);
    let other = server("my_video.mp4", None);
    assert_eq!(one.video_uri(), other.video_uri());
    assert_eq!(one.video_uri(), "http://127.0.0.1:9000/my.video.mp4");
}
