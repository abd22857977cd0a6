//! Media files and the server that streams them: which URI each local file
//! is reachable at, and which routes the server has.

use crate::error::{Error, Result};
use crate::text::{chars_of, decimal, decimal_string};
use vstd::prelude::*;
use vstd::string::*;

verus! {

/// The port that the streaming server listens on.
pub const STREAMING_PORT: u32 = 9000;

/// The separator between the parts of a URI segment.
pub const SLUG_SEPARATOR: &'static str = ".";

/// The stop words that are taken out of a path on its way to a URI segment:
/// none.
pub const SLUG_STOP_WORDS: &'static str = "";

/// A character that every slug may hold, whatever its separator: a
/// lower-case ASCII letter or a digit.
pub open spec fn is_slug_letter(c: char) -> bool {
    ('a' <= c && c <= 'z') || ('0' <= c && c <= '9')
}

/// A character that a URI segment is made of: a lower-case ASCII letter, a
/// digit, or the dot that separates its parts.
pub open spec fn is_slug_char(c: char) -> bool {
    is_slug_letter(c) || c == '.'
}

/// A text that is safe as one segment of a URL path: lower-case ASCII
/// letters, digits and dots only.
pub open spec fn is_url_safe(segment: Seq<char>) -> bool {
    forall|i: int| 0 <= i < segment.len() ==> is_slug_char(#[trigger] segment[i])
}

/// A text that can be the extension of a path: it holds no path separator.
pub open spec fn is_extension(extension: Seq<char>) -> bool {
    forall|i: int|
        0 <= i < extension.len() ==> (#[trigger] extension[i]) != '/' && extension[i] != '\\'
}

/// The slug that `slugify::slugify` makes of a text, given the stop words,
/// the separator and the greatest length.
pub uninterp spec fn slug_of(
    text: Seq<char>,
    stop_words: Seq<char>,
    separator: Seq<char>,
    max_length: Option<usize>,
) -> Seq<char>;

/// The path that `std::path::Path::with_extension` makes of a path and an
/// extension, in the path syntax of the platform.
pub uninterp spec fn path_with_extension(path: Seq<char>, extension: Seq<char>) -> Seq<char>;

/// The extension that `std::path::Path::extension` finds in a path, in the
/// path syntax of the platform.
pub uninterp spec fn path_extension(path: Seq<char>) -> Option<Seq<char>>;

/// The URI segment of a path: its slug, with no stop words, the dot as
/// separator and no limit on the length.
pub open spec fn segment_of(path: Seq<char>) -> Seq<char> {
    slug_of(path, SLUG_STOP_WORDS@, SLUG_SEPARATOR@, None)
}

/// Calls `slugify::slugify`. The result is a function of the four arguments
/// alone; the crate writes nothing into it but the characters `a` to `z`
/// and `0` to `9` and the first character of the separator, which it takes
/// as one byte. It can fail on an empty separator, and on one that begins
/// with a character beyond ASCII: both are left out.
#[verifier::external_body]
fn slug(text: &str, stop_words: &str, separator: &str, max_length: Option<usize>) -> (made: String)
    requires
        separator@.len() > 0,
        (separator@[0] as u32) < 128,
    ensures
        made@ == slug_of(text@, stop_words@, separator@, max_length),
        forall|i: int|
            0 <= i < made@.len() ==> is_slug_letter(#[trigger] made@[i]) || made@[i]
                == separator@[0],
{
    slugify::slugify(text, stop_words, separator, max_length)
}

/// Calls `std::path::Path::with_extension`: the same path with its extension
/// replaced, or added where it had none. std refuses an extension that
/// holds a path separator.
#[verifier::external_body]
fn with_extension(path: &str, extension: &str) -> (changed: String)
    requires
        is_extension(extension@),
    ensures
        changed@ == path_with_extension(path@, extension@),
{
    std::path::Path::new(path).with_extension(extension).to_string_lossy().into_owned()
}

/// Calls `std::path::Path::extension`: what follows the last dot of the file
/// name, if the path has a file name with a dot that is not its first
/// character.
#[verifier::external_body]
fn extension(path: &str) -> (found: Option<String>)
    ensures
        found is Some <==> path_extension(path@) is Some,
        found matches Some(e) ==> path_extension(path@) == Some(e@),
{
    std::path::Path::new(path).extension().map(|e| e.to_string_lossy().into_owned())
}

/// The URI segment of a path: its slug. It is safe in a URL.
pub fn segment(path: &str) -> (made: String)
    ensures
        made@ == segment_of(path@),
        is_url_safe(made@),
{
    proof {
        reveal_strlit(".");
    }
    slug(path, SLUG_STOP_WORDS, SLUG_SEPARATOR, None)
}

/// Whether a text is safe as one segment of a URL path.
pub fn is_safe_segment(segment: &str) -> (safe: bool)
    ensures
        safe == is_url_safe(segment@),
{
    let chars = chars_of(segment);
    let mut i: usize = 0;
    while i < chars.len()
        invariant
            i <= chars.len(),
            chars@ == segment@,
            forall|j: int| 0 <= j < i ==> is_slug_char(#[trigger] segment@[j]),
        decreases chars.len() - i,
    {
        let c = chars[i];
        if !(('a' <= c && c <= 'z') || ('0' <= c && c <= '9') || c == '.') {
            assert(!is_slug_char(segment@[i as int]));
            return false;
        }
        i += 1;
    }
    true
}

/// A path, and whether a file was found there when the disk was looked at.
#[derive(Debug, PartialEq, Eq)]
pub struct LocalFile {
    /// The path as the user gave it.
    pub path: String,
    /// Whether the path exists on disk.
    pub exists: bool,
}

/// What a media file is, as plain values.
pub struct MediaFileView {
    /// The path of the file on disk.
    pub file_path: Seq<char>,
    /// The origin of the server: scheme, host and port.
    pub host_uri: Seq<char>,
    /// The segment under which the server offers the file.
    pub file_uri: Seq<char>,
}

impl MediaFileView {
    /// The segment is safe in a URL.
    pub open spec fn wf(self) -> bool {
        is_url_safe(self.file_uri)
    }

    /// The URI at which the file is reachable.
    pub open spec fn uri(self) -> Seq<char> {
        self.host_uri + "/"@ + self.file_uri
    }

    /// How the media file reads.
    pub open spec fn text(self) -> Seq<char> {
        "'"@ + self.file_path + "' @  "@ + self.host_uri + "/"@ + self.file_uri
    }
}

/// The media type that goes with an extension: the extension itself, and the
/// empty text where there is none.
pub open spec fn media_type_of(extension: Option<Seq<char>>) -> Seq<char> {
    match extension {
        Some(e) => e,
        None => Seq::empty(),
    }
}

/// A media file to stream.
#[derive(Debug)]
pub struct MediaFile {
    file_path: String,
    host_uri: String,
    file_uri: String,
}

impl View for MediaFile {
    type V = MediaFileView;

    closed spec fn view(&self) -> MediaFileView {
        MediaFileView {
            file_path: self.file_path@,
            host_uri: self.host_uri@,
            file_uri: self.file_uri@,
        }
    }
}

impl Clone for MediaFile {
    fn clone(&self) -> (copy: Self)
        ensures
            copy@ == self@,
    {
        proof {
            use_type_invariant(self);
        }
        MediaFile {
            file_path: self.file_path.clone(),
            host_uri: self.host_uri.clone(),
            file_uri: self.file_uri.clone(),
        }
    }
}

impl MediaFile {
    #[verifier::type_invariant]
    spec fn inv(self) -> bool {
        self@.wf()
    }

    /// What `new` returns for a file, the origin of the server and whether
    /// the file is on disk.
    pub open spec fn resolved(file: LocalFile, host_uri: Seq<char>) -> Option<MediaFileView> {
        if file.exists {
            Some(
                MediaFileView {
                    file_path: file.path@,
                    host_uri,
                    file_uri: segment_of(file.path@),
                },
            )
        } else {
            None
        }
    }

    /// Maps a local file to the URI segment under which the server at
    /// `host_uri` offers it: the slug of its path. A file that is not on
    /// disk is refused.
    pub fn new(file: &LocalFile, host_uri: &str) -> (made: Result<MediaFile>)
        ensures
            made is Ok <==> file.exists,
            match made {
                Ok(media) => Self::resolved(*file, host_uri@) == Some(media@) && media@.wf(),
                Err(Error::StreamingFileDoesNotExist(path)) => !file.exists && path@
                    == file.path@,
                Err(_) => false,
            },
    {
        if !file.exists {
            return Err(Error::StreamingFileDoesNotExist(file.path.clone()));
        }
        let file_uri = segment(file.path.as_str());
        Ok(MediaFile::assemble(file.path.as_str(), host_uri, file_uri))
    }

    /// The media file of a local file that is served under the given
    /// segment. There is none where the file is not on disk, and none where
    /// the segment is not safe in a URL.
    pub fn with_segment(file: &LocalFile, host_uri: &str, file_uri: String) -> (made: Option<
        MediaFile,
    >)
        ensures
            made is Some <==> file.exists && is_url_safe(file_uri@),
            made matches Some(media) ==> media@ == (MediaFileView {
                file_path: file.path@,
                host_uri: host_uri@,
                file_uri: file_uri@,
            }),
    {
        if file.exists && is_safe_segment(file_uri.as_str()) {
            Some(MediaFile::assemble(file.path.as_str(), host_uri, file_uri))
        } else {
            None
        }
    }

    /// Puts a media file together.
    fn assemble(file_path: &str, host_uri: &str, file_uri: String) -> (media: MediaFile)
        requires
            is_url_safe(file_uri@),
        ensures
            media@ == (MediaFileView {
                file_path: file_path@,
                host_uri: host_uri@,
                file_uri: file_uri@,
            }),
    {
        MediaFile {
            file_path: String::from_str(file_path),
            host_uri: String::from_str(host_uri),
            file_uri,
        }
    }

    /// The path of the file on disk.
    pub fn file_path(&self) -> (path: &String)
        ensures
            path@ == self@.file_path,
    {
        &self.file_path
    }

    /// The origin of the server that offers the file.
    pub fn host_uri(&self) -> (origin: &String)
        ensures
            origin@ == self@.host_uri,
    {
        &self.host_uri
    }

    /// The URI segment of the file: the slug of its path, safe in a URL.
    pub fn file_uri(&self) -> (segment: &String)
        ensures
            segment@ == self@.file_uri,
            self@.wf(),
    {
        proof {
            use_type_invariant(self);
        }
        &self.file_uri
    }

    /// The URI at which the file is reachable: origin, a slash, segment.
    pub fn uri(&self) -> (uri: String)
        ensures
            uri@ == self@.uri(),
    {
        let mut uri = self.host_uri.clone();
        uri.append("/");
        uri.append(self.file_uri.as_str());
        uri
    }

    /// The media type of the file: the extension of its path.
    pub fn media_type(&self) -> (kind: String)
        ensures
            kind@ == media_type_of(path_extension(self@.file_path)),
    {
        media_type(extension(self.file_path.as_str()))
    }

    /// How the media file reads: its path, and where it is served.
    pub fn to_string(&self) -> (text: String)
        ensures
            text@ == self@.text(),
    {
        let mut text = String::from_str("'");
        text.append(self.file_path.as_str());
        text.append("' @  ");
        text.append(self.host_uri.as_str());
        text.append("/");
        text.append(self.file_uri.as_str());
        text
    }
}

/// The media type that goes with the extension of a path.
pub fn media_type(extension: Option<String>) -> (kind: String)
    ensures
        kind@ == media_type_of(
            match extension {
                Some(e) => Some(e@),
                None => None,
            },
        ),
{
    match extension {
        Some(e) => e,
        None => String::new(),
    }
}

/// The text of the socket address that the server is to listen on: the host,
/// a colon, and the streaming port.
pub open spec fn server_address_of(host_ip: Seq<char>) -> Seq<char> {
    host_ip + ":"@ + decimal(STREAMING_PORT as nat)
}

/// The origin of a server that listens on a socket address.
pub open spec fn origin_of(server_addr: Seq<char>) -> Seq<char> {
    "http://"@ + server_addr
}

/// The text that is to be read as the socket address of the server.
pub fn server_address(host_ip: &str) -> (addr: String)
    ensures
        addr@ == server_address_of(host_ip@),
{
    let mut addr = String::from_str(host_ip);
    addr.append(":");
    let port = decimal_string(STREAMING_PORT as u64);
    addr.append(port.as_str());
    addr
}

/// Which of the files of a server a route answers with.
#[derive(Debug, Clone, Copy, PartialEq, Eq, Structural)]
pub enum ServedFile {
    /// The video.
    Video,
    /// The subtitle.
    Subtitle,
}

/// A path that the server answers, and the file that it answers with.
#[derive(Debug, PartialEq, Eq)]
pub struct Route {
    /// The one segment of the request path.
    pub segment: String,
    /// Which file of the server is served.
    pub file: ServedFile,
    /// The path of that file on disk.
    pub file_path: String,
}

/// What a route is, as plain values.
pub struct RouteView {
    /// The one segment of the request path.
    pub segment: Seq<char>,
    /// Which file of the server is served.
    pub file: ServedFile,
    /// The path of that file on disk.
    pub file_path: Seq<char>,
}

impl View for Route {
    type V = RouteView;

    open spec fn view(&self) -> RouteView {
        RouteView { segment: self.segment@, file: self.file, file_path: self.file_path@ }
    }
}

/// What a streaming server is, as plain values.
pub struct MediaStreamingServerView {
    /// The video.
    pub video_file: MediaFileView,
    /// The subtitle, if there is one.
    pub subtitle_file: Option<MediaFileView>,
    /// The socket address that the server listens on.
    pub server_addr: Seq<char>,
}

impl MediaStreamingServerView {
    /// Both files are well formed.
    pub open spec fn wf(self) -> bool {
        &&& self.video_file.wf()
        &&& self.subtitle_file matches Some(subtitle) ==> subtitle.wf()
    }

    /// The URI of the video.
    pub open spec fn video_uri(self) -> Seq<char> {
        self.video_file.uri()
    }

    /// The URI of the subtitle, if there is one.
    pub open spec fn subtitle_uri(self) -> Option<Seq<char>> {
        match self.subtitle_file {
            Some(subtitle) => Some(subtitle.uri()),
            None => None,
        }
    }

    /// The media type of the video.
    pub open spec fn video_type(self) -> Seq<char> {
        media_type_of(path_extension(self.video_file.file_path))
    }

    /// The media type of the subtitle, if there is one.
    pub open spec fn subtitle_type(self) -> Option<Seq<char>> {
        match self.subtitle_file {
            Some(subtitle) => Some(media_type_of(path_extension(subtitle.file_path))),
            None => None,
        }
    }

    /// The route of the video.
    pub open spec fn video_route(self) -> RouteView {
        RouteView {
            segment: self.video_file.file_uri,
            file: ServedFile::Video,
            file_path: self.video_file.file_path,
        }
    }

    /// The second route: that of the subtitle, or, where there is none, a
    /// placeholder that answers with the video.
    pub open spec fn subtitle_route(self) -> RouteView {
        match self.subtitle_file {
            Some(subtitle) => RouteView {
                segment: subtitle.file_uri,
                file: ServedFile::Subtitle,
                file_path: subtitle.file_path,
            },
            None => RouteView {
                segment: "dummy.srt"@,
                file: ServedFile::Video,
                file_path: self.video_file.file_path,
            },
        }
    }
}

/// A media streaming server: one video, at most one subtitle, and the
/// address that both are served from.
#[derive(Debug)]
pub struct MediaStreamingServer {
    video_file: MediaFile,
    subtitle_file: Option<MediaFile>,
    server_addr: String,
}

impl View for MediaStreamingServer {
    type V = MediaStreamingServerView;

    closed spec fn view(&self) -> MediaStreamingServerView {
        MediaStreamingServerView {
            video_file: self.video_file@,
            subtitle_file: match self.subtitle_file {
                Some(subtitle) => Some(subtitle@),
                None => None,
            },
            server_addr: self.server_addr@,
        }
    }
}

impl MediaStreamingServer {
    #[verifier::type_invariant]
    spec fn inv(self) -> bool {
        self@.wf()
    }

    /// What `new` builds where it succeeds: both files resolved against the
    /// origin of the server.
    pub open spec fn built(
        video: LocalFile,
        subtitle: Option<LocalFile>,
        server_addr: Seq<char>,
    ) -> MediaStreamingServerView {
        MediaStreamingServerView {
            video_file: MediaFileView {
                file_path: video.path@,
                host_uri: origin_of(server_addr),
                file_uri: segment_of(video.path@),
            },
            subtitle_file: match subtitle {
                Some(file) => Some(
                    MediaFileView {
                        file_path: file.path@,
                        host_uri: origin_of(server_addr),
                        file_uri: segment_of(file.path@),
                    },
                ),
                None => None,
            },
            server_addr,
        }
    }

    /// Creates a media streaming server for a video and, if given, a
    /// subtitle.
    ///
    /// `server_addr` is the socket address that `server_address(host_ip)`
    /// denotes, as the address itself reads, and `None` where that text
    /// denotes none. The address is looked at first, then the video, then the
    /// subtitle: the first that fails gives the error.
    pub fn new(
        video: &LocalFile,
        subtitle: &Option<LocalFile>,
        host_ip: &String,
        server_addr: &Option<String>,
    ) -> (made: Result<MediaStreamingServer>)
        ensures
            match made {
                Ok(server) => {
                    &&& server_addr matches Some(addr)
                    &&& video.exists
                    &&& subtitle matches Some(file) ==> file.exists
                    &&& server@ == Self::built(*video, *subtitle, addr@)
                    &&& server@.wf()
                },
                Err(Error::StreamingHostParseError(text)) => {
                    &&& server_addr is None
                    &&& text@ == server_address_of(host_ip@)
                },
                Err(Error::StreamingFileDoesNotExist(path)) => {
                    &&& server_addr is Some
                    &&& if !video.exists {
                        path@ == video.path@
                    } else {
                        subtitle matches Some(file) && !file.exists && path@ == file.path@
                    }
                },
                Err(_) => false,
            },
    {
        let addr = match server_addr {
            Some(addr) => addr,
            None => {
                return Err(Error::StreamingHostParseError(server_address(host_ip.as_str())));
            },
        };
        let mut host_uri = String::from_str("http://");
        host_uri.append(addr.as_str());

        let video_file = match MediaFile::new(video, host_uri.as_str()) {
            Ok(media) => media,
            Err(e) => {
                return Err(e);
            },
        };
        let subtitle_file = match subtitle {
            Some(file) => match MediaFile::new(file, host_uri.as_str()) {
                Ok(media) => Some(media),
                Err(e) => {
                    return Err(e);
                },
            },
            None => None,
        };
        Ok(MediaStreamingServer::with_files(video_file, subtitle_file, addr.clone()))
    }

    /// The server of a video and, if given, a subtitle, at a socket
    /// address.
    pub fn with_files(
        video_file: MediaFile,
        subtitle_file: Option<MediaFile>,
        server_addr: String,
    ) -> (server: MediaStreamingServer)
        ensures
            server@ == (MediaStreamingServerView {
                video_file: video_file@,
                subtitle_file: match subtitle_file {
                    Some(subtitle) => Some(subtitle@),
                    None => None,
                },
                server_addr: server_addr@,
            }),
            server@.wf(),
    {
        proof {
            use_type_invariant(&video_file);
            if let Some(subtitle) = &subtitle_file {
                use_type_invariant(subtitle);
            }
        }
        MediaStreamingServer { video_file, subtitle_file, server_addr }
    }

    /// The socket address that the server listens on.
    pub fn server_addr(&self) -> (addr: &String)
        ensures
            addr@ == self@.server_addr,
            self@.wf(),
    {
        proof {
            use_type_invariant(self);
        }
        &self.server_addr
    }

    /// The URI of the video: origin, a slash, segment.
    pub fn video_uri(&self) -> (uri: String)
        ensures
            uri@ == self@.video_uri(),
    {
        self.video_file.uri()
    }

    /// The media type of the video: the extension of its path, empty where
    /// it has none.
    pub fn video_type(&self) -> (kind: String)
        ensures
            kind@ == self@.video_type(),
    {
        self.video_file.media_type()
    }

    /// The URI of the subtitle, where the server has one.
    pub fn subtitle_uri(&self) -> (uri: Option<String>)
        ensures
            uri is Some <==> self@.subtitle_uri() is Some,
            uri matches Some(u) ==> self@.subtitle_uri() == Some(u@),
    {
        match &self.subtitle_file {
            Some(subtitle) => Some(subtitle.uri()),
            None => None,
        }
    }

    /// The media type of the subtitle, where the server has one.
    pub fn subtitle_type(&self) -> (kind: Option<String>)
        ensures
            kind is Some <==> self@.subtitle_type() is Some,
            kind matches Some(k) ==> self@.subtitle_type() == Some(k@),
    {
        match &self.subtitle_file {
            Some(subtitle) => Some(subtitle.media_type()),
            None => None,
        }
    }

    /// The two routes of the server: the video first, then the subtitle or,
    /// where there is none, a placeholder under `dummy.srt` that answers
    /// with the video. Every other path is not found.
    pub fn get_routes(&self) -> (routes: (Route, Route))
        ensures
            routes.0@ == self@.video_route(),
            routes.1@ == self@.subtitle_route(),
    {
        let video_route = Route {
            segment: self.video_file.file_uri.clone(),
            file: ServedFile::Video,
            file_path: self.video_file.file_path.clone(),
        };
        let subtitle_route = match &self.subtitle_file {
            Some(subtitle) => Route {
                segment: subtitle.file_uri.clone(),
                file: ServedFile::Subtitle,
                file_path: subtitle.file_path.clone(),
            },
            None => Route {
                segment: String::from_str("dummy.srt"),
                file: ServedFile::Video,
                file_path: self.video_file.file_path.clone(),
            },
        };
        (video_route, subtitle_route)
    }
}

/// The path beside a video where its subtitle is looked for: the path of the
/// video with the extension `srt`.
pub open spec fn subtitle_beside(video_path: Seq<char>) -> Seq<char> {
    path_with_extension(video_path, "srt"@)
}

/// The path where the subtitle of a video is looked for.
pub fn inferred_subtitle_path(video_path: &str) -> (path: String)
    ensures
        path@ == subtitle_beside(video_path@),
{
    proof {
        reveal_strlit("srt");
    }
    with_extension(video_path, "srt")
}

/// Infers the subtitle of a video: the file beside it with the extension
/// `srt`, if `found` says that it is on disk, and no subtitle otherwise.
pub fn infer_subtitle_from_video(video_path: &str, found: bool) -> (subtitle: Option<String>)
    ensures
        subtitle is Some <==> found,
        subtitle matches Some(path) ==> path@ == subtitle_beside(video_path@),
{
    let inferred = inferred_subtitle_path(video_path);
    subtitle_if_found(inferred, found)
}

/// The inferred subtitle if it is on disk, and none otherwise.
pub fn subtitle_if_found(inferred: String, found: bool) -> (subtitle: Option<String>)
    ensures
        subtitle == if found { Some(inferred) } else { None },
{
    if found {
        Some(inferred)
    } else {
        None
    }
}

/// The segment of a media file goes by its path alone: two files of the
/// same path are served under the same segment, at whatever origin.
pub proof fn lemma_same_path_same_segment(
    one: LocalFile,
    other: LocalFile,
    one_origin: Seq<char>,
    other_origin: Seq<char>,
)
    requires
        one.exists,
        other.exists,
        one.path@ == other.path@,
    ensures
        MediaFile::resolved(one, one_origin)->0.file_uri == MediaFile::resolved(
            other,
            other_origin,
        )->0.file_uri,
{
}

/// The URI of a media file ends in its segment, and before the segment it
/// holds the origin and a slash: it is safe from the origin on.
pub proof fn lemma_uri_ends_in_segment(media: MediaFileView)
    requires
        media.wf(),
    ensures
        media.uri().len() == media.host_uri.len() + 1 + media.file_uri.len(),
        media.uri().subrange(0, media.host_uri.len() as int) == media.host_uri,
        media.uri()[media.host_uri.len() as int] == '/',
        media.uri().skip(media.host_uri.len() as int + 1) == media.file_uri,
        is_url_safe(media.uri().skip(media.host_uri.len() as int + 1)),
{
    reveal_strlit("/");
    assert(media.uri().subrange(0, media.host_uri.len() as int) =~= media.host_uri);
    assert(media.uri().skip(media.host_uri.len() as int + 1) =~= media.file_uri);
}

/// Two paths with the same slug collide: their files are served under the
/// same segment and, at one origin, at the same URI. Nothing tells them
/// apart.
pub proof fn lemma_same_slug_same_uri(one: LocalFile, other: LocalFile, origin: Seq<char>)
    requires
        one.exists,
        other.exists,
        segment_of(one.path@) == segment_of(other.path@),
    ensures
        MediaFile::resolved(one, origin)->0.file_uri == MediaFile::resolved(
            other,
            origin,
        )->0.file_uri,
        MediaFile::resolved(one, origin)->0.uri() == MediaFile::resolved(other, origin)->0.uri(),
{
}

/// Two videos with the same URI segment are served at the same URI by
/// servers at one address: nothing is added to a segment to tell two files
/// apart.
pub proof fn lemma_same_segment_same_video_uri(
    one: LocalFile,
    other: LocalFile,
    one_subtitle: Option<LocalFile>,
    other_subtitle: Option<LocalFile>,
    server_addr: Seq<char>,
)
    requires
        segment_of(one.path@) == segment_of(other.path@),
    ensures
        MediaStreamingServer::built(one, one_subtitle, server_addr).video_uri()
            == MediaStreamingServer::built(other, other_subtitle, server_addr).video_uri(),
{
}

} // verus!
