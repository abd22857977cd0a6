//! The DLNA side of playing: the payloads that a render is sent, and the
//! order in which a playback session does its steps.

use crate::devices::Render;
use crate::error::{Error, Result};
use crate::streaming::{
    is_slug_char, MediaFileView, MediaStreamingServer, MediaStreamingServerView,
};
use crate::text::{join, joined, lemma_joined_part_occurs, occurs_at, texts_of};
use vstd::prelude::*;
use vstd::string::*;

verus! {

/// The metadata up to the media type of the video.
pub const DIDL_OPEN: &'static str = "\n                    <DIDL-Lite xmlns=\"urn:schemas-upnp-org:metadata-1-0/DIDL-Lite/\"\n                               xmlns:dc=\"http://purl.org/dc/elements/1.1/\" \n                               xmlns:upnp=\"urn:schemas-upnp-org:metadata-1-0/upnp/\" \n                               xmlns:dlna=\"urn:schemas-dlna-org:metadata-1-0/\" \n                               xmlns:sec=\"http://www.sec.co.kr/\" \n                               xmlns:xbmc=\"urn:schemas-xbmc-org:metadata-1-0/\">\n                        <item id=\"0\" parentID=\"-1\" restricted=\"1\">\n                            <dc:title>nano-dlna Video</dc:title>\n                            <res protocolInfo=\"http-get:*:video/";

/// From the media type of the video to the subtitle URI in the attribute `pv:subtitleFileUri`.
pub const DIDL_SUBTITLE_ATTR: &'static str = ":\" xmlns:pv=\"http://www.pv.com/pvns/\" pv:subtitleFileUri=\"";

/// From the subtitle URI to the subtitle type in the attribute `pv:subtitleFileType`.
pub const DIDL_SUBTITLE_TYPE_ATTR: &'static str = "\" pv:subtitleFileType=\"";

/// The end of the opening tag of the video resource.
pub const DIDL_VIDEO_BODY: &'static str = "\">";

/// From the video URI to the subtitle URI in the resource of type `text/srt`.
pub const DIDL_RES_SRT: &'static str = "</res>\n                            <res protocolInfo=\"http-get:*:text/srt:*\">";

/// From there to the subtitle URI in the resource of type `smi/caption`.
pub const DIDL_RES_SMI: &'static str = "</res>\n                            <res protocolInfo=\"http-get:*:smi/caption:*\">";

/// From there to the subtitle type of the tag `sec:CaptionInfoEx`.
pub const DIDL_CAPTION_EX: &'static str = "</res>\n                            <sec:CaptionInfoEx sec:type=\"";

/// The end of the opening tag `sec:CaptionInfoEx`.
pub const DIDL_CAPTION_EX_BODY: &'static str = "\">";

/// From the subtitle URI in `sec:CaptionInfoEx` to the subtitle type of the tag `sec:CaptionInfo`.
pub const DIDL_CAPTION: &'static str = "</sec:CaptionInfoEx>\n                            <sec:CaptionInfo sec:type=\"";

/// The end of the opening tag `sec:CaptionInfo`.
pub const DIDL_CAPTION_BODY: &'static str = "\">";

/// From the subtitle URI in `sec:CaptionInfo` to the end of the metadata.
pub const DIDL_CLOSE: &'static str = "</sec:CaptionInfo>\n                            <upnp:class>object.item.videoItem.movie</upnp:class>\n                        </item>\n                    </DIDL-Lite>\n                    ";

/// The payload of the action `Play`: instance 0, speed 1.
pub const PAYLOAD_PLAY: &'static str = "\n    <InstanceID>0</InstanceID>\n    <Speed>1</Speed>\n";

/// The payload of `SetAVTransportURI` up to the video URI.
pub const PAYLOAD_URI_OPEN: &'static str = "\n        <InstanceID>0</InstanceID>\n        <CurrentURI>";

/// The payload of `SetAVTransportURI` between the video URI and the metadata.
pub const PAYLOAD_URI_METADATA: &'static str = "</CurrentURI>\n        <CurrentURIMetaData>";

/// The payload of `SetAVTransportURI` after the metadata.
pub const PAYLOAD_URI_CLOSE: &'static str = "</CurrentURIMetaData>\n        ";

/// The subtitle type that the metadata names where the server knows none.
pub const UNKNOWN_TYPE: &'static str = "unknown";

/// The seconds that the streaming server is given to come up before the
/// render is told of it.
pub const STREAMING_SERVER_WAIT_SECS: u64 = 5;

/// What stands for one character inside an XML attribute value: an entity
/// for the five markup characters and for the two line breaks, the character
/// itself for every other.
pub open spec fn escaped_char(c: char) -> Seq<char> {
    if c == '<' {
        "&lt;"@
    } else if c == '>' {
        "&gt;"@
    } else if c == '"' {
        "&quot;"@
    } else if c == '\'' {
        "&apos;"@
    } else if c == '&' {
        "&amp;"@
    } else if c == '\n' {
        "&#xA;"@
    } else if c == '\r' {
        "&#xD;"@
    } else {
        seq![c]
    }
}

/// A text escaped for an XML attribute value, character by character.
pub open spec fn escaped(text: Seq<char>) -> Seq<char>
    decreases text.len(),
{
    if text.len() == 0 {
        Seq::empty()
    } else {
        escaped(text.drop_last()) + escaped_char(text.last())
    }
}

/// The parts of the DIDL-Lite metadata of a video with a subtitle, in their
/// order: fixed text around the four values. The subtitle URI is a part
/// five times: in the attribute `pv:subtitleFileUri`, in the two `res`
/// entries that follow the video, and in the two caption tags.
pub open spec fn didl_parts(
    video_uri: Seq<char>,
    video_type: Seq<char>,
    subtitle_uri: Seq<char>,
    subtitle_type: Seq<char>,
) -> Seq<Seq<char>> {
    seq![
        DIDL_OPEN@,
        video_type,
        DIDL_SUBTITLE_ATTR@,
        subtitle_uri,
        DIDL_SUBTITLE_TYPE_ATTR@,
        subtitle_type,
        DIDL_VIDEO_BODY@,
        video_uri,
        DIDL_RES_SRT@,
        subtitle_uri,
        DIDL_RES_SMI@,
        subtitle_uri,
        DIDL_CAPTION_EX@,
        subtitle_type,
        DIDL_CAPTION_EX_BODY@,
        subtitle_uri,
        DIDL_CAPTION@,
        subtitle_type,
        DIDL_CAPTION_BODY@,
        subtitle_uri,
        DIDL_CLOSE@,
    ]
}

/// The places of the subtitle URI among the parts of the metadata.
pub open spec fn subtitle_uri_slots() -> Seq<int> {
    seq![3, 9, 11, 15, 19]
}

/// The DIDL-Lite metadata of a video with a subtitle, before it is escaped.
pub open spec fn didl_fragment(
    video_uri: Seq<char>,
    video_type: Seq<char>,
    subtitle_uri: Seq<char>,
    subtitle_type: Seq<char>,
) -> Seq<char> {
    joined(didl_parts(video_uri, video_type, subtitle_uri, subtitle_type))
}

/// The subtitle type that the metadata names.
pub open spec fn subtitle_type_or_unknown(subtitle_type: Option<Seq<char>>) -> Seq<char> {
    match subtitle_type {
        Some(kind) => kind,
        None => UNKNOWN_TYPE@,
    }
}

/// The metadata that goes with the video URI: the escaped DIDL-Lite
/// fragment where the server has a subtitle, the empty text where it has
/// none.
pub open spec fn metadata_of(server: MediaStreamingServerView) -> Seq<char> {
    match server.subtitle_uri() {
        Some(subtitle_uri) => escaped(
            didl_fragment(
                server.video_uri(),
                server.video_type(),
                subtitle_uri,
                subtitle_type_or_unknown(server.subtitle_type()),
            ),
        ),
        None => Seq::empty(),
    }
}

/// The payload of `SetAVTransportURI`: instance 0, the video URI as
/// `CurrentURI`, the metadata as `CurrentURIMetaData`.
pub open spec fn set_uri_payload_of(video_uri: Seq<char>, metadata: Seq<char>) -> Seq<char> {
    PAYLOAD_URI_OPEN@ + video_uri + PAYLOAD_URI_METADATA@ + metadata + PAYLOAD_URI_CLOSE@
}

/// Calls `xml::escape::escape_str_attribute`, which replaces `<`, `>`, `"`,
/// `'`, `&`, line feed and carriage return by their entities and leaves
/// every other character as it is.
#[verifier::external_body]
fn escape_attribute(text: &str) -> (safe: String)
    ensures
        safe@ == escaped(text@),
{
    xml::escape::escape_str_attribute(text).into_owned()
}

/// Writes the DIDL-Lite metadata of a video with a subtitle, not yet
/// escaped.
pub fn didl_fragment_text(
    video_uri: &str,
    video_type: &str,
    subtitle_uri: &str,
    subtitle_type: &str,
) -> (fragment: String)
    ensures
        fragment@ == didl_fragment(video_uri@, video_type@, subtitle_uri@, subtitle_type@),
{
    let parts: Vec<&str> = vec![
        DIDL_OPEN,
        video_type,
        DIDL_SUBTITLE_ATTR,
        subtitle_uri,
        DIDL_SUBTITLE_TYPE_ATTR,
        subtitle_type,
        DIDL_VIDEO_BODY,
        video_uri,
        DIDL_RES_SRT,
        subtitle_uri,
        DIDL_RES_SMI,
        subtitle_uri,
        DIDL_CAPTION_EX,
        subtitle_type,
        DIDL_CAPTION_EX_BODY,
        subtitle_uri,
        DIDL_CAPTION,
        subtitle_type,
        DIDL_CAPTION_BODY,
        subtitle_uri,
        DIDL_CLOSE,
    ];
    assert(texts_of(parts@) =~= didl_parts(video_uri@, video_type@, subtitle_uri@, subtitle_type@));
    join(&parts)
}

/// Builds the metadata that tells the render of the subtitle: empty where
/// the server has none.
pub fn subtitle_metadata(streaming_server: &MediaStreamingServer) -> (metadata: String)
    ensures
        metadata@ == metadata_of(streaming_server@),
{
    match streaming_server.subtitle_uri() {
        Some(subtitle_uri) => {
            let video_uri = streaming_server.video_uri();
            let video_type = streaming_server.video_type();
            let subtitle_type = match streaming_server.subtitle_type() {
                Some(kind) => kind,
                None => String::from_str(UNKNOWN_TYPE),
            };
            let fragment = didl_fragment_text(
                video_uri.as_str(),
                video_type.as_str(),
                subtitle_uri.as_str(),
                subtitle_type.as_str(),
            );
            escape_attribute(fragment.as_str())
        },
        None => String::new(),
    }
}

/// Writes the payload of `SetAVTransportURI`.
pub fn set_uri_payload(video_uri: &str, metadata: &str) -> (payload: String)
    ensures
        payload@ == set_uri_payload_of(video_uri@, metadata@),
{
    let mut payload = String::from_str(PAYLOAD_URI_OPEN);
    payload.append(video_uri);
    payload.append(PAYLOAD_URI_METADATA);
    payload.append(metadata);
    payload.append(PAYLOAD_URI_CLOSE);
    payload
}

/// The name of the action that hands the render the video URI.
pub const ACTION_SET_URI: &'static str = "SetAVTransportURI";

/// The name of the action that starts the playback.
pub const ACTION_PLAY: &'static str = "Play";

/// How far a playback session has come.
#[derive(Debug, Clone, Copy, PartialEq, Eq, Structural)]
pub enum PlaybackState {
    /// Nothing has been done.
    Idle,
    /// The streaming server has been asked to start, and is given its time
    /// to come up.
    ServerStarting,
    /// The metadata is built and the render has been sent the video URI.
    MetadataBuilt,
    /// The render has taken the video URI and has been told to play.
    UriSet,
    /// The render plays; the session waits for the streaming server, which
    /// does not end by itself.
    Playing,
    /// The session is over: the render refused, or the server ended.
    Cancelled,
}

/// What has happened since the last step of a session.
#[derive(Debug)]
pub enum PlaybackEvent {
    /// The session is to begin.
    Start,
    /// The streaming server was started, and the time it is given is over.
    ServerStarted,
    /// The render has answered an action: well, or with the text of an
    /// error.
    Answered(core::result::Result<(), String>),
    /// The task of the streaming server has ended: by itself, or with the
    /// text of an error.
    ServerStopped(core::result::Result<(), String>),
}

/// What is to be done next in a session.
#[derive(Debug)]
pub enum PlaybackAction {
    /// Start the streaming server as a task of its own, without waiting for
    /// its end, and then wait so many seconds.
    StartServer {
        /// The seconds to wait.
        grace_secs: u64,
    },
    /// Send an action to the AVTransport service of the render.
    Invoke {
        /// The URL of the device.
        url: String,
        /// The name of the action.
        action: String,
        /// The arguments of the action, as XML.
        payload: String,
    },
    /// Wait for the task of the streaming server to end.
    AwaitServer,
    /// Return to the caller, with this result.
    Finish(Result<()>),
}

/// The event is the one that a session in this state waits for.
pub open spec fn awaited(state: PlaybackState, event: PlaybackEvent) -> bool {
    match state {
        PlaybackState::Idle => event is Start,
        PlaybackState::ServerStarting => event is ServerStarted,
        PlaybackState::MetadataBuilt => event is Answered,
        PlaybackState::UriSet => event is Answered,
        PlaybackState::Playing => event is ServerStopped,
        PlaybackState::Cancelled => false,
    }
}

/// The state that follows a state on the event that it waits for.
pub open spec fn next_state(state: PlaybackState, event: PlaybackEvent) -> PlaybackState {
    match (state, event) {
        (PlaybackState::Idle, PlaybackEvent::Start) => PlaybackState::ServerStarting,
        (PlaybackState::ServerStarting, PlaybackEvent::ServerStarted) =>
            PlaybackState::MetadataBuilt,
        (PlaybackState::MetadataBuilt, PlaybackEvent::Answered(Ok(_))) => PlaybackState::UriSet,
        (PlaybackState::UriSet, PlaybackEvent::Answered(Ok(_))) => PlaybackState::Playing,
        _ => PlaybackState::Cancelled,
    }
}

/// Does one step of a playback session: from the state of the session and
/// what has happened since, to the next state and what is to be done.
///
/// The server is started first and given its time; then the render is sent
/// `SetAVTransportURI` with the video URI and the metadata, and, if it
/// takes that, `Play`; then the session waits for the server. An action
/// that the render refuses ends the session with the error, and nothing is
/// tried again. An event that the state does not wait for changes nothing:
/// the answer is `None`.
pub fn play(
    state: PlaybackState,
    event: PlaybackEvent,
    render: &Render,
    streaming_server: &MediaStreamingServer,
) -> (step: Option<(PlaybackState, PlaybackAction)>)
    ensures
        step is Some <==> awaited(state, event),
        step matches Some((next, _)) ==> next == next_state(state, event),
        step matches Some((_, action)) ==> match (state, event) {
            (PlaybackState::Idle, PlaybackEvent::Start) => action matches PlaybackAction::StartServer {
                grace_secs,
            } && grace_secs == STREAMING_SERVER_WAIT_SECS,
            (PlaybackState::ServerStarting, PlaybackEvent::ServerStarted) => {
                &&& action matches PlaybackAction::Invoke { url, action: name, payload }
                &&& url@ == render@.device.url
                &&& name@ == ACTION_SET_URI@
                &&& payload@ == set_uri_payload_of(
                    streaming_server@.video_uri(),
                    metadata_of(streaming_server@),
                )
            },
            (PlaybackState::MetadataBuilt, PlaybackEvent::Answered(Ok(_))) => {
                &&& action matches PlaybackAction::Invoke { url, action: name, payload }
                &&& url@ == render@.device.url
                &&& name@ == ACTION_PLAY@
                &&& payload@ == PAYLOAD_PLAY@
            },
            (PlaybackState::MetadataBuilt, PlaybackEvent::Answered(Err(cause))) => {
                &&& action matches PlaybackAction::Finish(
                    Err(Error::DLNASetAVTransportURIError(text)),
                )
                &&& text@ == cause@
            },
            (PlaybackState::UriSet, PlaybackEvent::Answered(Ok(_))) => action is AwaitServer,
            (PlaybackState::UriSet, PlaybackEvent::Answered(Err(cause))) => {
                &&& action matches PlaybackAction::Finish(Err(Error::DLNAPlayError(text)))
                &&& text@ == cause@
            },
            (PlaybackState::Playing, PlaybackEvent::ServerStopped(Ok(_))) => action
                matches PlaybackAction::Finish(Ok(_)),
            (PlaybackState::Playing, PlaybackEvent::ServerStopped(Err(cause))) => {
                &&& action matches PlaybackAction::Finish(Err(Error::DLNAStreamingError(text)))
                &&& text@ == cause@
            },
            _ => false,
        },
{
    match state {
        PlaybackState::Idle => match event {
            PlaybackEvent::Start => Some(
                (
                    PlaybackState::ServerStarting,
                    PlaybackAction::StartServer { grace_secs: STREAMING_SERVER_WAIT_SECS },
                ),
            ),
            _ => None,
        },
        PlaybackState::ServerStarting => match event {
            PlaybackEvent::ServerStarted => {
                let metadata = subtitle_metadata(streaming_server);
                let video_uri = streaming_server.video_uri();
                let payload = set_uri_payload(video_uri.as_str(), metadata.as_str());
                Some(
                    (
                        PlaybackState::MetadataBuilt,
                        PlaybackAction::Invoke {
                            url: render.device().url().clone(),
                            action: String::from_str(ACTION_SET_URI),
                            payload,
                        },
                    ),
                )
            },
            _ => None,
        },
        PlaybackState::MetadataBuilt => match event {
            PlaybackEvent::Answered(Ok(_)) => Some(
                (
                    PlaybackState::UriSet,
                    PlaybackAction::Invoke {
                        url: render.device().url().clone(),
                        action: String::from_str(ACTION_PLAY),
                        payload: String::from_str(PAYLOAD_PLAY),
                    },
                ),
            ),
            PlaybackEvent::Answered(Err(cause)) => Some(
                (
                    PlaybackState::Cancelled,
                    PlaybackAction::Finish(Err(Error::DLNASetAVTransportURIError(cause))),
                ),
            ),
            _ => None,
        },
        PlaybackState::UriSet => match event {
            PlaybackEvent::Answered(Ok(_)) => Some(
                (PlaybackState::Playing, PlaybackAction::AwaitServer),
            ),
            PlaybackEvent::Answered(Err(cause)) => Some(
                (PlaybackState::Cancelled, PlaybackAction::Finish(Err(Error::DLNAPlayError(cause)))),
            ),
            _ => None,
        },
        PlaybackState::Playing => match event {
            PlaybackEvent::ServerStopped(Ok(_)) => Some(
                (PlaybackState::Cancelled, PlaybackAction::Finish(Ok(()))),
            ),
            PlaybackEvent::ServerStopped(Err(cause)) => Some(
                (
                    PlaybackState::Cancelled,
                    PlaybackAction::Finish(Err(Error::DLNAStreamingError(cause))),
                ),
            ),
            _ => None,
        },
        PlaybackState::Cancelled => None,
    }
}


/// A character that an XML attribute value cannot hold as it is, the
/// ampersand apart.
pub open spec fn is_markup(c: char) -> bool {
    c == '<' || c == '>' || c == '"' || c == '\'' || c == '\n' || c == '\r'
}

/// A character that escaping leaves as it is.
pub open spec fn is_plain_char(c: char) -> bool {
    !is_markup(c) && c != '&'
}

/// A text that escaping leaves as it is.
pub open spec fn is_plain(text: Seq<char>) -> bool {
    forall|i: int| 0 <= i < text.len() ==> is_plain_char(#[trigger] text[i])
}

/// One of the seven entities stands in `text` at position `at`.
pub open spec fn entity_at(text: Seq<char>, at: int) -> bool {
    ||| occurs_at(text, "&lt;"@, at)
    ||| occurs_at(text, "&gt;"@, at)
    ||| occurs_at(text, "&quot;"@, at)
    ||| occurs_at(text, "&apos;"@, at)
    ||| occurs_at(text, "&amp;"@, at)
    ||| occurs_at(text, "&#xA;"@, at)
    ||| occurs_at(text, "&#xD;"@, at)
}

/// A text that can stand between the quotes of an XML attribute: it holds
/// no markup character, and each ampersand in it begins an entity.
pub open spec fn is_attribute_value(text: Seq<char>) -> bool {
    forall|i: int|
        0 <= i < text.len() ==> !is_markup(#[trigger] text[i]) && (text[i] == '&' ==> entity_at(
            text,
            i,
        ))
}

/// What stands for one character is a plain character or an entity.
proof fn lemma_escaped_char(c: char)
    ensures
        is_attribute_value(escaped_char(c)),
        is_plain_char(c) ==> escaped_char(c) == seq![c],
        escaped_char(c).len() >= 1,
{
    reveal_strlit("&lt;");
    reveal_strlit("&gt;");
    reveal_strlit("&quot;");
    reveal_strlit("&apos;");
    reveal_strlit("&amp;");
    reveal_strlit("&#xA;");
    reveal_strlit("&#xD;");
    let e = escaped_char(c);
    assert(e.subrange(0, e.len() as int) == e);
    assert forall|i: int| 0 <= i < e.len() implies !is_markup(#[trigger] e[i]) && (e[i] == '&'
        ==> entity_at(e, i)) by {
        if e[i] == '&' {
            assert(i == 0);
        }
    }
}

/// An entity that stands in a text stands in every text that begins with it.
proof fn lemma_entity_stays(head: Seq<char>, tail: Seq<char>, at: int)
    requires
        entity_at(head, at),
    ensures
        entity_at(head + tail, at),
{
    let whole = head + tail;
    assert forall|e: Seq<char>| occurs_at(head, e, at) implies occurs_at(whole, e, at) by {
        assert(whole.subrange(at, at + e.len()) == head.subrange(at, at + e.len()));
    }
}

/// An entity that stands in a text stands, moved, in every text that ends
/// with it.
proof fn lemma_entity_moves(head: Seq<char>, tail: Seq<char>, at: int)
    requires
        entity_at(tail, at),
    ensures
        entity_at(head + tail, head.len() + at),
{
    let whole = head + tail;
    assert forall|e: Seq<char>| occurs_at(tail, e, at) implies occurs_at(
        whole,
        e,
        head.len() + at,
    ) by {
        assert(whole.subrange(head.len() + at, head.len() + at + e.len()) == tail.subrange(
            at,
            at + e.len(),
        ));
    }
}

/// Two attribute values in a row are an attribute value.
pub proof fn lemma_attribute_value_concat(head: Seq<char>, tail: Seq<char>)
    requires
        is_attribute_value(head),
        is_attribute_value(tail),
    ensures
        is_attribute_value(head + tail),
{
    let whole = head + tail;
    assert forall|i: int| 0 <= i < whole.len() implies !is_markup(#[trigger] whole[i]) && (
    whole[i] == '&' ==> entity_at(whole, i)) by {
        if i < head.len() {
            assert(whole[i] == head[i]);
            if head[i] == '&' {
                lemma_entity_stays(head, tail, i);
            }
        } else {
            let k = i - head.len();
            assert(whole[i] == tail[k]);
            if tail[k] == '&' {
                lemma_entity_moves(head, tail, k);
            }
        }
    }
}

/// Escaping goes through a text part by part: the escaped form of two texts
/// in a row is their escaped forms in a row.
pub proof fn lemma_escaped_concat(head: Seq<char>, tail: Seq<char>)
    ensures
        escaped(head + tail) == escaped(head) + escaped(tail),
    decreases tail.len(),
{
    if tail.len() == 0 {
        assert(head + tail == head);
        assert(escaped(head) + escaped(tail) == escaped(head));
    } else {
        let whole = head + tail;
        assert(whole.drop_last() == head + tail.drop_last());
        assert(whole.last() == tail.last());
        lemma_escaped_concat(head, tail.drop_last());
        assert(escaped(whole) == escaped(head) + escaped(tail.drop_last()) + escaped_char(
            tail.last(),
        ));
        assert(escaped(head) + escaped(tail.drop_last()) + escaped_char(tail.last()) == escaped(
            head,
        ) + (escaped(tail.drop_last()) + escaped_char(tail.last())));
    }
}

/// Whatever the text, its escaped form can stand between the quotes of an
/// XML attribute.
pub proof fn lemma_escaped_is_attribute_value(text: Seq<char>)
    ensures
        is_attribute_value(escaped(text)),
    decreases text.len(),
{
    if text.len() > 0 {
        lemma_escaped_is_attribute_value(text.drop_last());
        lemma_escaped_char(text.last());
        lemma_attribute_value_concat(escaped(text.drop_last()), escaped_char(text.last()));
    }
}

/// Escaping leaves a text without markup characters and ampersands as it is.
pub proof fn lemma_escaped_plain(text: Seq<char>)
    requires
        is_plain(text),
    ensures
        escaped(text) == text,
    decreases text.len(),
{
    if text.len() > 0 {
        lemma_escaped_plain(text.drop_last());
        lemma_escaped_char(text.last());
        assert(text.drop_last().push(text.last()) == text);
        assert(text.drop_last() + seq![text.last()] == text);
    } else {
        assert(text == Seq::<char>::empty());
    }
}

/// Each text of a list, escaped.
pub open spec fn escaped_parts(parts: Seq<Seq<char>>) -> Seq<Seq<char>> {
    parts.map_values(|part: Seq<char>| escaped(part))
}

/// The escaped form of texts in a row is their escaped forms in a row.
pub proof fn lemma_escaped_joined(parts: Seq<Seq<char>>)
    ensures
        escaped(joined(parts)) == joined(escaped_parts(parts)),
    decreases parts.len(),
{
    if parts.len() > 0 {
        lemma_escaped_joined(parts.drop_last());
        lemma_escaped_concat(joined(parts.drop_last()), parts.last());
        assert(escaped_parts(parts).drop_last() == escaped_parts(parts.drop_last()));
    }
}

/// The URI of a well-formed media file holds no markup character and no
/// ampersand, if the origin of its server holds none.
pub proof fn lemma_uri_is_plain(media: MediaFileView)
    requires
        media.wf(),
        is_plain(media.host_uri),
    ensures
        is_plain(media.uri()),
{
    reveal_strlit("/");
    let uri = media.uri();
    assert forall|i: int| 0 <= i < uri.len() implies is_plain_char(#[trigger] uri[i]) by {
        if i < media.host_uri.len() {
            assert(uri[i] == media.host_uri[i]);
        } else if i == media.host_uri.len() {
            assert(uri[i] == '/');
        } else {
            let k = i - media.host_uri.len() - 1;
            assert(uri[i] == media.file_uri[k]);
            assert(is_slug_char(media.file_uri[k]));
        }
    }
}

/// For a server without a subtitle the metadata is the empty text.
pub proof fn lemma_metadata_without_subtitle(server: MediaStreamingServerView)
    requires
        server.subtitle_file is None,
    ensures
        metadata_of(server) == Seq::<char>::empty(),
{
}

/// For a server with a subtitle the metadata can stand between the quotes
/// of an XML attribute, and the escaped subtitle URI stands in it five
/// times: once for each of its places among the parts, where the escaped
/// parts before that place end.
pub proof fn lemma_metadata_with_subtitle(server: MediaStreamingServerView, n: int)
    requires
        server.subtitle_file is Some,
        0 <= n < subtitle_uri_slots().len(),
    ensures
        is_attribute_value(metadata_of(server)),
        subtitle_uri_slots().len() == 5,
        ({
            let subtitle_uri = server.subtitle_uri()->0;
            let parts = escaped_parts(
                didl_parts(
                    server.video_uri(),
                    server.video_type(),
                    subtitle_uri,
                    subtitle_type_or_unknown(server.subtitle_type()),
                ),
            );
            let slot = subtitle_uri_slots()[n];
            &&& metadata_of(server) == joined(parts)
            &&& 0 <= slot < parts.len()
            &&& parts[slot] == escaped(subtitle_uri)
            &&& occurs_at(
                metadata_of(server),
                escaped(subtitle_uri),
                joined(parts.take(slot)).len() as int,
            )
        }),
{
    let subtitle_uri = server.subtitle_uri()->0;
    let plain = didl_parts(
        server.video_uri(),
        server.video_type(),
        subtitle_uri,
        subtitle_type_or_unknown(server.subtitle_type()),
    );
    let parts = escaped_parts(plain);
    let slot = subtitle_uri_slots()[n];
    lemma_escaped_is_attribute_value(joined(plain));
    lemma_escaped_joined(plain);
    assert(plain[slot] == subtitle_uri);
    lemma_joined_part_occurs(parts, slot);
}

/// Where the origin of the server holds no markup character and no
/// ampersand, the subtitle URI stands in the metadata as it is.
pub proof fn lemma_subtitle_uri_unescaped(server: MediaStreamingServerView)
    requires
        server.wf(),
        server.subtitle_file matches Some(subtitle) && is_plain(subtitle.host_uri),
    ensures
        escaped(server.subtitle_uri()->0) == server.subtitle_uri()->0,
{
    let subtitle = server.subtitle_file->0;
    lemma_uri_is_plain(subtitle);
    lemma_escaped_plain(subtitle.uri());
}

/// How far a state is from the beginning of a session.
pub open spec fn progress(state: PlaybackState) -> nat {
    match state {
        PlaybackState::Idle => 0,
        PlaybackState::ServerStarting => 1,
        PlaybackState::MetadataBuilt => 2,
        PlaybackState::UriSet => 3,
        PlaybackState::Playing => 4,
        PlaybackState::Cancelled => 5,
    }
}

/// Every step takes a session forward. So no state comes twice in one
/// session: the server is started once and before the render is told
/// anything, `SetAVTransportURI` is sent once, `Play` once and only after
/// it, and a session is over after five steps at most.
pub proof fn lemma_session_advances(state: PlaybackState, event: PlaybackEvent)
    requires
        awaited(state, event),
    ensures
        progress(next_state(state, event)) > progress(state),
        next_state(state, event) != PlaybackState::Cancelled ==> progress(
            next_state(state, event),
        ) == progress(state) + 1,
{
}

/// A session goes on to the next of its states exactly where the awaited
/// event brings no error and the server has not ended; else it is over.
pub proof fn lemma_session_cancels(state: PlaybackState, event: PlaybackEvent)
    requires
        awaited(state, event),
    ensures
        next_state(state, event) == PlaybackState::Cancelled <==> (event matches PlaybackEvent::Answered(Err(_)))
            || event is ServerStopped,
{
}

} // verus!
