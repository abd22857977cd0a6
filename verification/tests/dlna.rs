use crab_dlna::dlna::{
    didl_fragment_text, set_uri_payload, subtitle_metadata, PAYLOAD_PLAY,
    STREAMING_SERVER_WAIT_SECS,
};
use crab_dlna::{
    play, Device, Error, LocalFile, MediaStreamingServer, PlaybackAction, PlaybackEvent,
    PlaybackState, Render, Service,
};

const FRAGMENT: &str = "\n                    <DIDL-Lite xmlns=\"urn:schemas-upnp-org:metadata-1-0/DIDL-Lite/\"\n                               xmlns:dc=\"http://purl.org/dc/elements/1.1/\" \n                               xmlns:upnp=\"urn:schemas-upnp-org:metadata-1-0/upnp/\" \n                               xmlns:dlna=\"urn:schemas-dlna-org:metadata-1-0/\" \n                               xmlns:sec=\"http://www.sec.co.kr/\" \n                               xmlns:xbmc=\"urn:schemas-xbmc-org:metadata-1-0/\">\n                        <item id=\"0\" parentID=\"-1\" restricted=\"1\">\n                            <dc:title>nano-dlna Video</dc:title>\n                            <res protocolInfo=\"http-get:*:video/mp4:\" xmlns:pv=\"http://www.pv.com/pvns/\" pv:subtitleFileUri=\"http://127.0.0.1:9000/films.movie.srt\" pv:subtitleFileType=\"srt\">http://127.0.0.1:9000/films.movie.mp4</res>\n                            <res protocolInfo=\"http-get:*:text/srt:*\">http://127.0.0.1:9000/films.movie.srt</res>\n                            <res protocolInfo=\"http-get:*:smi/caption:*\">http://127.0.0.1:9000/films.movie.srt</res>\n                            <sec:CaptionInfoEx sec:type=\"srt\">http://127.0.0.1:9000/films.movie.srt</sec:CaptionInfoEx>\n                            <sec:CaptionInfo sec:type=\"srt\">http://127.0.0.1:9000/films.movie.srt</sec:CaptionInfo>\n                            <upnp:class>object.item.videoItem.movie</upnp:class>\n                        </item>\n                    </DIDL-Lite>\n                    ";

const METADATA: &str = "&#xA;                    &lt;DIDL-Lite xmlns=&quot;urn:schemas-upnp-org:metadata-1-0/DIDL-Lite/&quot;&#xA;                               xmlns:dc=&quot;http://purl.org/dc/elements/1.1/&quot; &#xA;                               xmlns:upnp=&quot;urn:schemas-upnp-org:metadata-1-0/upnp/&quot; &#xA;                               xmlns:dlna=&quot;urn:schemas-dlna-org:metadata-1-0/&quot; &#xA;                               xmlns:sec=&quot;http://www.sec.co.kr/&quot; &#xA;                               xmlns:xbmc=&quot;urn:schemas-xbmc-org:metadata-1-0/&quot;&gt;&#xA;                        &lt;item id=&quot;0&quot; parentID=&quot;-1&quot; restricted=&quot;1&quot;&gt;&#xA;                            &lt;dc:title&gt;nano-dlna Video&lt;/dc:title&gt;&#xA;                            &lt;res protocolInfo=&quot;http-get:*:video/mp4:&quot; xmlns:pv=&quot;http://www.pv.com/pvns/&quot; pv:subtitleFileUri=&quot;http://127.0.0.1:9000/films.movie.srt&quot; pv:subtitleFileType=&quot;srt&quot;&gt;http://127.0.0.1:9000/films.movie.mp4&lt;/res&gt;&#xA;                            &lt;res protocolInfo=&quot;http-get:*:text/srt:*&quot;&gt;http://127.0.0.1:9000/films.movie.srt&lt;/res&gt;&#xA;                            &lt;res protocolInfo=&quot;http-get:*:smi/caption:*&quot;&gt;http://127.0.0.1:9000/films.movie.srt&lt;/res&gt;&#xA;                            &lt;sec:CaptionInfoEx sec:type=&quot;srt&quot;&gt;http://127.0.0.1:9000/films.movie.srt&lt;/sec:CaptionInfoEx&gt;&#xA;                            &lt;sec:CaptionInfo sec:type=&quot;srt&quot;&gt;http://127.0.0.1:9000/films.movie.srt&lt;/sec:CaptionInfo&gt;&#xA;                            &lt;upnp:class&gt;object.item.videoItem.movie&lt;/upnp:class&gt;&#xA;                        &lt;/item&gt;&#xA;                    &lt;/DIDL-Lite&gt;&#xA;                    ";

fn file(path: &str) -> LocalFile {
    LocalFile { path: path.to_string(), exists: true }
}

fn server(video: &str, subtitle: Option<&str>) -> MediaStreamingServer {
    MediaStreamingServer::new(
        &file(video),
        &subtitle.map(file),
        &"127.0.0.1".to_string(),
        &Some("127.0.0.1:9000".to_string()),
    )
    .unwrap()
}

fn render() -> Render {
    let services =
        vec![Service { service_type: "urn:schemas-upnp-org:service:AVTransport:1".to_string() }];
    let device = Device::new(
        "urn:schemas-upnp-org:device:MediaRenderer:1",
        "Kodi",
        "http://192.168.1.20:1234/desc.xml",
        services,
    )
    .unwrap();
    Render::from_device(device).unwrap()
}

fn count(hay: &str, needle: &str) -> usize {
    hay.matches(needle).count()
}

#[test]
fn metadata_is_empty_without_subtitle() {
    assert_eq!(subtitle_metadata(&server("/films/Movie.mp4", None)), "");
}

#[test]
fn fragment_is_the_template_filled_in() {
    let fragment = didl_fragment_text(
        "http://127.0.0.1:9000/films.movie.mp4",
        "mp4",
        "http://127.0.0.1:9000/films.movie.srt",
        "srt",
    );
    assert_eq!(fragment, FRAGMENT);
}

#[test]
fn metadata_is_the_escaped_fragment() {
    let metadata = subtitle_metadata(&server("/films/Movie.mp4", Some("/films/Movie.srt")));
    assert_eq!(metadata, METADATA);
}

#[test]
fn metadata_holds_the_subtitle_uri_five_times() {
    let metadata = subtitle_metadata(&server("/films/Movie.mp4", Some("/films/Movie.srt")));
    assert_eq!(count(&metadata, "http://127.0.0.1:9000/films.movie.srt"), 5);
    assert_eq!(
        count(&metadata, "pv:subtitleFileUri=&quot;http://127.0.0.1:9000/films.movie.srt&quot;"),
        1
    );
    assert_eq!(
        count(
            &metadata,
            "&lt;sec:CaptionInfoEx sec:type=&quot;srt&quot;&gt;http://127.0.0.1:9000/films.movie.srt&lt;/sec:CaptionInfoEx&gt;"
        ),
        1
    );
    assert_eq!(
        count(
            &metadata,
            "&lt;sec:CaptionInfo sec:type=&quot;srt&quot;&gt;http://127.0.0.1:9000/films.movie.srt&lt;/sec:CaptionInfo&gt;"
        ),
        1
    );
    assert_eq!(count(&metadata, "http://127.0.0.1:9000/films.movie.mp4"), 1);
}

#[test]
fn metadata_can_stand_in_an_attribute() {
    let metadata = subtitle_metadata(&server("/films/Movie.mp4", Some("/films/Movie.srt")));
    for c in ['<', '>', '"', '\'', '\n', '\r'] {
        assert!(!metadata.contains(c), "{:?}", c);
    }
    let entities = ["&lt;", "&gt;", "&quot;", "&apos;", "&amp;", "&#xA;", "&#xD;"];
    for (at, _) in metadata.match_indices('&') {
        assert!(entities.iter().any(|e| metadata[at..].starts_with(e)));
    }
}

#[test]
fn metadata_escapes_what_the_address_holds() {
    let server = MediaStreamingServer::new(
        &file("a.mp4"),
        &Some(file("a.srt")),
        &"h".to_string(),
        &Some("a&b<c>\"d'".to_string()),
    )
    .unwrap();
    let metadata = subtitle_metadata(&server);
    assert_eq!(count(&metadata, "http://a&amp;b&lt;c&gt;&quot;d&apos;/a.srt"), 5);
    assert_eq!(count(&metadata, "http://a&amp;b&lt;c&gt;&quot;d&apos;/a.mp4"), 1);
}

#[test]
fn set_uri_payload_holds_uri_and_metadata() {
    assert_eq!(
        set_uri_payload("http://127.0.0.1:9000/video.mp4", ""),
        "\n        <InstanceID>0</InstanceID>\n        <CurrentURI>http://127.0.0.1:9000/video.mp4</CurrentURI>\n        <CurrentURIMetaData></CurrentURIMetaData>\n        "
    );
    assert_eq!(
        set_uri_payload("U", "M"),
        "\n        <InstanceID>0</InstanceID>\n        <CurrentURI>U</CurrentURI>\n        <CurrentURIMetaData>M</CurrentURIMetaData>\n        "
    );
}

#[test]
fn play_payload_is_instance_and_speed() {
    assert_eq!(PAYLOAD_PLAY, "\n    <InstanceID>0</InstanceID>\n    <Speed>1</Speed>\n");
    assert_eq!(STREAMING_SERVER_WAIT_SECS, 5);
}

fn invoked(step: Option<(PlaybackState, PlaybackAction)>) -> (PlaybackState, String, String, String) {
    match step {
        Some((state, PlaybackAction::Invoke { url, action, payload })) => {
            (state, url, action, payload)
        }
        other => panic!("{:?}", other),
    }
}

fn finished(step: Option<(PlaybackState, PlaybackAction)>) -> (PlaybackState, Result<(), Error>) {
    match step {
        Some((state, PlaybackAction::Finish(result))) => (state, result),
        other => panic!("{:?}", other),
    }
}

#[test]
fn session_starts_the_server_first() {
    let step = play(PlaybackState::Idle, PlaybackEvent::Start, &render(), &server("v.mp4", None));
    match step {
        Some((PlaybackState::ServerStarting, PlaybackAction::StartServer { grace_secs })) => {
            assert_eq!(grace_secs, 5)
        }
        other => panic!("{:?}", other),
    }
}

#[test]
fn session_sends_the_uri_once_the_server_is_up() {
    let server = server("/films/Movie.mp4", Some("/films/Movie.srt"));
    let step = play(PlaybackState::ServerStarting, PlaybackEvent::ServerStarted, &render(), &server);
    let (state, url, action, payload) = invoked(step);
    assert_eq!(state, PlaybackState::MetadataBuilt);
    assert_eq!(url, "http://192.168.1.20:1234/desc.xml");
    assert_eq!(action, "SetAVTransportURI");
    assert_eq!(
        payload,
        format!(
            "\n        <InstanceID>0</InstanceID>\n        <CurrentURI>http://127.0.0.1:9000/films.movie.mp4</CurrentURI>\n        <CurrentURIMetaData>{}</CurrentURIMetaData>\n        ",
            METADATA
        )
    );
}

#[test]
fn session_without_subtitle_sends_empty_metadata() {
    let step = play(
        PlaybackState::ServerStarting,
        PlaybackEvent::ServerStarted,
        &render(),
        &server("video.mp4", None),
    );
    let (_, _, _, payload) = invoked(step);
    assert_eq!(
        payload,
        "\n        <InstanceID>0</InstanceID>\n        <CurrentURI>http://127.0.0.1:9000/video.mp4</CurrentURI>\n        <CurrentURIMetaData></CurrentURIMetaData>\n        "
    );
}

#[test]
fn session_plays_once_the_uri_is_set() {
    let step = play(
        PlaybackState::MetadataBuilt,
        PlaybackEvent::Answered(Ok(())),
        &render(),
        &server("v.mp4", None),
    );
    let (state, url, action, payload) = invoked(step);
    assert_eq!(state, PlaybackState::UriSet);
    assert_eq!(url, "http://192.168.1.20:1234/desc.xml");
    assert_eq!(action, "Play");
    assert_eq!(payload, "\n    <InstanceID>0</InstanceID>\n    <Speed>1</Speed>\n");
}

#[test]
fn session_ends_where_the_uri_is_refused() {
    let step = play(
        PlaybackState::MetadataBuilt,
        PlaybackEvent::Answered(Err("500".to_string())),
        &render(),
        &server("v.mp4", None),
    );
    let (state, result) = finished(step);
    assert_eq!(state, PlaybackState::Cancelled);
    assert_eq!(result, Err(Error::DLNASetAVTransportURIError("500".to_string())));
}

#[test]
fn session_waits_for_the_server_while_playing() {
    let step = play(
        PlaybackState::UriSet,
        PlaybackEvent::Answered(Ok(())),
        &render(),
        &server("v.mp4", None),
    );
    assert!(matches!(step, Some((PlaybackState::Playing, PlaybackAction::AwaitServer))));
}

#[test]
fn session_ends_where_play_is_refused() {
    let step = play(
        PlaybackState::UriSet,
        PlaybackEvent::Answered(Err("701".to_string())),
        &render(),
        &server("v.mp4", None),
    );
    let (state, result) = finished(step);
    assert_eq!(state, PlaybackState::Cancelled);
    assert_eq!(result, Err(Error::DLNAPlayError("701".to_string())));
}

#[test]
fn session_ends_with_the_server() {
    let step = play(
        PlaybackState::Playing,
        PlaybackEvent::ServerStopped(Err("panicked".to_string())),
        &render(),
        &server("v.mp4", None),
    );
    let (state, result) = finished(step);
    assert_eq!(state, PlaybackState::Cancelled);
    assert_eq!(result, Err(Error::DLNAStreamingError("panicked".to_string())));

    let step = play(
        PlaybackState::Playing,
        PlaybackEvent::ServerStopped(Ok(())),
        &render(),
        &server("v.mp4", None),
    );
    let (state, result) = finished(step);
    assert_eq!(state, PlaybackState::Cancelled);
    assert_eq!(result, Ok(()));
}

#[test]
fn session_ignores_what_it_does_not_wait_for() {
    let states = [
        PlaybackState::Idle,
        PlaybackState::ServerStarting,
        PlaybackState::MetadataBuilt,
        PlaybackState::UriSet,
        PlaybackState::Playing,
        PlaybackState::Cancelled,
    ];
    let render = render();
    let server = server("v.mp4", None);
    for state in states {
        if state != PlaybackState::Idle {
            assert!(play(state, PlaybackEvent::Start, &render, &server).is_none());
        }
        if state != PlaybackState::ServerStarting {
            assert!(play(state, PlaybackEvent::ServerStarted, &render, &server).is_none());
        }
        if state != PlaybackState::MetadataBuilt && state != PlaybackState::UriSet {
            assert!(play(state, PlaybackEvent::Answered(Ok(())), &render, &server).is_none());
        }
        if state != PlaybackState::Playing {
            assert!(play(state, PlaybackEvent::ServerStopped(Ok(())), &render, &server).is_none());
        }
    }
}

#[test]
fn session_runs_from_start_to_playing() {
    let render = render();
    let server = server("v.mp4", None);
    let mut state = PlaybackState::Idle;
    let mut event = PlaybackEvent::Start;
    let mut actions = Vec::new();
    loop {
        let (next, action) = play(state, event, &render, &server).unwrap();
        state = next;
        event = match &action {
            PlaybackAction::StartServer { .. } => PlaybackEvent::ServerStarted,
            PlaybackAction::Invoke { .. } => PlaybackEvent::Answered(Ok(())),
            PlaybackAction::AwaitServer => PlaybackEvent::ServerStopped(Err("gone".to_string())),
            PlaybackAction::Finish(_) => {
                actions.push(action);
                break;
            }
        };
        actions.push(action);
    }
    assert_eq!(state, PlaybackState::Cancelled);
    assert_eq!(actions.len(), 5);
    assert!(matches!(actions[0], PlaybackAction::StartServer { grace_secs: 5 }));
    assert!(matches!(&actions[1], PlaybackAction::Invoke { action, .. } if action == "SetAVTransportURI"));
    assert!(matches!(&actions[2], PlaybackAction::Invoke { action, .. } if action == "Play"));
    assert!(matches!(actions[3], PlaybackAction::AwaitServer));
    assert!(matches!(&actions[4], PlaybackAction::Finish(Err(Error::DLNAStreamingError(e))) if e == "gone"));
}
