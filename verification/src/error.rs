//! The errors of the library, and how each reads.

use crate::devices::RenderSpec;
use crate::text::{decimal, decimal_string};
use vstd::prelude::*;
use vstd::string::*;

verus! {

/// What can go wrong between looking for a render and playing on it.
///
/// Where a failure comes from the network or from the machine, the variant
/// holds the underlying error as the text it reads.
#[derive(Debug, PartialEq, Eq)]
pub enum Error {
    /// The search for devices could not be made.
    DevicesDiscoverFail(String),
    /// The next answer to a search could not be read.
    DevicesNextDeviceError(String),
    /// The location is no URL.
    DevicesUrlParseError(String),
    /// No device could be made from what the location holds.
    DevicesCreateError(String, String),
    /// No render answers the description.
    DevicesRenderNotFound(RenderSpec),
    /// Host and port together are no socket address.
    StreamingHostParseError(String),
    /// A media file is not on disk.
    StreamingFileDoesNotExist(String),
    /// The render could not be reached.
    StreamingRemoteRenderConnectFail(String, String),
    /// The address of this machine could not be found.
    StreamingIdentifyLocalAddressError(String),
    /// The render refused the media URI, or could not be told.
    DLNASetAVTransportURIError(String),
    /// The render refused to play, or could not be told.
    DLNAPlayError(String),
    /// The task that serves the media files ended badly.
    DLNAStreamingError(String),
}

impl Error {
    /// The message of the error, as a reader sees it.
    pub open spec fn message(self) -> Seq<char> {
        match self {
            Error::DevicesDiscoverFail(err) => "Failed to discover devices: "@ + err@,
            Error::DevicesNextDeviceError(err) => "Failed to get next device: "@ + err@,
            Error::DevicesUrlParseError(url) => "Failed to parse URL '"@ + url@ + "'"@,
            Error::DevicesCreateError(url, err) => "Failed to parse and create device from '"@
                + url@ + "': "@ + err@,
            Error::DevicesRenderNotFound(render_spec) => match render_spec {
                RenderSpec::Location(device_url) => "No render found at '"@ + device_url@ + "'"@,
                RenderSpec::Query(timeout, device_query) => "No render found withing "@ + decimal(
                    timeout as nat,
                ) + " seconds with query '"@ + device_query@ + "'"@,
                RenderSpec::First(timeout) => "No render found within "@ + decimal(timeout as nat)
                    + " seconds"@,
            },
            Error::StreamingHostParseError(addr) => "Failed to parse host address '"@ + addr@
                + "'"@,
            Error::StreamingFileDoesNotExist(file) => "File '"@ + file@ + "' does not exist"@,
            Error::StreamingRemoteRenderConnectFail(host, err) =>
                "Failed to connect to remote render '"@ + host@ + "': "@ + err@,
            Error::StreamingIdentifyLocalAddressError(err) => "Failed to identify local address: "@
                + err@,
            Error::DLNASetAVTransportURIError(err) => "Failed to set AVTransportURI: "@ + err@,
            Error::DLNAPlayError(err) => "Failed to Play: "@ + err@,
            Error::DLNAStreamingError(err) => "Failed to stream: "@ + err@,
        }
    }

    /// The text of the underlying error, for the variants that wrap one.
    pub open spec fn cause(self) -> Option<Seq<char>> {
        match self {
            Error::DevicesDiscoverFail(err) => Some(err@),
            Error::DevicesNextDeviceError(err) => Some(err@),
            Error::DevicesCreateError(_, err) => Some(err@),
            Error::StreamingRemoteRenderConnectFail(_, err) => Some(err@),
            Error::StreamingIdentifyLocalAddressError(err) => Some(err@),
            Error::DLNASetAVTransportURIError(err) => Some(err@),
            Error::DLNAPlayError(err) => Some(err@),
            Error::DLNAStreamingError(err) => Some(err@),
            _ => None,
        }
    }

    /// Renders the message of the error.
    pub fn to_string(&self) -> (text: String)
        ensures
            text@ == self.message(),
    {
        match self {
            Error::DevicesDiscoverFail(err) => prefixed("Failed to discover devices: ", err),
            Error::DevicesNextDeviceError(err) => prefixed("Failed to get next device: ", err),
            Error::DevicesUrlParseError(url) => quoted("Failed to parse URL '", url, "'"),
            Error::DevicesCreateError(url, err) => {
                let mut text = quoted("Failed to parse and create device from '", url, "': ");
                text.append(err.as_str());
                assert(text@ =~= self.message());
                text
            },
            Error::DevicesRenderNotFound(render_spec) => match render_spec {
                RenderSpec::Location(device_url) => quoted("No render found at '", device_url, "'"),
                RenderSpec::Query(timeout, device_query) => {
                    let seconds = decimal_string(*timeout);
                    let mut text = quoted(
                        "No render found withing ",
                        &seconds,
                        " seconds with query '",
                    );
                    text.append(device_query.as_str());
                    text.append("'");
                    assert(text@ =~= self.message());
                    text
                },
                RenderSpec::First(timeout) => {
                    let seconds = decimal_string(*timeout);
                    quoted("No render found within ", &seconds, " seconds")
                },
            },
            Error::StreamingHostParseError(addr) => quoted(
                "Failed to parse host address '",
                addr,
                "'",
            ),
            Error::StreamingFileDoesNotExist(file) => quoted("File '", file, "' does not exist"),
            Error::StreamingRemoteRenderConnectFail(host, err) => {
                let mut text = quoted("Failed to connect to remote render '", host, "': ");
                text.append(err.as_str());
                assert(text@ =~= self.message());
                text
            },
            Error::StreamingIdentifyLocalAddressError(err) => prefixed(
                "Failed to identify local address: ",
                err,
            ),
            Error::DLNASetAVTransportURIError(err) => prefixed(
                "Failed to set AVTransportURI: ",
                err,
            ),
            Error::DLNAPlayError(err) => prefixed("Failed to Play: ", err),
            Error::DLNAStreamingError(err) => prefixed("Failed to stream: ", err),
        }
    }

    /// The underlying error, where there is one.
    pub fn source(&self) -> (inner: Option<&String>)
        ensures
            inner is Some <==> self.cause() is Some,
            inner matches Some(err) ==> self.cause() == Some(err@),
    {
        match self {
            Error::DevicesDiscoverFail(err) => Some(err),
            Error::DevicesNextDeviceError(err) => Some(err),
            Error::DevicesCreateError(_, err) => Some(err),
            Error::StreamingRemoteRenderConnectFail(_, err) => Some(err),
            Error::StreamingIdentifyLocalAddressError(err) => Some(err),
            Error::DLNASetAVTransportURIError(err) => Some(err),
            Error::DLNAPlayError(err) => Some(err),
            Error::DLNAStreamingError(err) => Some(err),
            _ => None,
        }
    }
}

/// `head` followed by `tail`.
fn prefixed(head: &str, tail: &String) -> (text: String)
    ensures
        text@ == head@ + tail@,
{
    let mut text = String::from_str(head);
    text.append(tail.as_str());
    text
}

/// `head`, `middle` and `tail` in a row.
fn quoted(head: &str, middle: &String, tail: &str) -> (text: String)
    ensures
        text@ == head@ + middle@ + tail@,
{
    let mut text = String::from_str(head);
    text.append(middle.as_str());
    text.append(tail);
    text
}

/// What the functions of the library return.
pub type Result<T, E = Error> = core::result::Result<T, E>;

} // verus!
