//! Render devices: what a device on the network tells about itself, which of
//! them can play media, and how one of them is chosen.

use crate::error::{Error, Result};
use crate::text::{contains, is_substring, occurs_at};
use vstd::prelude::*;
use vstd::string::*;

verus! {

/// The service type of the AVTransport service, which a device must offer to
/// be a render.
pub const AV_TRANSPORT: &'static str = "urn:schemas-upnp-org:service:AVTransport:1";

/// What `http::Uri` makes of a text: nothing where the text is no URI, and
/// else the host of the URI, if it has one.
pub uninterp spec fn uri_host_of(text: Seq<char>) -> Option<Option<Seq<char>>>;

/// The text is a URI.
pub open spec fn is_uri(text: Seq<char>) -> bool {
    uri_host_of(text) is Some
}

/// The text is a URI that names a host.
pub open spec fn has_host(text: Seq<char>) -> bool {
    uri_host_of(text) matches Some(Some(_))
}

/// Parses the text with `http::Uri::from_str` and asks the URI for its host
/// with `http::Uri::host`. The outcome is a function of the text alone.
#[verifier::external_body]
fn uri_host(text: &str) -> (parsed: Option<Option<String>>)
    ensures
        match parsed {
            Some(Some(host)) => uri_host_of(text@) == Some(Some(host@)),
            Some(None) => uri_host_of(text@) == Some(None::<Seq<char>>),
            None => uri_host_of(text@) is None,
        },
{
    match text.parse::<http::Uri>() {
        Ok(uri) => match uri.host() {
            Some(host) => Some(Some(host.to_string())),
            None => Some(None),
        },
        Err(_) => None,
    }
}

/// How the render to play on is named by the user.
#[derive(Debug, PartialEq, Eq)]
pub enum RenderSpec {
    /// The render at this location URL.
    Location(String),
    /// The first render found within so many seconds whose description
    /// contains the query.
    Query(u64, String),
    /// The first render found within so many seconds.
    First(u64),
}

impl Clone for RenderSpec {
    fn clone(&self) -> (copy: Self)
        ensures
            copy == *self,
    {
        match self {
            RenderSpec::Location(url) => RenderSpec::Location(url.clone()),
            RenderSpec::Query(timeout, query) => RenderSpec::Query(*timeout, query.clone()),
            RenderSpec::First(timeout) => RenderSpec::First(*timeout),
        }
    }
}

/// What a service is, as plain values.
pub struct ServiceView {
    /// The type of the service, as a URN.
    pub service_type: Seq<char>,
}

/// A service that a device offers.
#[derive(Debug, PartialEq, Eq)]
pub struct Service {
    /// The type of the service, as a URN.
    pub service_type: String,
}

impl View for Service {
    type V = ServiceView;

    open spec fn view(&self) -> ServiceView {
        ServiceView { service_type: self.service_type@ }
    }
}

impl Clone for Service {
    fn clone(&self) -> (copy: Self)
        ensures
            copy@ == self@,
    {
        Service { service_type: self.service_type.clone() }
    }
}

/// The services of a list, as plain values.
pub open spec fn services_view(services: Seq<Service>) -> Seq<ServiceView> {
    services.map_values(|service: Service| service@)
}

/// What a device is, as plain values.
pub struct DeviceView {
    /// The type of the device, as a URN.
    pub device_type: Seq<char>,
    /// The name that the device shows to people.
    pub friendly_name: Seq<char>,
    /// The URL of the description of the device.
    pub url: Seq<char>,
    /// The host that the URL names.
    pub host: Seq<char>,
    /// The services that the device and the devices inside it offer, in the
    /// order of the description.
    pub services: Seq<ServiceView>,
}

/// The service of type `service_type` that stands at `at` is the first of
/// that type.
pub open spec fn is_first_of_type(
    services: Seq<ServiceView>,
    service_type: Seq<char>,
    at: int,
) -> bool {
    &&& 0 <= at < services.len()
    &&& services[at].service_type == service_type
    &&& forall|j: int| 0 <= j < at ==> (#[trigger] services[j]).service_type != service_type
}

/// The first service of a type among the services, if there is one.
pub open spec fn find_service(services: Seq<ServiceView>, service_type: Seq<char>) -> Option<
    ServiceView,
> {
    if exists|at: int| is_first_of_type(services, service_type, at) {
        Some(services[choose|at: int| is_first_of_type(services, service_type, at)])
    } else {
        None
    }
}

impl DeviceView {
    /// The host is the host that the URL names.
    pub open spec fn wf(self) -> bool {
        uri_host_of(self.url) == Some(Some(self.host))
    }

    /// The device offers the AVTransport service.
    pub open spec fn is_render(self) -> bool {
        exists|at: int| 0 <= at < self.services.len() && (#[trigger] self.services[at]).service_type
            == AV_TRANSPORT@
    }
}

/// What a render is, as plain values.
pub struct RenderView {
    /// The device.
    pub device: DeviceView,
    /// Its AVTransport service.
    pub service: ServiceView,
}

impl RenderView {
    /// The device is well formed, and the service is its first service of
    /// the AVTransport type.
    pub open spec fn wf(self) -> bool {
        &&& self.device.wf()
        &&& render_of(self.device) == Some(self)
    }

    /// How the render reads: device type, service type, name and URL.
    pub open spec fn text(self) -> Seq<char> {
        "["@ + self.device.device_type + "]["@ + self.service.service_type + "] "@
            + self.device.friendly_name + " @ "@ + self.device.url
    }
}

/// The render that a device makes: the device with its first AVTransport
/// service, and none where it offers no such service.
pub open spec fn render_of(device: DeviceView) -> Option<RenderView> {
    match find_service(device.services, AV_TRANSPORT@) {
        Some(service) => Some(RenderView { device, service }),
        None => None,
    }
}

/// A device found on the network, as it describes itself.
#[derive(Debug)]
pub struct Device {
    device_type: String,
    friendly_name: String,
    url: String,
    host: String,
    services: Vec<Service>,
}

impl View for Device {
    type V = DeviceView;

    closed spec fn view(&self) -> DeviceView {
        DeviceView {
            device_type: self.device_type@,
            friendly_name: self.friendly_name@,
            url: self.url@,
            host: self.host@,
            services: services_view(self.services@),
        }
    }
}

/// Copies a list of services.
fn clone_services(services: &Vec<Service>) -> (copy: Vec<Service>)
    ensures
        services_view(copy@) == services_view(services@),
{
    let mut copy: Vec<Service> = Vec::new();
    let mut i: usize = 0;
    while i < services.len()
        invariant
            i <= services.len(),
            copy.len() == i,
            forall|j: int| 0 <= j < i ==> copy@[j]@ == services@[j]@,
        decreases services.len() - i,
    {
        copy.push(services[i].clone());
        i += 1;
    }
    assert(services_view(copy@) =~= services_view(services@));
    copy
}

impl Clone for Device {
    fn clone(&self) -> (copy: Self)
        ensures
            copy@ == self@,
    {
        proof {
            use_type_invariant(self);
        }
        Device {
            device_type: self.device_type.clone(),
            friendly_name: self.friendly_name.clone(),
            url: self.url.clone(),
            host: self.host.clone(),
            services: clone_services(&self.services),
        }
    }
}

impl Device {
    #[verifier::type_invariant]
    spec fn inv(self) -> bool {
        self@.wf()
    }

    /// Describes a device. The URL must be a URI that names a host: with
    /// any other there is no device.
    pub fn new(device_type: &str, friendly_name: &str, url: &str, services: Vec<Service>) -> (made:
        Option<Device>)
        ensures
            made is Some <==> has_host(url@),
            made matches Some(device) ==> device@.wf() && device@ == (DeviceView {
                device_type: device_type@,
                friendly_name: friendly_name@,
                url: url@,
                host: device@.host,
                services: services_view(services@),
            }),
    {
        match uri_host(url) {
            Some(Some(host)) => Some(
                Device::with_host(device_type, friendly_name, url, host, services),
            ),
            _ => None,
        }
    }

    /// Describes a device whose URL is known to name the given host.
    pub fn with_host(
        device_type: &str,
        friendly_name: &str,
        url: &str,
        host: String,
        services: Vec<Service>,
    ) -> (device: Device)
        requires
            uri_host_of(url@) == Some(Some(host@)),
        ensures
            device@.wf(),
            device@ == (DeviceView {
                device_type: device_type@,
                friendly_name: friendly_name@,
                url: url@,
                host: host@,
                services: services_view(services@),
            }),
    {
        Device {
            device_type: String::from_str(device_type),
            friendly_name: String::from_str(friendly_name),
            url: String::from_str(url),
            host,
            services,
        }
    }

    /// The type of the device.
    pub fn device_type(&self) -> (device_type: &String)
        ensures
            device_type@ == self@.device_type,
    {
        &self.device_type
    }

    /// The name that the device shows to people.
    pub fn friendly_name(&self) -> (name: &String)
        ensures
            name@ == self@.friendly_name,
    {
        &self.friendly_name
    }

    /// The URL of the description of the device: a URI that names a host.
    pub fn url(&self) -> (url: &String)
        ensures
            url@ == self@.url,
            has_host(url@),
    {
        proof {
            use_type_invariant(self);
        }
        &self.url
    }

    /// The host that the URL of the device names.
    pub fn host(&self) -> (host: &String)
        ensures
            host@ == self@.host,
            uri_host_of(self@.url) == Some(Some(host@)),
    {
        proof {
            use_type_invariant(self);
        }
        &self.host
    }

    /// The first service of the given type that the device offers.
    pub fn find_service(&self, service_type: &str) -> (found: Option<&Service>)
        ensures
            found is Some <==> find_service(self@.services, service_type@) is Some,
            found matches Some(service) ==> find_service(self@.services, service_type@) == Some(
                service@,
            ),
    {
        let wanted = String::from_str(service_type);
        let mut i: usize = 0;
        while i < self.services.len()
            invariant
                i <= self.services.len(),
                wanted@ == service_type@,
                forall|j: int|
                    0 <= j < i ==> (#[trigger] self@.services[j]).service_type != service_type@,
            decreases self.services.len() - i,
        {
            assert(self@.services[i as int] == self.services@[i as int]@);
            if self.services[i].service_type == wanted {
                proof {
                    assert(is_first_of_type(self@.services, service_type@, i as int));
                    let at = choose|at: int| is_first_of_type(self@.services, service_type@, at);
                    assert(at == i);
                }
                return Some(&self.services[i]);
            }
            i += 1;
        }
        assert forall|at: int| !is_first_of_type(self@.services, service_type@, at) by {
            if 0 <= at < self@.services.len() {
                assert(self@.services[at].service_type != service_type@);
            }
        }
        None
    }
}

/// A device that offers the AVTransport service, with that service.
#[derive(Debug)]
pub struct Render {
    device: Device,
    service: Service,
}

impl View for Render {
    type V = RenderView;

    closed spec fn view(&self) -> RenderView {
        RenderView { device: self.device@, service: self.service@ }
    }
}

impl Clone for Render {
    fn clone(&self) -> (copy: Self)
        ensures
            copy@ == self@,
    {
        proof {
            use_type_invariant(self);
        }
        Render { device: self.device.clone(), service: self.service.clone() }
    }
}

/// One answer to a search: the device that answered, or the text of the
/// error that the answer ended in.
pub open spec fn answer_view(answer: core::result::Result<Device, String>) -> Option<DeviceView> {
    match answer {
        Ok(device) => Some(device@),
        Err(_) => None,
    }
}

/// The answers to a search, as plain values.
pub open spec fn answers_view(answers: Seq<core::result::Result<Device, String>>) -> Seq<
    Option<DeviceView>,
> {
    answers.map_values(|answer: core::result::Result<Device, String>| answer_view(answer))
}

/// The renders among the answers to a search, in the order of the answers:
/// one for each device that offers the AVTransport service. Answers that
/// ended in an error, and devices without the service, leave no trace.
pub open spec fn discovered(answers: Seq<Option<DeviceView>>) -> Seq<RenderView>
    decreases answers.len(),
{
    if answers.len() == 0 {
        Seq::empty()
    } else {
        let before = discovered(answers.drop_last());
        match answers.last() {
            Some(device) => match render_of(device) {
                Some(render) => before.push(render),
                None => before,
            },
            None => before,
        }
    }
}

/// The render at `at` is the first whose description contains the query.
pub open spec fn is_first_match(renders: Seq<RenderView>, query: Seq<char>, at: int) -> bool {
    &&& 0 <= at < renders.len()
    &&& is_substring(renders[at].text(), query)
    &&& forall|j: int| 0 <= j < at ==> !is_substring((#[trigger] renders[j]).text(), query)
}

/// The first render whose description contains the query, if there is one.
pub open spec fn first_match(renders: Seq<RenderView>, query: Seq<char>) -> Option<RenderView> {
    if exists|at: int| is_first_match(renders, query, at) {
        Some(renders[choose|at: int| is_first_match(renders, query, at)])
    } else {
        None
    }
}

/// The first render, if there is one.
pub open spec fn first_render(renders: Seq<RenderView>) -> Option<RenderView> {
    if renders.len() > 0 {
        Some(renders[0])
    } else {
        None
    }
}

/// The renders of a list, as plain values.
pub open spec fn renders_view(renders: Seq<Render>) -> Seq<RenderView> {
    renders.map_values(|render: Render| render@)
}

/// What must be asked of the network to find the render of a description.
#[derive(Debug, PartialEq, Eq)]
pub enum RenderRequest {
    /// Fetch the description of the device at this location.
    Fetch(String),
    /// Search for devices that offer the AVTransport service, and wait so
    /// many seconds for their answers.
    Search(u64),
}

/// What the network gave for a request.
#[derive(Debug)]
pub enum RenderAnswer {
    /// The device at the location, or the text of the error that the fetch
    /// ended in.
    Fetched(core::result::Result<Device, String>),
    /// The answers to the search in the order of their arrival, each a
    /// device or the text of an error; or the text of the error that the
    /// search itself ended in.
    Found(core::result::Result<Vec<core::result::Result<Device, String>>, String>),
}

impl RenderSpec {
    /// Says what to ask of the network. A location that is no URL is
    /// refused here, before anything is asked.
    pub fn request(&self) -> (request: Result<RenderRequest>)
        ensures
            match request {
                Ok(RenderRequest::Fetch(location)) => *self matches RenderSpec::Location(url)
                    && is_uri(url@) && location@ == url@,
                Ok(RenderRequest::Search(seconds)) => match *self {
                    RenderSpec::Location(_) => false,
                    RenderSpec::Query(timeout, _) => seconds == timeout,
                    RenderSpec::First(timeout) => seconds == timeout,
                },
                Err(Error::DevicesUrlParseError(text)) => *self matches RenderSpec::Location(url)
                    && !is_uri(url@) && text@ == url@,
                Err(_) => false,
            },
    {
        let parses = match self {
            RenderSpec::Location(url) => uri_host(url.as_str()).is_some(),
            _ => true,
        };
        self.request_if(parses)
    }

    /// Says what to ask of the network, where `location_parses` tells
    /// whether the location, if the description is one, is a URL.
    pub fn request_if(&self, location_parses: bool) -> (request: Result<RenderRequest>)
        ensures
            match request {
                Ok(RenderRequest::Fetch(location)) => *self matches RenderSpec::Location(url)
                    && location_parses && location@ == url@,
                Ok(RenderRequest::Search(seconds)) => match *self {
                    RenderSpec::Location(_) => false,
                    RenderSpec::Query(timeout, _) => seconds == timeout,
                    RenderSpec::First(timeout) => seconds == timeout,
                },
                Err(Error::DevicesUrlParseError(text)) => *self matches RenderSpec::Location(url)
                    && !location_parses && text@ == url@,
                Err(_) => false,
            },
    {
        match self {
            RenderSpec::Location(url) => {
                if location_parses {
                    Ok(RenderRequest::Fetch(url.clone()))
                } else {
                    Err(Error::DevicesUrlParseError(url.clone()))
                }
            },
            RenderSpec::Query(timeout, _) => Ok(RenderRequest::Search(*timeout)),
            RenderSpec::First(timeout) => Ok(RenderRequest::Search(*timeout)),
        }
    }
}

/// How the search for the render of a description ends.
pub enum Resolution {
    /// With this render.
    Selected(RenderView),
    /// The location is no URL.
    UrlParseError(Seq<char>),
    /// The device at the location could not be fetched, for this cause.
    CreateError(Seq<char>, Seq<char>),
    /// The search could not be made, for this cause.
    DiscoverFail(Seq<char>),
    /// No render answers the description.
    NotFound,
}

/// The end of a search with a render, or without one.
pub open spec fn selected_or_not_found(selection: Option<RenderView>) -> Resolution {
    match selection {
        Some(render) => Resolution::Selected(render),
        None => Resolution::NotFound,
    }
}

/// How the search for the render of a description ends, given whether its
/// location, if it is one, is a URL, and what the network gave.
///
/// A location that is no URL ends the search whatever the network gave. A
/// location selects the render that the fetched device makes, a query the
/// first render discovered whose description contains it, and the third
/// kind the first render discovered. An answer to another request than that
/// of the description holds no render for it.
pub open spec fn resolution_if(
    render_spec: RenderSpec,
    location_parses: bool,
    answer: RenderAnswer,
) -> Resolution {
    match render_spec {
        RenderSpec::Location(url) => if !location_parses {
            Resolution::UrlParseError(url@)
        } else {
            match answer {
                RenderAnswer::Fetched(Ok(device)) => selected_or_not_found(render_of(device@)),
                RenderAnswer::Fetched(Err(cause)) => Resolution::CreateError(url@, cause@),
                RenderAnswer::Found(_) => Resolution::NotFound,
            }
        },
        RenderSpec::Query(_, query) => match answer {
            RenderAnswer::Found(Ok(answers)) => selected_or_not_found(
                first_match(discovered(answers_view(answers@)), query@),
            ),
            RenderAnswer::Found(Err(cause)) => Resolution::DiscoverFail(cause@),
            RenderAnswer::Fetched(_) => Resolution::NotFound,
        },
        RenderSpec::First(_) => match answer {
            RenderAnswer::Found(Ok(answers)) => selected_or_not_found(
                first_render(discovered(answers_view(answers@))),
            ),
            RenderAnswer::Found(Err(cause)) => Resolution::DiscoverFail(cause@),
            RenderAnswer::Fetched(_) => Resolution::NotFound,
        },
    }
}

/// How the search for the render of a description ends, given what the
/// network gave.
pub open spec fn resolution(render_spec: RenderSpec, answer: RenderAnswer) -> Resolution {
    resolution_if(
        render_spec,
        render_spec matches RenderSpec::Location(url) ==> is_uri(url@),
        answer,
    )
}

/// The result is the given end of a search.
pub open spec fn is_resolution(
    made: Result<Render>,
    render_spec: RenderSpec,
    end: Resolution,
) -> bool {
    match made {
        Ok(render) => end == Resolution::Selected(render@) && render@.wf(),
        Err(Error::DevicesUrlParseError(text)) => end == Resolution::UrlParseError(text@),
        Err(Error::DevicesCreateError(url, text)) => end == Resolution::CreateError(url@, text@),
        Err(Error::DevicesDiscoverFail(text)) => end == Resolution::DiscoverFail(text@),
        Err(Error::DevicesRenderNotFound(wanted)) => end == Resolution::NotFound && wanted
            == render_spec,
        Err(_) => false,
    }
}

impl Render {
    #[verifier::type_invariant]
    spec fn inv(self) -> bool {
        self@.wf()
    }

    /// Finds the render of a description in what the network gave for its
    /// request.
    ///
    /// A location that is no URL gives `DevicesUrlParseError`, a location
    /// whose fetch failed `DevicesCreateError`, a search that failed
    /// `DevicesDiscoverFail`, and every other case in which no render is
    /// selected `DevicesRenderNotFound`.
    pub fn new(render_spec: RenderSpec, answer: RenderAnswer) -> (made: Result<Render>)
        ensures
            is_resolution(made, render_spec, resolution(render_spec, answer)),
    {
        let location_parses = match &render_spec {
            RenderSpec::Location(url) => uri_host(url.as_str()).is_some(),
            _ => true,
        };
        Self::resolve(render_spec, location_parses, answer)
    }

    /// Finds the render of a description in what the network gave, where
    /// `location_parses` tells whether the location, if the description is
    /// one, is a URL.
    pub fn resolve(render_spec: RenderSpec, location_parses: bool, answer: RenderAnswer) -> (made:
        Result<Render>)
        ensures
            is_resolution(made, render_spec, resolution_if(render_spec, location_parses, answer)),
    {
        let selection = match &render_spec {
            RenderSpec::Location(device_url) => match answer {
                RenderAnswer::Fetched(fetched) => match Self::select_by_url(
                    device_url,
                    location_parses,
                    fetched,
                ) {
                    Ok(selection) => selection,
                    Err(e) => {
                        return Err(e);
                    },
                },
                RenderAnswer::Found(_) => {
                    if !location_parses {
                        return Err(Error::DevicesUrlParseError(device_url.clone()));
                    }
                    None
                },
            },
            RenderSpec::Query(_, device_query) => match answer {
                RenderAnswer::Found(Ok(answers)) => {
                    let renders = Self::renders_among(&answers);
                    Self::select_by_query(&renders, device_query.as_str())
                },
                RenderAnswer::Found(Err(cause)) => {
                    return Err(Error::DevicesDiscoverFail(cause));
                },
                RenderAnswer::Fetched(_) => None,
            },
            RenderSpec::First(_) => match answer {
                RenderAnswer::Found(Ok(answers)) => {
                    let renders = Self::renders_among(&answers);
                    Self::first(&renders)
                },
                RenderAnswer::Found(Err(cause)) => {
                    return Err(Error::DevicesDiscoverFail(cause));
                },
                RenderAnswer::Fetched(_) => None,
            },
        };
        match selection {
            Some(render) => {
                proof {
                    use_type_invariant(&render);
                }
                Ok(render)
            },
            None => Err(Error::DevicesRenderNotFound(render_spec)),
        }
    }

    /// The render at a location, given whether the location is a URL and
    /// what fetching it gave: the render that the device makes, or none
    /// where the device lacks the AVTransport service.
    pub fn select_by_url(
        url: &String,
        location_parses: bool,
        fetched: core::result::Result<Device, String>,
    ) -> (selected: Result<Option<Render>>)
        ensures
            match selected {
                Ok(selection) => {
                    &&& location_parses
                    &&& fetched matches Ok(device)
                    &&& selection is Some <==> render_of(device@) is Some
                    &&& selection matches Some(render) ==> render_of(device@) == Some(render@)
                },
                Err(Error::DevicesUrlParseError(text)) => !location_parses && text@ == url@,
                Err(Error::DevicesCreateError(location, text)) => {
                    &&& location_parses
                    &&& fetched matches Err(cause)
                    &&& location@ == url@
                    &&& text@ == cause@
                },
                Err(_) => false,
            },
    {
        if !location_parses {
            return Err(Error::DevicesUrlParseError(url.clone()));
        }
        match fetched {
            Ok(device) => Ok(Self::from_device(device)),
            Err(cause) => Err(Error::DevicesCreateError(url.clone(), cause)),
        }
    }

    /// The render that a device makes, if it offers the AVTransport
    /// service.
    pub fn from_device(device: Device) -> (made: Option<Render>)
        ensures
            made is Some <==> render_of(device@) is Some,
            made matches Some(render) ==> render_of(device@) == Some(render@) && render@.wf(),
    {
        proof {
            use_type_invariant(&device);
        }
        let service = match device.find_service(AV_TRANSPORT) {
            Some(service) => service.clone(),
            None => {
                return None;
            },
        };
        Some(Render { device, service })
    }

    /// The renders among the answers to a search, in the order in which the
    /// answers came. A device without the AVTransport service is left out,
    /// and so is an answer that ended in an error. The search itself having
    /// failed is the one error.
    pub fn discover(
        found: core::result::Result<Vec<core::result::Result<Device, String>>, String>,
    ) -> (renders: Result<Vec<Render>>)
        ensures
            match renders {
                Ok(list) => found matches Ok(answers) && renders_view(list@) == discovered(
                    answers_view(answers@),
                ),
                Err(Error::DevicesDiscoverFail(text)) => found matches Err(cause) && text@
                    == cause@,
                Err(_) => false,
            },
    {
        match found {
            Ok(answers) => Ok(Self::renders_among(&answers)),
            Err(cause) => Err(Error::DevicesDiscoverFail(cause)),
        }
    }

    /// The renders among the answers to a search.
    pub fn renders_among(answers: &Vec<core::result::Result<Device, String>>) -> (renders: Vec<
        Render,
    >)
        ensures
            renders_view(renders@) == discovered(answers_view(answers@)),
    {
        let ghost all = answers_view(answers@);
        let mut renders: Vec<Render> = Vec::new();
        let mut i: usize = 0;
        assert(all.take(0) =~= Seq::<Option<DeviceView>>::empty());
        assert(renders_view(renders@) =~= Seq::<RenderView>::empty());
        while i < answers.len()
            invariant
                i <= answers.len(),
                all == answers_view(answers@),
                renders_view(renders@) == discovered(all.take(i as int)),
            decreases answers.len() - i,
        {
            let ghost before = renders_view(renders@);
            proof {
                assert(all.take(i + 1).drop_last() =~= all.take(i as int));
                assert(all.take(i + 1).last() == answer_view(answers@[i as int]));
            }
            match &answers[i] {
                Ok(device) => {
                    if let Some(render) = Self::from_device(device.clone()) {
                        renders.push(render);
                        assert(renders_view(renders@) =~= before.push(render@));
                    }
                },
                Err(_) => {},
            }
            i += 1;
        }
        assert(all.take(i as int) =~= all);
        renders
    }

    /// The first render whose description contains the query, letter for
    /// letter.
    pub fn select_by_query(renders: &Vec<Render>, query: &str) -> (selected: Option<Render>)
        ensures
            selected is Some <==> first_match(renders_view(renders@), query@) is Some,
            selected matches Some(render) ==> first_match(renders_view(renders@), query@) == Some(
                render@,
            ),
    {
        let ghost views = renders_view(renders@);
        let mut i: usize = 0;
        while i < renders.len()
            invariant
                i <= renders.len(),
                views == renders_view(renders@),
                forall|j: int| 0 <= j < i ==> !is_substring((#[trigger] views[j]).text(), query@),
            decreases renders.len() - i,
        {
            let text = renders[i].to_string();
            assert(views[i as int] == renders@[i as int]@);
            if contains(text.as_str(), query) {
                proof {
                    assert(is_first_match(views, query@, i as int));
                    let at = choose|at: int| is_first_match(views, query@, at);
                    assert(at == i);
                }
                return Some(renders[i].clone());
            }
            i += 1;
        }
        assert forall|at: int| !is_first_match(views, query@, at) by {
            if 0 <= at < views.len() {
                assert(!is_substring(views[at].text(), query@));
            }
        }
        None
    }

    /// The first render of a list.
    pub fn first(renders: &Vec<Render>) -> (selected: Option<Render>)
        ensures
            selected is Some <==> renders.len() > 0,
            selected matches Some(render) ==> first_render(renders_view(renders@)) == Some(
                render@,
            ),
    {
        if renders.len() > 0 {
            assert(renders_view(renders@)[0] == renders@[0]@);
            Some(renders[0].clone())
        } else {
            None
        }
    }

    /// The host of the render: the host that the URL of its device names,
    /// without scheme, port or path.
    pub fn host(&self) -> (host: String)
        ensures
            host@ == self@.device.host,
            uri_host_of(self@.device.url) == Some(Some(host@)),
    {
        proof {
            use_type_invariant(self);
        }
        self.device.host.clone()
    }

    /// The device of the render.
    pub fn device(&self) -> (device: &Device)
        ensures
            device@ == self@.device,
            self@.wf(),
    {
        proof {
            use_type_invariant(self);
        }
        &self.device
    }

    /// The AVTransport service of the render.
    pub fn service(&self) -> (service: &Service)
        ensures
            service@ == self@.service,
            self@.wf(),
    {
        proof {
            use_type_invariant(self);
        }
        &self.service
    }

    /// How the render reads: device type and service type in brackets, then
    /// the name, `@`, and the URL.
    pub fn to_string(&self) -> (text: String)
        ensures
            text@ == self@.text(),
    {
        let mut text = String::from_str("[");
        text.append(self.device.device_type.as_str());
        text.append("][");
        text.append(self.service.service_type.as_str());
        text.append("] ");
        text.append(self.device.friendly_name.as_str());
        text.append(" @ ");
        text.append(self.device.url.as_str());
        text
    }
}

/// Where a service of the type stands at `at`, a first service of the type
/// stands at or before it.
proof fn lemma_first_of_type(services: Seq<ServiceView>, service_type: Seq<char>, at: int)
    requires
        0 <= at < services.len(),
        services[at].service_type == service_type,
    ensures
        exists|first: int| first <= at && is_first_of_type(services, service_type, first),
    decreases at,
{
    if exists|j: int| 0 <= j < at && (#[trigger] services[j]).service_type == service_type {
        let j = choose|j: int| 0 <= j < at && (#[trigger] services[j]).service_type
            == service_type;
        lemma_first_of_type(services, service_type, j);
    } else {
        assert(is_first_of_type(services, service_type, at));
    }
}

/// A device makes a render exactly if it offers the AVTransport service,
/// and the render is then the device itself with a service of that type.
pub proof fn lemma_render_of(device: DeviceView)
    ensures
        render_of(device) is Some <==> device.is_render(),
        render_of(device) matches Some(render) ==> render.device == device
            && render.service.service_type == AV_TRANSPORT@,
{
    if device.is_render() {
        let at = choose|at: int|
            0 <= at < device.services.len() && (#[trigger] device.services[at]).service_type
                == AV_TRANSPORT@;
        lemma_first_of_type(device.services, AV_TRANSPORT@, at);
    }
    if render_of(device) is Some {
        let first = choose|at: int| is_first_of_type(device.services, AV_TRANSPORT@, at);
        assert(device.services[first].service_type == AV_TRANSPORT@);
    }
}

/// Every render that a search discovers is made by a device that answered
/// the search and offers the AVTransport service.
pub proof fn lemma_discovered_answered(answers: Seq<Option<DeviceView>>, j: int)
    requires
        0 <= j < discovered(answers).len(),
    ensures
        exists|i: int| 0 <= i < answers.len() && #[trigger] answers[i] == Some(
            discovered(answers)[j].device,
        ),
        render_of(discovered(answers)[j].device) == Some(discovered(answers)[j]),
        discovered(answers)[j].device.is_render(),
    decreases answers.len(),
{
    let before = discovered(answers.drop_last());
    let last = answers.len() - 1;
    if j < before.len() {
        lemma_discovered_answered(answers.drop_last(), j);
        let i = choose|i: int|
            0 <= i < answers.drop_last().len() && #[trigger] answers.drop_last()[i] == Some(
                before[j].device,
            );
        assert(answers[i] == answers.drop_last()[i]);
    } else {
        let device = answers.last()->0;
        lemma_render_of(device);
        assert(answers[last] == Some(device));
    }
    lemma_render_of(discovered(answers)[j].device);
}

/// A device that lacks the AVTransport service is the device of no render
/// that a search discovers, whatever answered the search.
pub proof fn lemma_device_without_service_not_discovered(
    answers: Seq<Option<DeviceView>>,
    device: DeviceView,
)
    requires
        !device.is_render(),
    ensures
        forall|j: int|
            0 <= j < discovered(answers).len() ==> (#[trigger] discovered(answers)[j]).device
                != device,
{
    assert forall|j: int| 0 <= j < discovered(answers).len() implies (#[trigger] discovered(
        answers,
    )[j]).device != device by {
        lemma_discovered_answered(answers, j);
    }
}

/// Every device that answered a search and offers the AVTransport service
/// is discovered, and the renders come in the order of the answers.
pub proof fn lemma_discovered_complete(answers: Seq<Option<DeviceView>>, i: int)
    requires
        0 <= i < answers.len(),
        answers[i] matches Some(device) && device.is_render(),
    ensures
        discovered(answers.take(i)).len() < discovered(answers).len(),
        Some(discovered(answers)[discovered(answers.take(i)).len() as int]) == render_of(
            answers[i]->0,
        ),
    decreases answers.len(),
{
    let last = answers.len() - 1;
    lemma_render_of(answers[i]->0);
    if i == last {
        assert(answers.take(i) == answers.drop_last());
    } else {
        let shorter = answers.drop_last();
        lemma_discovered_complete(shorter, i);
        assert(shorter.take(i) == answers.take(i));
    }
}

/// A search that discovers no render ends without one, whether the first
/// render or a render that matches a query was looked for.
pub proof fn lemma_nothing_discovered_not_found(render_spec: RenderSpec, answer: RenderAnswer)
    requires
        !(render_spec is Location),
        answer matches RenderAnswer::Found(Ok(answers)) && discovered(answers_view(answers@)).len()
            == 0,
    ensures
        resolution(render_spec, answer) == Resolution::NotFound,
{
}

/// A search that nothing answered, or only devices without the AVTransport
/// service and errors, discovers no render.
pub proof fn lemma_no_render_answered(answers: Seq<Option<DeviceView>>)
    requires
        forall|i: int|
            0 <= i < answers.len() ==> (#[trigger] answers[i] matches Some(device)
                ==> !device.is_render()),
    ensures
        discovered(answers).len() == 0,
    decreases answers.len(),
{
    if answers.len() > 0 {
        let shorter = answers.drop_last();
        assert forall|i: int| 0 <= i < shorter.len() implies (#[trigger] shorter[i] matches Some(
            device,
        ) ==> !device.is_render()) by {
            assert(shorter[i] == answers[i]);
        }
        lemma_no_render_answered(shorter);
        assert(answers.last() == answers[answers.len() - 1]);
        if answers.last() is Some {
            lemma_render_of(answers.last()->0);
        }
    }
}

/// A location that is no URL ends the search with the parse error, whatever
/// the network gave: nothing needs to be asked of it.
pub proof fn lemma_location_that_is_no_url(url: String, answer: RenderAnswer)
    requires
        !is_uri(url@),
    ensures
        resolution(RenderSpec::Location(url), answer) == Resolution::UrlParseError(url@),
{
}

/// A text that stands in a part of a text stands in the whole.
proof fn lemma_substring_of_part(head: Seq<char>, part: Seq<char>, tail: Seq<char>, needle: Seq<char>)
    requires
        is_substring(part, needle),
    ensures
        is_substring(head + part + tail, needle),
{
    let at = choose|at: int| occurs_at(part, needle, at);
    let whole = head + part + tail;
    assert(whole.subrange(head.len() + at, head.len() + at + needle.len()) == part.subrange(
        at,
        at + needle.len(),
    ));
    assert(occurs_at(whole, needle, head.len() + at));
}

/// A query that stands in the device type, the service type, the name or
/// the URL of a render stands in its description.
pub proof fn lemma_description_holds_its_parts(render: RenderView, query: Seq<char>)
    requires
        is_substring(render.device.device_type, query) || is_substring(
            render.service.service_type,
            query,
        ) || is_substring(render.device.friendly_name, query) || is_substring(
            render.device.url,
            query,
        ),
    ensures
        is_substring(render.text(), query),
{
    let text = render.text();
    let empty = Seq::<char>::empty();
    if is_substring(render.device.device_type, query) {
        let tail = "]["@ + render.service.service_type + "] "@ + render.device.friendly_name
            + " @ "@ + render.device.url;
        lemma_substring_of_part("["@, render.device.device_type, tail, query);
        assert(text == "["@ + render.device.device_type + tail);
    } else if is_substring(render.service.service_type, query) {
        let head = "["@ + render.device.device_type + "]["@;
        let tail = "] "@ + render.device.friendly_name + " @ "@ + render.device.url;
        lemma_substring_of_part(head, render.service.service_type, tail, query);
        assert(text == head + render.service.service_type + tail);
    } else if is_substring(render.device.friendly_name, query) {
        let head = "["@ + render.device.device_type + "]["@ + render.service.service_type + "] "@;
        let tail = " @ "@ + render.device.url;
        lemma_substring_of_part(head, render.device.friendly_name, tail, query);
        assert(text == head + render.device.friendly_name + tail);
    } else {
        let head = "["@ + render.device.device_type + "]["@ + render.service.service_type + "] "@
            + render.device.friendly_name + " @ "@;
        lemma_substring_of_part(head, render.device.url, empty, query);
        assert(text == head + render.device.url + empty);
    }
}

/// Where the description of one render alone contains the query, that
/// render is the one selected, wherever it stands among the renders.
pub proof fn lemma_only_match_is_selected(renders: Seq<RenderView>, query: Seq<char>, at: int)
    requires
        0 <= at < renders.len(),
        is_substring(renders[at].text(), query),
        forall|j: int|
            0 <= j < renders.len() && j != at ==> !is_substring(
                (#[trigger] renders[j]).text(),
                query,
            ),
    ensures
        first_match(renders, query) == Some(renders[at]),
{
    assert(is_first_match(renders, query, at));
    let first = choose|first: int| is_first_match(renders, query, first);
    assert(first == at);
}

/// The render selected by a query is one of the renders, the first whose
/// description contains the query.
pub proof fn lemma_first_match(renders: Seq<RenderView>, query: Seq<char>)
    ensures
        first_match(renders, query) is Some <==> exists|at: int|
            0 <= at < renders.len() && is_substring((#[trigger] renders[at]).text(), query),
        first_match(renders, query) matches Some(render) ==> exists|at: int|
            is_first_match(renders, query, at) && renders[at] == render,
{
    if exists|at: int|
        0 <= at < renders.len() && is_substring((#[trigger] renders[at]).text(), query) {
        let at = choose|at: int|
            0 <= at < renders.len() && is_substring((#[trigger] renders[at]).text(), query);
        lemma_first_match_before(renders, query, at);
    }
    if first_match(renders, query) is Some {
        let first = choose|first: int| is_first_match(renders, query, first);
        assert(is_substring(renders[first].text(), query));
    }
}

/// Where a description contains the query, a first such description stands
/// at or before it.
proof fn lemma_first_match_before(renders: Seq<RenderView>, query: Seq<char>, at: int)
    requires
        0 <= at < renders.len(),
        is_substring(renders[at].text(), query),
    ensures
        exists|first: int| first <= at && is_first_match(renders, query, first),
    decreases at,
{
    if exists|j: int| 0 <= j < at && is_substring((#[trigger] renders[j]).text(), query) {
        let j = choose|j: int| 0 <= j < at && is_substring((#[trigger] renders[j]).text(), query);
        lemma_first_match_before(renders, query, j);
    } else {
        assert(is_first_match(renders, query, at));
    }
}

} // verus!
