//! The registration documents that the host platform asks for: what the
//! service is, and which widgets it offers for each camera.

use vstd::prelude::*;
use vstd::string::*;
use crate::discovery::{Camera, CameraView};
use crate::text::{ipv4_chars, ipv4_text, uuid_chars, uuid_text};

verus! {

/// Where the widgets document is served.
#[derive(Debug, PartialEq, Eq)]
pub struct Extras {
    pub cockpit: String,
}

/// What the service tells the host platform about itself.
#[derive(Debug, PartialEq, Eq)]
pub struct ServerMetadata {
    pub name: String,
    pub description: String,
    pub icon: String,
    pub company: String,
    pub version: String,
    pub webpage: String,
    pub api: String,
    pub route: Option<String>,
    pub extra_query: Option<String>,
    pub avoid_iframes: Option<bool>,
    pub new_page: Option<bool>,
    pub works_in_relative_paths: Option<bool>,
    pub extras: Option<Extras>,
}

impl ServerMetadata {
    /// The registration document of a service of the given version.
    pub fn new(version: String) -> (r: ServerMetadata)
        ensures
            r.name@ == "RadCam Manager"@,
            r.description@ == "The official management interface for RadCam"@,
            r.icon@ == "mdi-camera-outline"@,
            r.company@ == "BlueRobotics"@,
            r.version == version,
            r.webpage@ == "https://github.com/BluerRobotics/radcam-manager"@,
            r.api@ == "/docs"@,
            r.route is None,
            r.extra_query is None,
            r.new_page == Some(false),
            r.avoid_iframes == Some(false),
            r.works_in_relative_paths == Some(true),
            r.extras matches Some(e) && e.cockpit@ == "/cockpit_extras.json"@,
    {
        ServerMetadata {
            name: String::from_str("RadCam Manager"),
            description: String::from_str("The official management interface for RadCam"),
            icon: String::from_str("mdi-camera-outline"),
            company: String::from_str("BlueRobotics"),
            version,
            webpage: String::from_str("https://github.com/BluerRobotics/radcam-manager"),
            api: String::from_str("/docs"),
            route: None,
            extra_query: None,
            new_page: Some(false),
            avoid_iframes: Some(false),
            works_in_relative_paths: Some(true),
            extras: Some(Extras { cockpit: String::from_str("/cockpit_extras.json") }),
        }
    }
}

impl Default for ServerMetadata {
    fn default() -> (r: Self)
        ensures
            r.name@ == "RadCam Manager"@,
            r.version@ == "0.0.0"@,
            r.api@ == "/docs"@,
            r.extras matches Some(e) && e.cockpit@ == "/cockpit_extras.json"@,
    {
        ServerMetadata::new(String::from_str("0.0.0"))
    }
}

/// A widget that the operator's station can show.
#[derive(Debug, PartialEq, Eq)]
pub struct CockpitWidget {
    pub name: String,
    pub config_iframe_url: Option<String>,
    pub iframe_url: String,
    pub iframe_icon: String,
    pub version: String,
}

/// The mathematical value of a [`CockpitWidget`].
pub struct CockpitWidgetView {
    pub name: Seq<char>,
    pub config_iframe_url: Option<Seq<char>>,
    pub iframe_url: Seq<char>,
    pub iframe_icon: Seq<char>,
    pub version: Seq<char>,
}

impl View for CockpitWidget {
    type V = CockpitWidgetView;

    open spec fn view(&self) -> CockpitWidgetView {
        CockpitWidgetView {
            name: self.name@,
            config_iframe_url: match self.config_iframe_url {
                Some(u) => Some(u@),
                None => None,
            },
            iframe_url: self.iframe_url@,
            iframe_icon: self.iframe_icon@,
            version: self.version@,
        }
    }
}

/// The method of a request that an action of the operator's station makes.
#[derive(Debug, Clone, Copy, PartialEq, Eq, Structural)]
pub enum HttpRequestMethod {
    GET,
    POST,
    PUT,
    PATCH,
    DELETE,
}

/// What the service is: its name, version and build.
#[derive(Debug, PartialEq, Eq)]
pub struct InfoContent {
    pub name: String,
    pub version: String,
    pub sha: String,
    pub build_date: String,
    pub authors: String,
}

/// The answer to a request for information: the version of the interface
/// and what the service is.
#[derive(Debug, PartialEq, Eq)]
pub struct Info {
    pub version: u32,
    pub service: InfoContent,
}

/// The widget of a camera: named after the camera's address, and showing
/// the page of the camera.
pub open spec fn widget_of(camera: CameraView, version: Seq<char>) -> CockpitWidgetView {
    CockpitWidgetView {
        name: "RadCam ("@ + ipv4_chars(camera.hostname) + ")"@,
        config_iframe_url: None,
        iframe_url: "/?uuid="@ + uuid_chars(camera.uuid),
        iframe_icon: "/assets/logo.svg"@,
        version,
    }
}

/// The values of a list of widgets.
pub open spec fn widgets_view(widgets: Seq<CockpitWidget>) -> Seq<CockpitWidgetView> {
    Seq::new(widgets.len(), |i: int| widgets[i]@)
}

/// One widget for each camera, in the order of the cameras.
pub fn widgets(cameras: &Vec<Camera>, version: &str) -> (r: Vec<CockpitWidget>)
    ensures
        r@.len() == cameras@.len(),
        forall|i: int|
            0 <= i < cameras@.len() ==> (#[trigger] r@[i])@ == widget_of(cameras@[i]@, version@),
{
    let mut out: Vec<CockpitWidget> = Vec::new();
    let mut i: usize = 0;
    while i < cameras.len()
        invariant
            i <= cameras.len(),
            out@.len() == i,
            forall|j: int| 0 <= j < i ==> (#[trigger] out@[j])@ == widget_of(
                cameras@[j]@,
                version@,
            ),
        decreases cameras.len() - i,
    {
        let camera = &cameras[i];
        let mut name = String::from_str("RadCam (");
        let address = ipv4_text(&camera.hostname);
        name.append(address.as_str());
        name.append(")");
        let mut url = String::from_str("/?uuid=");
        let id = uuid_text(camera.uuid);
        url.append(id.as_str());
        let widget = CockpitWidget {
            name,
            config_iframe_url: None,
            iframe_url: url,
            iframe_icon: String::from_str("/assets/logo.svg"),
            version: String::from_str(version),
        };
        assert(widget@ == widget_of(camera@, version@));
        out.push(widget);
        i += 1;
    }
    out
}

} // verus!
