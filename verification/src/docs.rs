//! The interactive documentation: the interface description and the pages that show it.

use vstd::prelude::*;
use vstd::string::*;

use crate::router::Endpoint;

verus! {

/// The files of the documentation.
#[derive(Clone, Copy, PartialEq, Eq, Structural)]
pub enum Asset {
    OpenApi,
    Index,
    Style,
    Bundle,
    Preset,
}

/// The file that an endpoint serves. The page stands with and without a slash at its end.
pub open spec fn served(e: Endpoint) -> Option<Asset> {
    match e {
        Endpoint::OpenApi => Some(Asset::OpenApi),
        Endpoint::DocsIndex | Endpoint::DocsIndexSlash => Some(Asset::Index),
        Endpoint::DocsStyle => Some(Asset::Style),
        Endpoint::DocsBundle => Some(Asset::Bundle),
        Endpoint::DocsPreset => Some(Asset::Preset),
        _ => None,
    }
}

/// The file that an endpoint serves, if it is one of the documentation's.
pub fn asset(e: Endpoint) -> (r: Option<Asset>)
    ensures
        r == served(e),
{
    match e {
        Endpoint::OpenApi => Some(Asset::OpenApi),
        Endpoint::DocsIndex | Endpoint::DocsIndexSlash => Some(Asset::Index),
        Endpoint::DocsStyle => Some(Asset::Style),
        Endpoint::DocsBundle => Some(Asset::Bundle),
        Endpoint::DocsPreset => Some(Asset::Preset),
        _ => None,
    }
}

impl Asset {
    /// The media type of a file.
    pub open spec fn media_type(self) -> Seq<char> {
        match self {
            Asset::OpenApi => "application/yaml"@,
            Asset::Index => "text/html; charset=utf-8"@,
            Asset::Style => "text/css"@,
            Asset::Bundle | Asset::Preset => "application/javascript"@,
        }
    }

    pub fn content_type(self) -> (r: &'static str)
        ensures
            r@ == self.media_type(),
    {
        match self {
            Asset::OpenApi => "application/yaml",
            Asset::Index => "text/html; charset=utf-8",
            Asset::Style => "text/css",
            Asset::Bundle | Asset::Preset => "application/javascript",
        }
    }
}

/// The endpoints of the documentation.
pub fn routes() -> (r: Vec<Endpoint>)
    ensures
        r@ == seq![
            Endpoint::OpenApi,
            Endpoint::DocsIndex,
            Endpoint::DocsIndexSlash,
            Endpoint::DocsStyle,
            Endpoint::DocsBundle,
            Endpoint::DocsPreset,
        ],
{
    vec![
        Endpoint::OpenApi,
        Endpoint::DocsIndex,
        Endpoint::DocsIndexSlash,
        Endpoint::DocsStyle,
        Endpoint::DocsBundle,
        Endpoint::DocsPreset,
    ]
}

/// Each endpoint of the documentation serves its file with the right media type, and no other
/// endpoint serves one.
pub proof fn law_files_are_served(e: Endpoint)
    ensures
        served(Endpoint::OpenApi) == Some(Asset::OpenApi),
        served(Endpoint::DocsIndex) == Some(Asset::Index),
        served(Endpoint::DocsIndexSlash) == Some(Asset::Index),
        served(Endpoint::DocsStyle) == Some(Asset::Style),
        served(Endpoint::DocsBundle) == Some(Asset::Bundle),
        served(Endpoint::DocsPreset) == Some(Asset::Preset),
        served(e) is Some ==> e is OpenApi || e is DocsIndex || e is DocsIndexSlash || e
            is DocsStyle || e is DocsBundle || e is DocsPreset,
        Asset::OpenApi.media_type() == "application/yaml"@,
        Asset::Index.media_type() == "text/html; charset=utf-8"@,
        Asset::Style.media_type() == "text/css"@,
        Asset::Bundle.media_type() == "application/javascript"@,
        Asset::Preset.media_type() == "application/javascript"@,
{
}

} // verus!
