use vstd::prelude::*;
use crate::validation::{Issue, ValidationErrors, is_url, value_issue_if};

verus! {

/// What was learnt of a shared link: a title, a thumbnail, and raw notes.
pub struct ScrapedData {
    pub title: Option<String>,
    pub thumbnail_url: Option<String>,
    pub metadata: String,
}

/// A request for the metadata of a link.
pub struct GetVideoMetadata {
    pub url: String,
}

impl GetVideoMetadata {
    pub open spec fn issues(&self) -> Seq<Issue> {
        value_issue_if(!is_url(self.url@), "url"@, "url"@, None, self.url@)
    }

    pub fn validate(&self) -> (r: Result<(), ValidationErrors>)
        ensures
            r is Ok <==> self.issues().len() == 0,
            r matches Err(e) ==> e@ == self.issues(),
            r is Ok <==> is_url(self.url@),
    {
        let mut errs = ValidationErrors::new();
        errs.check_url("url", self.url.as_str(), None);
        assert(errs@ =~= self.issues());
        errs.into_result()
    }
}

/// YouTube's oEmbed answer.
pub struct YoutubeEmbed {
    pub title: String,
    pub author_name: String,
    pub author_url: String,
    pub content_type: String,
    pub version: String,
    pub provider_name: String,
    pub provider_url: String,
    pub thumbnail_url: String,
    pub html: String,
    pub height: u32,
    pub width: u32,
    pub thumbnail_height: u32,
    pub thumbnail_width: u32,
}

/// Google's reverse-geocoding answer, as far as it is read.
pub struct Geocoding {
    pub plus_code: GeocodePlusCode,
    pub results: Vec<GeocodeResult>,
}

pub struct GeocodePlusCode {
    pub compound_code: String,
    pub global_code: String,
}

pub struct GeocodeResult {
    pub geometry: GeocodeResultGeometry,
    pub formatted_address: String,
    pub place_id: String,
    pub types: Vec<String>,
}

pub struct GeocodeResultGeometry {
    pub location_type: String,
}

/// TikTok's oEmbed answer.
pub struct TiktokEmbed {
    pub title: String,
    pub author_name: String,
    pub author_url: String,
    pub thumbnail_url: String,
    pub html: String,
    pub embed_type: Option<String>,
}

} // verus!
