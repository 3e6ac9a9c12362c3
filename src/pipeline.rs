use vstd::prelude::*;
use crate::bins::{bins_of, extract_bins};
use crate::config::{base_url, page_url, Config};
use crate::date::{extract_date, long_date_format, parsed_date_of, DateError};
use crate::extract::{
    collection_selector, date_selector, extract_waste, region_text_of, waste_selector,
};
use crate::report::{json_text, CollectionResult};

verus! {

#[derive(Clone, Copy, Debug, PartialEq, Eq, Structural)]
pub enum Method {
    Get,
    Post,
}

/// An outbound HTTP request with one header, for the caller to send.
#[derive(Clone, Debug, PartialEq, Eq)]
pub struct HttpRequest {
    pub method: Method,
    pub url: String,
    pub header_name: String,
    pub header_value: String,
    pub body: Option<String>,
}

/// The request that fetches the property's collection page: a GET of the page address
/// that asks for HTML.
pub fn fetch_request(config: &Config) -> (r: HttpRequest)
    ensures
        r.method == Method::Get,
        r.url@ == base_url() + config.uprn@,
        r.header_name@ == "accept"@,
        r.header_value@ == "text/html"@,
        r.body is None,
{
    HttpRequest {
        method: Method::Get,
        url: page_url(config.uprn.as_str()),
        header_name: String::from_str("accept"),
        header_value: String::from_str("text/html"),
        body: None,
    }
}

/// The request that publishes a result: a POST of its JSON text to the webhook.
pub fn publish_request(config: &Config, result: &CollectionResult) -> (r: HttpRequest)
    requires
        result.wf(),
    ensures
        r.method == Method::Post,
        r.url@ == config.webhook_url@,
        r.header_name@ == "content-type"@,
        r.header_value@ == "application/json; charset=utf-8"@,
        r.body is Some && r.body->0@ == json_text(*result),
{
    HttpRequest {
        method: Method::Post,
        url: config.webhook_url.clone(),
        header_name: String::from_str("content-type"),
        header_value: String::from_str("application/json; charset=utf-8"),
        body: Some(result.to_json()),
    }
}

/// Why a page gave no result.
#[derive(Clone, Debug, PartialEq, Eq)]
pub enum PipelineError {
    /// The page lacks the collection region, its description or its date.
    Extraction,
    /// The date text is not in the long form.
    Date(DateError),
}

/// Exit status of a run that failed after the configuration was read.
pub const RUN_EXIT_CODE: i32 = 1;

impl PipelineError {
    /// The process exit status for this error.
    pub fn exit_code(&self) -> (r: i32)
        ensures
            r == RUN_EXIT_CODE,
    {
        RUN_EXIT_CODE
    }

    /// The diagnostic that reports this error.
    pub fn message(&self) -> (r: String)
        ensures
            r@.len() > 0,
            self matches PipelineError::Date(e) ==> r@ == "Error parsing date: "@ + e.detail@,
    {
        proof {
            reveal_strlit("Error: the page holds no next collection");
            reveal_strlit("Error parsing date: ");
        }
        match self {
            PipelineError::Extraction => String::from_str("Error: the page holds no next collection"),
            PipelineError::Date(e) => e.message(),
        }
    }
}

/// The description and date text that a page holds, where it holds both.
pub open spec fn page_texts(html: Seq<char>) -> Option<(Seq<char>, Seq<char>)> {
    match (
        region_text_of(html, waste_selector(), collection_selector()),
        region_text_of(html, waste_selector(), date_selector()),
    ) {
        (Some(d), Some(t)) => Some((d, t)),
        _ => None,
    }
}

/// Reads the next collection from a bin-collection page: the bins come from the
/// description, the date from the date text.
pub fn collection_result(html: &str) -> (r: Result<CollectionResult, PipelineError>)
    ensures
        page_texts(html@) is None <==> r == Err::<CollectionResult, PipelineError>(PipelineError::Extraction),
        page_texts(html@) is Some ==> {
            let (description, date_text) = page_texts(html@)->0;
            &&& r is Ok <==> parsed_date_of(date_text, long_date_format()) is Some
            &&& r is Err ==> r->Err_0 is Date
            &&& r is Ok ==> {
                let c = r->Ok_0;
                &&& c.wf()
                &&& parsed_date_of(date_text, long_date_format()) == Some(
                    (c.date.year as int, c.date.month as int, c.date.day as int),
                )
                &&& c.black == bins_of(description).black
                &&& c.blue == bins_of(description).blue
                &&& c.brown == bins_of(description).brown
            }
        },
{
    let info = match extract_waste(html) {
        Ok(info) => info,
        Err(_) => return Err(PipelineError::Extraction),
    };
    let bins = extract_bins(info.description.as_str());
    let date = match extract_date(info.date_text.as_str()) {
        Ok(d) => d,
        Err(e) => return Err(PipelineError::Date(e)),
    };
    Ok(CollectionResult::new(date, bins))
}

} // verus!
