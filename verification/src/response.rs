//! The responses of the two lookup services, before they are written out.

use vstd::prelude::*;
use crate::fetch::FetchError;
use crate::record::{CreatureRecord, CreatureRecordView};
use crate::text::{decimal_string, decimal_text};

verus! {

/// Seconds for which the answer to a search may be kept by a cache.
pub const SEARCH_CACHE_SECONDS: u32 = 10;

/// What a response carries.
#[derive(Debug, PartialEq, Eq)]
pub enum ApiBody {
    /// Plain text.
    Text(String),
    /// One record, to be written as a JSON object.
    Record(CreatureRecord),
    /// Records, to be written as a JSON array.
    Records(Vec<CreatureRecord>),
}

/// The model of an [`ApiBody`].
pub ghost enum ApiBodyView {
    Text(Seq<char>),
    Record(CreatureRecordView),
    Records(Seq<CreatureRecordView>),
}

/// The models of `records`, in order.
pub open spec fn records_view(records: Seq<CreatureRecord>) -> Seq<CreatureRecordView> {
    records.map_values(|record: CreatureRecord| record@)
}

impl View for ApiBody {
    type V = ApiBodyView;

    open spec fn view(&self) -> ApiBodyView {
        match self {
            ApiBody::Text(text) => ApiBodyView::Text(text@),
            ApiBody::Record(record) => ApiBodyView::Record(record@),
            ApiBody::Records(records) => ApiBodyView::Records(records_view(records@)),
        }
    }
}

/// A response of one of the lookup services.
#[derive(Debug, PartialEq, Eq)]
pub struct ApiResponse {
    pub status: u16,
    /// The value of the `Cache-Control` header, where the response has one.
    pub cache_control: Option<String>,
    pub body: ApiBody,
}

/// The model of an [`ApiResponse`].
pub ghost struct ApiResponseView {
    pub status: int,
    pub cache_control: Option<Seq<char>>,
    pub body: ApiBodyView,
}

impl View for ApiResponse {
    type V = ApiResponseView;

    open spec fn view(&self) -> ApiResponseView {
        ApiResponseView {
            status: self.status as int,
            cache_control: match self.cache_control {
                Some(value) => Some(value@),
                None => None,
            },
            body: self.body@,
        }
    }
}

/// The cache hint that goes with the answer to a search: public, and good
/// for `SEARCH_CACHE_SECONDS` seconds.
pub open spec fn search_cache_hint() -> Seq<char> {
    "public, max-age="@ + decimal_text(SEARCH_CACHE_SECONDS as nat)
}

/// The response that reports `error`: its status, and its message as plain
/// text. Nothing else about the failure is told.
pub open spec fn error_response(error: FetchError) -> ApiResponseView {
    ApiResponseView {
        status: error.status_code(),
        cache_control: None,
        body: ApiBodyView::Text(error.message_text()),
    }
}

/// The response that ends a search: the record with the cache hint, or the
/// report of the error.
pub open spec fn search_response_of(
    result: Result<CreatureRecordView, FetchError>,
) -> ApiResponseView {
    match result {
        Ok(record) => ApiResponseView {
            status: 200,
            cache_control: Some(search_cache_hint()),
            body: ApiBodyView::Record(record),
        },
        Err(error) => error_response(error),
    }
}

/// The response that ends a search with `result`.
pub fn search_response(result: Result<CreatureRecord, FetchError>) -> (response: ApiResponse)
    ensures
        response@ == search_response_of(crate::fetch::result_view(result)),
{
    match result {
        Ok(record) => {
            let hint = "public, max-age=".to_owned().concat(
                decimal_string(SEARCH_CACHE_SECONDS).as_str(),
            );
            ApiResponse { status: 200, cache_control: Some(hint), body: ApiBody::Record(record) }
        },
        Err(error) => ApiResponse {
            status: error.status(),
            cache_control: None,
            body: ApiBody::Text(error.message().to_owned()),
        },
    }
}

} // verus!
