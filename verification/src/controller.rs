//! The shapes in which answers leave the payment service for its callers,
//! and the filter that a listing request carries.

use vstd::prelude::*;
use vstd::string::*;
use crate::text_map::TextMap;

verus! {

/// An answer to a caller: whether the request succeeded, a message, and
/// the data where there is any.
#[derive(Debug, PartialEq, Eq)]
pub struct ApiResponse<T> {
    pub success: bool,
    pub message: String,
    pub data: Option<T>,
}

impl<T> ApiResponse<T> {
    /// The answer to a request that succeeded.
    pub fn succeeded(message: &str, data: Option<T>) -> (r: ApiResponse<T>)
        ensures
            r.success,
            r.message@ == message@,
            r.data == data,
    {
        ApiResponse { success: true, message: message.to_string(), data }
    }

    /// The answer to a request that failed: it carries no data.
    pub fn failed(message: &str) -> (r: ApiResponse<T>)
        ensures
            !r.success,
            r.message@ == message@,
            r.data is None,
    {
        ApiResponse { success: false, message: message.to_string(), data: None }
    }
}

/// The answer where nothing is found under the address asked for.
pub fn not_found_catcher() -> (r: ApiResponse<()>)
    ensures
        !r.success,
        r.message@ == "Resource not found"@,
        r.data is None,
{
    ApiResponse::failed("Resource not found")
}

/// The answer to a request that cannot be read.
pub fn bad_request_catcher() -> (r: ApiResponse<()>)
    ensures
        !r.success,
        r.message@ == "Bad request"@,
        r.data is None,
{
    ApiResponse::failed("Bad request")
}

/// The filters that a listing request may carry.
#[derive(Debug, PartialEq, Eq)]
pub struct PaymentFilterRequest {
    pub status: Option<String>,
    pub method: Option<String>,
    pub transaction_id: Option<String>,
}

/// The filter map that a request's fields make: one entry for each field
/// that is present.
pub open spec fn filter_map(
    status: Option<String>,
    method: Option<String>,
    transaction_id: Option<String>,
) -> Map<Seq<char>, String> {
    let a = Map::<Seq<char>, String>::empty();
    let b = match status {
        Some(v) => a.insert("status"@, v),
        None => a,
    };
    let c = match method {
        Some(v) => b.insert("method"@, v),
        None => b,
    };
    match transaction_id {
        Some(v) => c.insert("transaction_id"@, v),
        None => c,
    }
}

impl PaymentFilterRequest {
    /// The filter map for the service: the fields that are present, under
    /// their names, or `None` where no field is present.
    pub fn into_filters(self) -> (r: Option<TextMap<String>>)
        ensures
            match r {
                Some(m) => m.wf() && m@ == filter_map(self.status, self.method, self.transaction_id)
                    && m@.dom().len() > 0,
                None => self.status is None && self.method is None && self.transaction_id is None,
            },
    {
        let mut filters: TextMap<String> = TextMap::new();
        if let Some(v) = self.status {
            filters.insert("status".to_string(), v);
        }
        if let Some(v) = self.method {
            filters.insert("method".to_string(), v);
        }
        if let Some(v) = self.transaction_id {
            filters.insert("transaction_id".to_string(), v);
        }
        if filters.is_empty() {
            proof {
                lemma_filter_names();
                assert(!filters@.contains_key("status"@));
                assert(!filters@.contains_key("method"@));
                assert(!filters@.contains_key("transaction_id"@));
            }
            None
        } else {
            proof {
                filters.lemma_shape();
            }
            Some(filters)
        }
    }
}

/// The three filter names differ from one another.
pub proof fn lemma_filter_names()
    ensures
        "status"@ != "method"@,
        "status"@ != "transaction_id"@,
        "method"@ != "transaction_id"@,
{
    reveal_strlit("status");
    reveal_strlit("method");
    reveal_strlit("transaction_id");
    assert("status"@[0] == 's');
    assert("method"@[0] == 'm');
    assert("transaction_id"@[0] == 't');
}

} // verus!
