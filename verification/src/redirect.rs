use vstd::prelude::*;
use crate::error::UpdateError;

verus! {

/// The status code that announces a redirect.
pub const REDIRECT_STATUS: u16 = 302;

/// The value of the `Accept` header sent with every asset request.
pub open spec fn accept_value() -> Seq<char> {
    "application/octet-stream"@
}

/// A GET request for an asset.
#[derive(Clone, Debug)]
pub struct AssetRequest {
    pub url: String,
    pub accept: String,
}

/// What to do with the first response to an asset request.
#[derive(Clone, Debug)]
pub enum Resolution {
    /// The response is no redirect: its body is the asset.
    UseBody,
    /// The response is a redirect: send this one further request and take
    /// the body of whatever comes back.
    Follow(AssetRequest),
}

/// The request that fetches the asset at `url`.
pub fn asset_request(url: &str) -> (request: AssetRequest)
    ensures
        request.url@ == url@,
        request.accept@ == accept_value(),
{
    AssetRequest { url: url.to_owned(), accept: "application/octet-stream".to_owned() }
}

/// Decides on the first response, given its status and its `Location`
/// header if it has one. A redirect is followed once, to the location it
/// names and with the same `Accept` header; a redirect that names none is
/// an error. Any other status ends the exchange, whatever it is.
pub fn resolve(status: u16, location: Option<&str>) -> (r: Result<Resolution, UpdateError>)
    ensures
        match r {
            Ok(Resolution::UseBody) => status != REDIRECT_STATUS,
            Ok(Resolution::Follow(next)) => status == REDIRECT_STATUS && location is Some
                && next.url@ == location.unwrap()@ && next.accept@ == accept_value(),
            Err(e) => status == REDIRECT_STATUS && location is None && e
                == UpdateError::MissingRedirectTarget,
        },
{
    if status != REDIRECT_STATUS {
        Ok(Resolution::UseBody)
    } else {
        match location {
            None => Err(UpdateError::MissingRedirectTarget),
            Some(target) => Ok(Resolution::Follow(asset_request(target))),
        }
    }
}

} // verus!
