//! The two-stage QR decoding strategy.
//!
//! First a local attempt: decode the image, find QR grids, decode the first
//! grid found.  Every local failure — an unreadable image, no grid, a grid
//! that will not decode — moves silently to the second stage, which needs a
//! configured session and hands back the remote decode request for the
//! caller's transport to perform.  Only the second stage can fail the
//! operation.

use vstd::prelude::*;

use crate::errors::CoreError;
use crate::gateway::{HttpRequest, TwoFAuthClient};
use crate::vault::Session;

verus! {

use vstd::string::StringSliceAdditionalSpecFns;

/// What the local decoder yields for an image: the content of the first QR
/// grid detected, or nothing when the image does not decode, holds no grid,
/// or the first grid will not read.  A pure function of the bytes.
pub uninterp spec fn local_qr_decode_of(bytes: Seq<u8>) -> Option<Seq<char>>;

/// Relies on `image::load_from_memory` and `DynamicImage::to_luma8` to read
/// the image, and on `rqrr::PreparedImage::prepare`,
/// `PreparedImage::detect_grids` and `Grid::decode` to find and read QR
/// grids.  All are deterministic in the image bytes.  The first grid
/// detected wins; any failure along the way is `None`.
#[verifier::external_body]
fn local_qr_decode(bytes: &[u8]) -> (r: Option<String>)
    ensures
        match r {
            Some(s) => local_qr_decode_of(bytes@) == Some(s@),
            None => local_qr_decode_of(bytes@) is None,
        },
{
    let img = match image::load_from_memory(bytes) {
        Ok(i) => i.to_luma8(),
        Err(_) => return None,
    };
    let mut prepared = rqrr::PreparedImage::prepare(img);
    let grids = prepared.detect_grids();
    match grids.first() {
        Some(grid) => match grid.decode() {
            Ok((_, content)) => Some(content),
            Err(_) => None,
        },
        None => None,
    }
}

/// Decodes a QR code from image bytes locally, with no remote fallback.
///
/// This is the first stage of the strategy on its own, for callers — such as
/// a screen-scanning loop — that want a plain yes-or-no local read: the
/// content of the first grid detected, or `None` for any failure.
pub fn decode_local(bytes: &[u8]) -> (r: Option<String>)
    ensures
        match r {
            Some(s) => local_qr_decode_of(bytes@) == Some(s@),
            None => local_qr_decode_of(bytes@) is None,
        },
{
    local_qr_decode(bytes)
}

/// How one round of the decoding strategy ends.
#[derive(Debug, Clone, PartialEq)]
pub enum QrOutcome {
    /// The local attempt succeeded with this content.
    Decoded(String),
    /// The local attempt failed; the caller performs this request against
    /// the remote decode endpoint and classifies the response.
    RemoteRequest(HttpRequest),
}

/// Runs the strategy as far as it goes without a transport.
///
/// A locally decodable image is decoded outright.  Otherwise the session
/// must be configured — without credentials the result is `NotConfigured`
/// and no remote call is ever attempted — and the remote decode request for
/// these very bytes comes back for the caller to perform.
pub fn decode_qr(session: &Session, image_bytes: Vec<u8>) -> (r: Result<QrOutcome, CoreError>)
    ensures
        match local_qr_decode_of(image_bytes@) {
            Some(content) => r matches Ok(QrOutcome::Decoded(s)) && s@ == content,
            None => match session.credentials {
                None => r == Err::<QrOutcome, CoreError>(CoreError::NotConfigured),
                Some(c) => r matches Ok(QrOutcome::RemoteRequest(req)) && {
                    &&& req.method == crate::gateway::HttpMethod::Post
                    &&& req.url@ == crate::text::strip_trailing_slashes(c.url_bytes())
                        + "/api/v1/qrcode/decode".spec_bytes()
                    &&& req.bearer@ == c.api_token@
                    &&& req.body matches crate::gateway::RequestBody::QrImage(b) && b@
                        == image_bytes@
                },
            },
        },
{
    if let Some(content) = local_qr_decode(image_bytes.as_slice()) {
        return Ok(QrOutcome::Decoded(content));
    }
    match &session.credentials {
        None => Err(CoreError::NotConfigured),
        Some(creds) => {
            let client = TwoFAuthClient::from_credentials(creds);
            Ok(QrOutcome::RemoteRequest(client.decode_qr_request(image_bytes)))
        },
    }
}

} // verus!
