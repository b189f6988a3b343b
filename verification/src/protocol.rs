//! The daemon's line protocol, as plain data: one request object per line in,
//! one response object per line out. The JSON framing itself happens outside
//! the library; these are the decoded shapes.

use crate::encryption_envelope::EncryptionEnvelope;
use crate::types::Algorithm;
use vstd::prelude::*;

verus! {

/// The two operations a request can name.
#[derive(Debug, Clone, Copy, PartialEq, Eq, Structural)]
pub enum Operation {
    Encrypt,
    Decrypt,
}

/// One decoded request line.
#[derive(Debug)]
pub struct Request {
    pub operation: Operation,
    pub data: RequestData,
}

/// The payload of a request. `plaintext` is base64 and empty when absent on
/// the wire; the optional fields are absent where the wire omitted them.
#[derive(Debug)]
pub struct RequestData {
    pub plaintext: String,
    pub key_id: Option<String>,
    pub algorithm: Option<Algorithm>,
    pub envelope: Option<EncryptionEnvelope>,
}

/// One response line. Exactly one of `result` and `error` is present, gated
/// by `success`.
#[derive(Debug)]
pub struct Response {
    pub success: bool,
    pub result: Option<ResponseResult>,
    pub error: Option<String>,
}

/// The success payload: an envelope for encrypt, base64 plaintext for
/// decrypt.
#[derive(Debug)]
pub enum ResponseResult {
    Encrypt { envelope: EncryptionEnvelope },
    Decrypt { plaintext: String },
}

impl Response {
    /// A successful encrypt response carrying the produced envelope.
    pub fn success_encrypt(envelope: EncryptionEnvelope) -> (r: Response)
        ensures
            r.success == true,
            r.result == Some((ResponseResult::Encrypt { envelope })),
            r.error is None,
    {
        Response { success: true, result: Some(ResponseResult::Encrypt { envelope }), error: None }
    }

    /// A successful decrypt response carrying the base64 plaintext.
    pub fn success_decrypt(plaintext: String) -> (r: Response)
        ensures
            r.success == true,
            r.result == Some((ResponseResult::Decrypt { plaintext })),
            r.error is None,
    {
        Response { success: true, result: Some(ResponseResult::Decrypt { plaintext }), error: None }
    }

    /// A failure response carrying only the message.
    pub fn error(message: String) -> (r: Response)
        ensures
            r.success == false,
            r.result is None,
            r.error == Some(message),
    {
        Response { success: false, result: None, error: Some(message) }
    }
}

} // verus!
