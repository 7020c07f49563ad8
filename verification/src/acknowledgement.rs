use vstd::prelude::*;
use vstd::string::StringExecFns;

use crate::error::PacketError;

verus! {

/// The text preceding every error acknowledgement. Changing it is
/// state-machine breaking, as acknowledgements are written into state.
pub open spec fn ack_err_prefix() -> Seq<char> {
    "error handling packet on destination chain: see events for details"@
}

/// The string constant included in error acknowledgements.
pub fn ack_err_str() -> (r: &'static str)
    ensures
        r@ == ack_err_prefix(),
{
    "error handling packet on destination chain: see events for details"
}

/// The UTF-8 encoding of a text, as `String::into_bytes` yields it.
pub uninterp spec fn utf8_bytes(s: Seq<char>) -> Seq<u8>;

/// Relies on String::into_bytes: the UTF-8 encoding of the text, a
/// function of the characters alone; every character takes at least
/// one byte.
#[verifier::external_body]
fn string_into_bytes(s: String) -> (r: Vec<u8>)
    ensures
        r@ == utf8_bytes(s@),
        r@.len() >= s@.len(),
{
    s.into_bytes()
}

/// A generic acknowledgement that modules may interpret as they like.
/// An acknowledgement is never empty.
#[derive(Debug)]
pub struct Acknowledgement(Vec<u8>);

impl View for Acknowledgement {
    type V = Seq<u8>;

    closed spec fn view(&self) -> Seq<u8> {
        self.0@
    }
}

impl Acknowledgement {
    /// Accepts any non-empty byte sequence; the empty one is forbidden.
    pub fn new(bytes: Vec<u8>) -> (r: Result<Acknowledgement, PacketError>)
        ensures
            match r {
                Ok(a) => bytes@.len() > 0 && a@ == bytes@,
                Err(e) => bytes@.len() == 0 && e == PacketError::InvalidAcknowledgement,
            },
    {
        if bytes.len() == 0 {
            Err(PacketError::InvalidAcknowledgement)
        } else {
            Ok(Acknowledgement(bytes))
        }
    }

    /// The data as a byte vector, borrowed.
    pub fn bytes_vec(&self) -> (r: &Vec<u8>)
        ensures
            r@ == self@,
    {
        &self.0
    }

    /// The data as a slice of bytes.
    pub fn as_bytes(&self) -> (r: &[u8])
        ensures
            r@ == self@,
    {
        self.0.as_slice()
    }
}

impl Clone for Acknowledgement {
    fn clone(&self) -> (r: Self)
        ensures
            r@ == self@,
    {
        let mut bytes: Vec<u8> = Vec::new();
        let n = self.0.len();
        let mut i: usize = 0;
        while i < n
            invariant
                n == self.0@.len(),
                i <= n,
                bytes@ == self.0@.subrange(0, i as int),
            decreases n - i,
        {
            bytes.push(self.0[i]);
            proof {
                assert(bytes@ =~= self.0@.subrange(0, i + 1));
            }
            i = i + 1;
        }
        proof {
            assert(bytes@ =~= self.0@);
        }
        Acknowledgement(bytes)
    }
}

/// The canonical application-level acknowledgement shape: either a
/// successful result or an error text, rendered as a one-field JSON
/// object.
#[derive(Debug)]
pub enum AcknowledgementResult {
    /// Successful acknowledgement, e.g. `{"result":"AQ=="}`.
    Success(String),
    /// Error acknowledgement, e.g. `{"error":"cannot unmarshal ..."}`.
    Error(String),
}

/// The JSON rendering of an acknowledgement result.
pub open spec fn ack_json_chars(success: bool, text: Seq<char>) -> Seq<char> {
    if success {
        "{\"result\":\""@ + text + "\"}"@
    } else {
        "{\"error\":\""@ + text + "\"}"@
    }
}

impl AcknowledgementResult {
    pub open spec fn is_success(&self) -> bool {
        match self {
            AcknowledgementResult::Success(_) => true,
            AcknowledgementResult::Error(_) => false,
        }
    }

    /// The payload text: the result on success, the message on error.
    pub open spec fn text(&self) -> Seq<char> {
        match self {
            AcknowledgementResult::Success(s) => s@,
            AcknowledgementResult::Error(s) => s@,
        }
    }

    pub fn success(res: &str) -> (r: Self)
        ensures
            r.is_success(),
            r.text() == res@,
    {
        AcknowledgementResult::Success(res.to_owned())
    }

    /// Wraps an application error message behind the fixed prefix.
    pub fn from_error(err: &str) -> (r: Self)
        ensures
            !r.is_success(),
            r.text() == ack_err_prefix() + ": "@ + err@,
    {
        let mut s = ack_err_str().to_owned();
        s.append(": ");
        s.append(err);
        AcknowledgementResult::Error(s)
    }

    pub fn is_successful(&self) -> (r: bool)
        ensures
            r == self.is_success(),
    {
        matches!(self, AcknowledgementResult::Success(_))
    }

    /// The JSON text this acknowledgement serializes to.
    pub fn to_json(&self) -> (r: String)
        ensures
            r@ == ack_json_chars(self.is_success(), self.text()),
    {
        let mut s = String::new();
        match self {
            AcknowledgementResult::Success(text) => {
                s.append("{\"result\":\"");
                s.append(text.as_str());
                s.append("\"}");
            },
            AcknowledgementResult::Error(text) => {
                s.append("{\"error\":\"");
                s.append(text.as_str());
                s.append("\"}");
            },
        }
        s
    }

    /// The JSON text as bytes; never empty, whatever the payload.
    pub fn to_vec(&self) -> (r: Vec<u8>)
        ensures
            r@ == utf8_bytes(ack_json_chars(self.is_success(), self.text())),
            r@.len() > 0,
    {
        let json = self.to_json();
        proof {
            reveal_strlit("{\"result\":\"");
            reveal_strlit("{\"error\":\"");
            reveal_strlit("\"}");
        }
        string_into_bytes(json)
    }

    /// Every acknowledgement result converts to a valid (non-empty)
    /// acknowledgement.
    pub fn into_acknowledgement(&self) -> (r: Acknowledgement)
        ensures
            r@ == utf8_bytes(ack_json_chars(self.is_success(), self.text())),
    {
        let bytes = self.to_vec();
        match Acknowledgement::new(bytes) {
            Ok(a) => a,
            Err(_) => {
                proof {
                    assert(false);
                }
                Acknowledgement(Vec::new())
            },
        }
    }
}

} // verus!
