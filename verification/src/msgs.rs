use vstd::prelude::*;
use vstd::string::StringExecFns;

use crate::bytes::{be_merge, dup_bytes, lemma_be_roundtrip, push_u64_be, read_u64_be};
use crate::client::{MockClientState, MockHeader};
use crate::error::ClientError;
use crate::host::{Height, Timestamp};
use crate::identifier::{valid_identifier, ClientId};

verus! {

/// The mathematical model of a protobuf `Any`.
#[verifier::ext_equal]
pub struct ProtoAnyV {
    pub type_url: Seq<char>,
    pub value: Seq<u8>,
}

/// A type-tagged opaque value, as the wire carries it.
#[derive(Debug)]
pub struct ProtoAny {
    pub type_url: String,
    pub value: Vec<u8>,
}

impl View for ProtoAny {
    type V = ProtoAnyV;

    open spec fn view(&self) -> ProtoAnyV {
        ProtoAnyV { type_url: self.type_url@, value: self.value@ }
    }
}

impl Clone for ProtoAny {
    fn clone(&self) -> (r: Self)
        ensures
            r@ == self@,
    {
        ProtoAny { type_url: self.type_url.clone(), value: dup_bytes(&self.value) }
    }
}

pub open spec fn mock_client_state_url_chars() -> Seq<char> {
    "/ibc.mock.ClientState"@
}

pub open spec fn mock_header_url_chars() -> Seq<char> {
    "/ibc.mock.Header"@
}

/// The mock client state a tagged value decodes to, if any: the type
/// url must match, the value must hold two heights and a boolean.
pub open spec fn mock_client_state_of(a: ProtoAnyV) -> Option<MockClientState> {
    if a.type_url == mock_client_state_url_chars() && a.value.len() == 17 && (a.value[16] == 0
        || a.value[16] == 1) {
        Some(
            MockClientState {
                latest_height: Height {
                    revision_number: be_merge(
                        a.value[0],
                        a.value[1],
                        a.value[2],
                        a.value[3],
                        a.value[4],
                        a.value[5],
                        a.value[6],
                        a.value[7],
                    ),
                    revision_height: be_merge(
                        a.value[8],
                        a.value[9],
                        a.value[10],
                        a.value[11],
                        a.value[12],
                        a.value[13],
                        a.value[14],
                        a.value[15],
                    ),
                },
                frozen: a.value[16] == 1,
            },
        )
    } else {
        None
    }
}

/// Wraps a mock client state as a tagged value; decoding gives the
/// state back.
pub fn encode_mock_client_state(cs: &MockClientState) -> (r: ProtoAny)
    ensures
        mock_client_state_of(r@) == Some(*cs),
{
    let mut value: Vec<u8> = Vec::new();
    push_u64_be(&mut value, cs.latest_height.revision_number);
    push_u64_be(&mut value, cs.latest_height.revision_height);
    value.push(if cs.frozen { 1 } else { 0 });
    let r = ProtoAny { type_url: "/ibc.mock.ClientState".to_owned(), value };
    proof {
        lemma_be_roundtrip(cs.latest_height.revision_number);
        lemma_be_roundtrip(cs.latest_height.revision_height);
        assert(mock_client_state_of(r@) == Some(*cs));
    }
    r
}

/// Reads a mock client state out of a tagged value.
pub fn decode_mock_client_state(a: &ProtoAny) -> (r: Option<MockClientState>)
    ensures
        r == mock_client_state_of(a@),
{
    let url = "/ibc.mock.ClientState".to_owned();
    if !(a.type_url == url) {
        return None;
    }
    if a.value.len() != 17 {
        return None;
    }
    let frozen_byte = a.value[16];
    if frozen_byte != 0 && frozen_byte != 1 {
        return None;
    }
    let revision_number = read_u64_be(&a.value, 0);
    let revision_height = read_u64_be(&a.value, 8);
    Some(
        MockClientState {
            latest_height: Height { revision_number, revision_height },
            frozen: frozen_byte == 1,
        },
    )
}

/// The mock header a tagged value decodes to, if any: the type url
/// must match, the value holds a height and a timestamp.
pub open spec fn mock_header_of(a: ProtoAnyV) -> Option<MockHeader> {
    if a.type_url == mock_header_url_chars() && a.value.len() == 24 {
        Some(
            MockHeader {
                height: Height {
                    revision_number: be_merge(
                        a.value[0],
                        a.value[1],
                        a.value[2],
                        a.value[3],
                        a.value[4],
                        a.value[5],
                        a.value[6],
                        a.value[7],
                    ),
                    revision_height: be_merge(
                        a.value[8],
                        a.value[9],
                        a.value[10],
                        a.value[11],
                        a.value[12],
                        a.value[13],
                        a.value[14],
                        a.value[15],
                    ),
                },
                timestamp: Timestamp {
                    nanoseconds: be_merge(
                        a.value[16],
                        a.value[17],
                        a.value[18],
                        a.value[19],
                        a.value[20],
                        a.value[21],
                        a.value[22],
                        a.value[23],
                    ),
                },
            },
        )
    } else {
        None
    }
}

/// Wraps a mock header as a tagged value; decoding gives it back.
pub fn encode_mock_header(h: &MockHeader) -> (r: ProtoAny)
    ensures
        mock_header_of(r@) == Some(*h),
{
    let mut value: Vec<u8> = Vec::new();
    push_u64_be(&mut value, h.height.revision_number);
    push_u64_be(&mut value, h.height.revision_height);
    push_u64_be(&mut value, h.timestamp.nanoseconds);
    let r = ProtoAny { type_url: "/ibc.mock.Header".to_owned(), value };
    proof {
        lemma_be_roundtrip(h.height.revision_number);
        lemma_be_roundtrip(h.height.revision_height);
        lemma_be_roundtrip(h.timestamp.nanoseconds);
        assert(mock_header_of(r@) == Some(*h));
    }
    r
}

/// Reads a mock header out of a tagged value.
pub fn decode_mock_header(a: &ProtoAny) -> (r: Option<MockHeader>)
    ensures
        r == mock_header_of(a@),
{
    let url = "/ibc.mock.Header".to_owned();
    if !(a.type_url == url) {
        return None;
    }
    if a.value.len() != 24 {
        return None;
    }
    let revision_number = read_u64_be(&a.value, 0);
    let revision_height = read_u64_be(&a.value, 8);
    let nanoseconds = read_u64_be(&a.value, 16);
    Some(
        MockHeader {
            height: Height { revision_number, revision_height },
            timestamp: Timestamp { nanoseconds },
        },
    )
}

/// The wire shape of a client-update message, before validation.
#[derive(Debug)]
pub struct RawMsgUpdateClient {
    pub client_id: String,
    pub client_message: Option<ProtoAny>,
    pub signer: String,
}

/// The message that triggers the update of an on-chain client, either
/// with a new header or with evidence of misbehaviour.
#[derive(Debug)]
pub struct MsgUpdateClient {
    pub client_id: ClientId,
    pub client_message: ProtoAny,
    pub signer: String,
}

pub open spec fn update_client_type_url_chars() -> Seq<char> {
    "/ibc.core.client.v1.MsgUpdateClient"@
}

impl MsgUpdateClient {
    /// The type url this message is dispatched under.
    pub fn type_url(&self) -> (r: &'static str)
        ensures
            r@ == update_client_type_url_chars(),
    {
        "/ibc.core.client.v1.MsgUpdateClient"
    }

    /// Validates the wire shape: the client id must be well-formed
    /// and the client message must be present.
    pub fn try_from(raw: RawMsgUpdateClient) -> (r: Result<MsgUpdateClient, ClientError>)
        ensures
            match r {
                Ok(m) => {
                    &&& valid_identifier(raw.client_id@)
                    &&& raw.client_message is Some
                    &&& m.client_id@ == raw.client_id@
                    &&& m.client_message@ == raw.client_message->0@
                    &&& m.signer@ == raw.signer@
                },
                Err(e) => {
                    if !valid_identifier(raw.client_id@) {
                        e == ClientError::InvalidClientIdentifier
                    } else {
                        raw.client_message is None && e == ClientError::MissingClientMessage
                    }
                },
            },
    {
        let client_id = match ClientId::new(raw.client_id) {
            Ok(id) => id,
            Err(_) => {
                return Err(ClientError::InvalidClientIdentifier);
            },
        };
        let client_message = match raw.client_message {
            Some(m) => m,
            None => {
                return Err(ClientError::MissingClientMessage);
            },
        };
        Ok(MsgUpdateClient { client_id, client_message, signer: raw.signer })
    }

    /// The wire shape this message renders back to.
    pub fn into_raw(self) -> (r: RawMsgUpdateClient)
        ensures
            r.client_id@ == self.client_id@,
            r.client_message is Some,
            r.client_message->0@ == self.client_message@,
            r.signer@ == self.signer@,
    {
        let client_id = self.client_id.as_str().to_owned();
        RawMsgUpdateClient {
            client_id,
            client_message: Some(self.client_message),
            signer: self.signer,
        }
    }
}

} // verus!
