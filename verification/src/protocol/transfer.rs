//! Metadata of file transfers.
//!
//! A share packet announces a file over the control connection; its bytes
//! stream raw over a second TLS connection that the receiver dials to the
//! announced port.
use super::fields;
use crate::json;
use crate::json::{Json, JsonView, Record};
use vstd::prelude::*;

verus! {

/// Most bytes that the receive engine takes at a time.
pub const CHUNK_SIZE: usize = 65536;

/// Read/write granularity for payload streams.
pub const PAYLOAD_CHUNK_SIZE: usize = 4096;

/// First port the sender tries for the data connection.
pub const PAYLOAD_PORT_MIN: u16 = 1739;

/// Last port the sender tries for the data connection.
pub const PAYLOAD_PORT_MAX: u16 = 1764;

/// Seconds a sender waits for the receiver to dial the data connection.
pub const PAYLOAD_ACCEPT_TIMEOUT: u64 = 10;

/// Seconds a receiver waits for the next payload bytes before aborting.
pub const PAYLOAD_READ_TIMEOUT: u64 = 30;

/// Sentinel for a sender that did not announce a size.
pub const UNKNOWN_SIZE: u64 = 0xffff_ffff_ffff_ffff;

/// Metadata describing a single file transfer; `S` is the type of its texts.
#[derive(Debug, PartialEq, Eq)]
pub struct TransferMeta<S = String> {
    /// Unique id correlating the control packets with the streamed payload.
    pub transfer_id: S,
    /// Peer device id this transfer belongs to.
    pub device_id: S,
    /// Name of the file being transferred.
    pub file_name: S,
    /// Total size of the file in bytes; [`UNKNOWN_SIZE`] where the sender
    /// gave none, and then the size is not checked.
    pub file_size: u64,
}

impl View for TransferMeta<String> {
    type V = TransferMeta<Seq<char>>;

    open spec fn view(&self) -> TransferMeta<Seq<char>> {
        TransferMeta {
            transfer_id: self.transfer_id@,
            device_id: self.device_id@,
            file_name: self.file_name@,
            file_size: self.file_size,
        }
    }
}

/// Whether a transfer moves data towards or away from the peer.
#[derive(Debug, Clone, Copy, PartialEq, Eq)]
pub enum TransferDirection {
    /// We are sending the file to the peer.
    Upload,
    /// The peer is sending the file to us.
    Download,
}

/// The document of a transfer's metadata.
pub open spec fn meta_json(m: TransferMeta<Seq<char>>) -> JsonView {
    JsonView::Object(
        Map::<Seq<char>, JsonView>::empty()
            .insert("transfer_id"@, JsonView::Str(m.transfer_id))
            .insert("device_id"@, JsonView::Str(m.device_id))
            .insert("file_name"@, JsonView::Str(m.file_name))
            .insert("file_size"@, JsonView::Int(m.file_size as int)),
    )
}

/// An unsigned number that has to be there.
pub open spec fn required_count(f: fields::Field) -> Option<u64> {
    match f {
        fields::Field::Value(v) => json::as_uint(v),
        _ => None,
    }
}

/// The metadata that a document holds, if it does.
pub open spec fn meta_of(j: JsonView) -> Option<TransferMeta<Seq<char>>> {
    match (
        fields::required_text(fields::field(j, 0, "transfer_id"@, "transfer_id"@)),
        fields::required_text(fields::field(j, 1, "device_id"@, "device_id"@)),
        fields::required_text(fields::field(j, 2, "file_name"@, "file_name"@)),
        required_count(fields::field(j, 3, "file_size"@, "file_size"@)),
    ) {
        (
            Some(transfer_id),
            Some(device_id),
            Some(file_name),
            Some(file_size),
        ) if fields::is_structure(j, 4) => Some(
            TransferMeta { transfer_id, device_id, file_name, file_size },
        ),
        _ => None,
    }
}

impl TransferMeta<String> {
    /// The document of this metadata.
    pub fn to_json(&self) -> (r: Json)
        ensures
            r@ == meta_json(self@),
    {
        Record::new()
            .with("transfer_id", Json::text(self.transfer_id.as_str()))
            .with("device_id", Json::text(self.device_id.as_str()))
            .with("file_name", Json::text(self.file_name.as_str()))
            .with("file_size", Json::Uint(self.file_size))
            .done()
    }

    /// Reads the metadata that a document holds.
    pub fn from_json(j: &Json) -> (r: Option<TransferMeta>)
        ensures
            match r {
                Some(meta) => meta_of(j@) == Some(meta@),
                None => meta_of(j@) is None,
            },
    {
        if !fields::holds_structure(j, 4) {
            return None;
        }
        let transfer_id = fields::find(j, 0, "transfer_id", "transfer_id").required_text();
        let device_id = fields::find(j, 1, "device_id", "device_id").required_text();
        let file_name = fields::find(j, 2, "file_name", "file_name").required_text();
        let file_size = match fields::find(j, 3, "file_size", "file_size") {
            fields::Found::Value(v) => v.as_u64(),
            _ => None,
        };
        match (transfer_id, device_id, file_name, file_size) {
            (Some(transfer_id), Some(device_id), Some(file_name), Some(file_size)) => Some(
                TransferMeta { transfer_id, device_id, file_name, file_size },
            ),
            _ => None,
        }
    }
}

proof fn lemma_meta_names()
    ensures
        "transfer_id"@ != "device_id"@,
        "transfer_id"@ != "file_name"@,
        "transfer_id"@ != "file_size"@,
        "device_id"@ != "file_name"@,
        "device_id"@ != "file_size"@,
        "file_name"@ != "file_size"@,
{
    reveal_strlit("transfer_id");
    reveal_strlit("device_id");
    reveal_strlit("file_name");
    reveal_strlit("file_size");
    assert("transfer_id"@.len() == 11);
    assert("device_id"@.len() == 9);
    assert("file_name"@.len() == 9);
    assert("file_size"@.len() == 9);
    assert("device_id"@[0] != "file_name"@[0]);
    assert("device_id"@[0] != "file_size"@[0]);
    assert("file_name"@[5] != "file_size"@[5]);
}

/// Reading the document of a transfer's metadata gives the metadata back.
pub proof fn law_meta_round_trip(m: TransferMeta<Seq<char>>)
    ensures
        meta_of(meta_json(m)) == Some(m),
{
    lemma_meta_names();
}

/// The document of a transfer's metadata gives each part under its own name.
pub proof fn law_meta_is_written_by_name(m: TransferMeta<Seq<char>>)
    ensures
        ({
            let j = meta_json(m);
            &&& json::text_at(j, "transfer_id"@) == Some(m.transfer_id)
            &&& json::text_at(j, "device_id"@) == Some(m.device_id)
            &&& json::text_at(j, "file_name"@) == Some(m.file_name)
            &&& json::count_at(j, "file_size"@) == Some(m.file_size)
        }),
{
    lemma_meta_names();
}

} // verus!
