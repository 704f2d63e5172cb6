//! The per-connection ingestion protocol: a client sends a 4-byte
//! big-endian identifier length, that many identifier bytes, and then a
//! base64 payload (optionally wrapped in one `~` on each side) until it
//! closes its sending side. The server acknowledges twice with `OK`: once
//! after the branch directory exists, once after the report is persisted.
//!
//! `Connection` is the protocol state machine: each transition states
//! exactly which state follows which event. `ingest` is the same protocol
//! seen from the data alone — what one complete client stream leads to
//! when every filesystem and socket operation succeeds.

use vstd::pervasive::unreached;
use vstd::prelude::*;

use crate::codec::{base64_decoding, decode_base64, encode_base64, lossy_decode, lossy_text};
use crate::framing::{
    be32, be32_bytes, be32_value, strip_delimiters, stripped, subvec, wrap_delimiters,
};
use crate::paths::{branch_directory, branch_report_file, directory_path, report_path};

verus! {

/// The states of one connection, in protocol order. Every read, write,
/// directory or decode failure up to and including persistence aborts to
/// `Aborted`; a failure of the second acknowledgment or of the final
/// shutdown is logged by the caller and changes nothing, so those steps
/// have no failure transition.
pub enum Connection {
    /// Waiting for the 4-byte big-endian identifier length.
    AwaitLength,
    /// Waiting for exactly `length` identifier bytes.
    AwaitIdentifier { length: u32 },
    /// The identifier is decoded; its directory must be created.
    CreateDirectory { identifier: String },
    /// The directory exists; the first `OK` must be sent.
    SendFirstAck { identifier: String },
    /// Waiting for the payload: everything until the peer closes.
    AwaitPayload { identifier: String },
    /// The payload decoded; the report must be written to the branch file.
    Persist { identifier: String, report: Vec<u8> },
    /// The report is stored; the second `OK` must be sent.
    SendSecondAck,
    /// Both acknowledgments are out; the connection must be shut down.
    Close,
    /// The protocol ran to its end.
    Done,
    /// The connection failed; nothing further is sent.
    Aborted,
}

impl Connection {
    /// A fresh connection waits for the length field.
    pub fn begin() -> (c: Connection)
        ensures
            c is AwaitLength,
    {
        Connection::AwaitLength
    }

    /// The four length bytes arrived: wait for that many identifier bytes.
    pub fn length_received(self, frame: &[u8; 4]) -> (next: Connection)
        requires
            self is AwaitLength,
        ensures
            next matches Connection::AwaitIdentifier { length } && length as int == be32(frame@),
    {
        let n = be32_value(frame[0], frame[1], frame[2], frame[3]);
        proof {
            assert(seq![frame@[0], frame@[1], frame@[2], frame@[3]] =~= frame@);
        }
        Connection::AwaitIdentifier { length: n }
    }

    /// The identifier bytes arrived, as many as the length announced:
    /// decode them lossily and move on to creating the directory.
    pub fn identifier_received(self, bytes: &Vec<u8>) -> (next: Connection)
        requires
            self matches Connection::AwaitIdentifier { length } && bytes@.len() == length,
        ensures
            next matches Connection::CreateDirectory { identifier } && identifier@ == lossy_text(
                bytes@,
            ),
    {
        let identifier = lossy_decode(bytes);
        Connection::CreateDirectory { identifier }
    }

    /// The directory the caller must create for this connection.
    pub fn directory(&self) -> (p: String)
        requires
            self is CreateDirectory,
        ensures
            p@ == directory_path(self->CreateDirectory_identifier@),
    {
        if let Connection::CreateDirectory { identifier } = self {
            branch_directory(identifier.as_str())
        } else {
            unreached()
        }
    }

    /// The branch directory exists (created now, or there already): the
    /// first acknowledgment is owed.
    pub fn directory_created(self) -> (next: Connection)
        requires
            self is CreateDirectory,
        ensures
            next matches Connection::SendFirstAck { identifier } && identifier@
                == self->CreateDirectory_identifier@,
    {
        if let Connection::CreateDirectory { identifier } = self {
            Connection::SendFirstAck { identifier }
        } else {
            unreached()
        }
    }

    /// The first `OK` went out: wait for the payload.
    pub fn first_ack_sent(self) -> (next: Connection)
        requires
            self is SendFirstAck,
        ensures
            next matches Connection::AwaitPayload { identifier } && identifier@
                == self->SendFirstAck_identifier@,
    {
        if let Connection::SendFirstAck { identifier } = self {
            Connection::AwaitPayload { identifier }
        } else {
            unreached()
        }
    }

    /// The peer closed its sending side and the whole payload is in:
    /// strip the delimiters and decode. A payload the codec accepts moves
    /// to persistence; a malformed one aborts — after the first
    /// acknowledgment, so the client only sees the missing second `OK`.
    pub fn payload_received(self, payload: &Vec<u8>) -> (next: Connection)
        requires
            self is AwaitPayload,
        ensures
            base64_decoding(stripped(payload@)) matches Some(content) ==> next
                matches Connection::Persist { identifier, report } && identifier@
                == self->AwaitPayload_identifier@ && report@ == content,
            base64_decoding(stripped(payload@)) is None ==> next is Aborted,
    {
        let trimmed = strip_delimiters(payload);
        match decode_base64(&trimmed) {
            Some(report) => {
                if let Connection::AwaitPayload { identifier } = self {
                    Connection::Persist { identifier, report }
                } else {
                    unreached()
                }
            },
            None => Connection::Aborted,
        }
    }

    /// The file the caller must write the decoded report to.
    pub fn report_file(&self) -> (p: String)
        requires
            self is Persist,
        ensures
            p@ == report_path(self->Persist_identifier@),
    {
        if let Connection::Persist { identifier, .. } = self {
            branch_report_file(identifier.as_str())
        } else {
            unreached()
        }
    }

    /// The report is on disk: the second acknowledgment is owed.
    pub fn report_persisted(self) -> (next: Connection)
        requires
            self is Persist,
        ensures
            next is SendSecondAck,
    {
        Connection::SendSecondAck
    }

    /// The second `OK` was attempted. Whether or not it went out, the
    /// upload stands; a write failure is only logged by the caller.
    pub fn second_ack_finished(self) -> (next: Connection)
        requires
            self is SendSecondAck,
        ensures
            next is Close,
    {
        Connection::Close
    }

    /// Both directions are shut down. A shutdown failure is only logged.
    pub fn connection_closed(self) -> (next: Connection)
        requires
            self is Close,
        ensures
            next is Done,
    {
        Connection::Done
    }

    /// A read, write, directory or decode failure before the report was
    /// persisted: the connection aborts and nothing further is sent.
    pub fn failed(self) -> (next: Connection)
        requires
            !(self is SendSecondAck),
            !(self is Close),
            !(self is Done),
            !(self is Aborted),
        ensures
            next is Aborted,
    {
        Connection::Aborted
    }
}

/// The identifier length a stream's first four bytes announce.
pub open spec fn frame_length(stream: Seq<u8>) -> int {
    be32(stream.subrange(0, 4))
}

/// Whether the stream holds its length field and the announced number of
/// identifier bytes. An incomplete frame aborts before anything is sent.
pub open spec fn frame_complete(stream: Seq<u8>) -> bool {
    stream.len() >= 4 && stream.len() - 4 >= frame_length(stream)
}

/// The identifier bytes of a complete stream.
pub open spec fn identifier_bytes(stream: Seq<u8>) -> Seq<u8> {
    stream.subrange(4, 4 + frame_length(stream))
}

/// The branch identifier: the identifier bytes, decoded lossily.
pub open spec fn branch_of(stream: Seq<u8>) -> Seq<char> {
    lossy_text(identifier_bytes(stream))
}

/// Everything after the identifier: the payload, as sent.
pub open spec fn payload_of(stream: Seq<u8>) -> Seq<u8> {
    stream.subrange(4 + frame_length(stream), stream.len() as int)
}

/// What one connection leaves behind: how many `OK` acknowledgments went
/// out, which directory was ensured, which file was written with what
/// content, and whether the protocol ran to its end.
#[verifier::ext_equal]
pub struct OutcomeModel {
    pub acknowledgments: int,
    pub directory: Option<Seq<char>>,
    pub file: Option<(Seq<char>, Seq<u8>)>,
    pub completed: bool,
}

/// The outcome the protocol assigns to a complete client stream, when
/// every socket and filesystem operation succeeds. A short stream aborts
/// silently; a malformed payload aborts after the first acknowledgment;
/// otherwise the branch's file holds the decoded payload and both
/// acknowledgments went out.
pub open spec fn ingestion(stream: Seq<u8>) -> OutcomeModel {
    if !frame_complete(stream) {
        OutcomeModel { acknowledgments: 0, directory: None, file: None, completed: false }
    } else {
        match base64_decoding(stripped(payload_of(stream))) {
            Some(content) => OutcomeModel {
                acknowledgments: 2,
                directory: Some(directory_path(branch_of(stream))),
                file: Some((report_path(branch_of(stream)), content)),
                completed: true,
            },
            None => OutcomeModel {
                acknowledgments: 1,
                directory: Some(directory_path(branch_of(stream))),
                file: None,
                completed: false,
            },
        }
    }
}

/// A report write: the file's path and its full new content.
pub struct FileWrite {
    pub path: String,
    pub content: Vec<u8>,
}

/// The executable record of one connection's outcome.
pub struct Outcome {
    pub acknowledgments: usize,
    pub directory: Option<String>,
    pub file: Option<FileWrite>,
    pub completed: bool,
}

impl View for Outcome {
    type V = OutcomeModel;

    open spec fn view(&self) -> OutcomeModel {
        OutcomeModel {
            acknowledgments: self.acknowledgments as int,
            directory: match self.directory {
                Some(d) => Some(d@),
                None => None,
            },
            file: match self.file {
                Some(f) => Some((f.path@, f.content@)),
                None => None,
            },
            completed: self.completed,
        }
    }
}

/// Runs the whole protocol over one complete client stream, with every
/// socket and filesystem operation taken as successful: exactly the
/// composition of the state machine's successful transitions.
pub fn ingest(stream: &Vec<u8>) -> (out: Outcome)
    ensures
        out@ == ingestion(stream@),
{
    let conn = Connection::begin();
    if stream.len() < 4 {
        // the length field itself is short: the read fails, silently
        let _ = conn.failed();
        let out = Outcome { acknowledgments: 0, directory: None, file: None, completed: false };
        proof {
            assert(out@ =~~= ingestion(stream@));
        }
        return out;
    }
    let frame: [u8; 4] = [stream[0], stream[1], stream[2], stream[3]];
    proof {
        assert(frame@ =~= stream@.subrange(0, 4));
    }
    let conn = conn.length_received(&frame);
    let length: u32 = match &conn {
        Connection::AwaitIdentifier { length } => *length,
        _ => unreached(),
    };
    if stream.len() - 4 < length as usize {
        // the stream ends inside the identifier: the exact read fails
        let _ = conn.failed();
        let out = Outcome { acknowledgments: 0, directory: None, file: None, completed: false };
        proof {
            assert(!frame_complete(stream@));
            assert(out@ =~~= ingestion(stream@));
        }
        return out;
    }
    let ident_bytes = subvec(stream, 4, 4 + length as usize);
    proof {
        assert(ident_bytes@ == identifier_bytes(stream@));
    }
    let conn = conn.identifier_received(&ident_bytes);
    let directory = conn.directory();
    let conn = conn.directory_created();
    let conn = conn.first_ack_sent();
    let payload = subvec(stream, 4 + length as usize, stream.len());
    proof {
        assert(payload@ == payload_of(stream@));
    }
    let conn = conn.payload_received(&payload);
    if matches!(conn, Connection::Aborted) {
        let out = Outcome {
            acknowledgments: 1,
            directory: Some(directory),
            file: None,
            completed: false,
        };
        proof {
            assert(out@ =~~= ingestion(stream@));
        }
        return out;
    }
    let path = conn.report_file();
    let content = match &conn {
        Connection::Persist { report, .. } => subvec(report, 0, report.len()),
        _ => unreached(),
    };
    proof {
        assert(content@ =~= conn->Persist_report@);
    }
    let conn = conn.report_persisted();
    let conn = conn.second_ack_finished();
    let conn = conn.connection_closed();
    let out = Outcome {
        acknowledgments: 2,
        directory: Some(directory),
        file: Some(FileWrite { path, content }),
        completed: true,
    };
    proof {
        assert(conn is Done);
        assert(out@ =~~= ingestion(stream@));
    }
    out
}

/// Law: a connection that completes the full protocol — its frame is
/// whole and its payload decodes — leaves exactly one file, at the
/// branch's report path, holding the base64 decoding of the stripped
/// payload, and the client has received exactly two acknowledgments.
pub proof fn lemma_complete_protocol(stream: Seq<u8>)
    requires
        frame_complete(stream),
        base64_decoding(stripped(payload_of(stream))) is Some,
    ensures
        ingestion(stream).completed,
        ingestion(stream).acknowledgments == 2,
        ingestion(stream).directory == Some(directory_path(branch_of(stream))),
        base64_decoding(stripped(payload_of(stream))) matches Some(content) ==> ingestion(
            stream,
        ).file == Some((report_path(branch_of(stream)), content)),
{
}

/// A stream that ends inside the length field or the identifier aborts
/// silently: no acknowledgment, no directory, no file.
pub proof fn lemma_incomplete_frame_aborts_silently(stream: Seq<u8>)
    requires
        !frame_complete(stream),
    ensures
        ingestion(stream).acknowledgments == 0,
        ingestion(stream).directory is None,
        ingestion(stream).file is None,
        !ingestion(stream).completed,
{
}

/// A payload the codec rejects aborts only after the first acknowledgment
/// went out: the client holds one `OK`, yet no file was written. Its only
/// failure signal is the missing second `OK`.
pub proof fn lemma_malformed_payload_aborts_after_first_ack(stream: Seq<u8>)
    requires
        frame_complete(stream),
        base64_decoding(stripped(payload_of(stream))) is None,
    ensures
        ingestion(stream).acknowledgments == 1,
        ingestion(stream).directory == Some(directory_path(branch_of(stream))),
        ingestion(stream).file is None,
        !ingestion(stream).completed,
{
}

/// Law (round trip): encoding arbitrary bytes as base64, wrapping the
/// text in one delimiter on each side, framing an identifier in front and
/// sending the whole stream through the protocol stores exactly the
/// original bytes, at the branch's report path.
pub fn round_trip_upload(identifier: &Vec<u8>, report: &Vec<u8>) -> (out: Outcome)
    requires
        identifier@.len() <= 0xffff_ffff,
    ensures
        out@.completed,
        out@.acknowledgments == 2,
        out@.directory == Some(directory_path(lossy_text(identifier@))),
        out@.file matches Some(f) && f.0 == report_path(lossy_text(identifier@)) && f.1 == report@,
{
    let mut stream = be32_bytes(identifier.len() as u32);
    let ghost header = stream@;
    append_bytes(&mut stream, identifier);
    let encoded = encode_base64(report);
    let wrapped = wrap_delimiters(&encoded);
    append_bytes(&mut stream, &wrapped);
    proof {
        assert(stream@.subrange(0, 4) =~= header);
        assert(frame_length(stream@) == identifier@.len());
        assert(frame_complete(stream@));
        assert(identifier_bytes(stream@) =~= identifier@);
        assert(payload_of(stream@) =~= wrapped@);
        crate::framing::lemma_strip_wrapped(encoded@);
    }
    ingest(&stream)
}

/// Appends all of `src` to the end of `dst`.
fn append_bytes(dst: &mut Vec<u8>, src: &Vec<u8>)
    ensures
        final (dst)@ == old(dst)@ + src@,
{
    let mut i: usize = 0;
    while i < src.len()
        invariant
            i <= src@.len(),
            dst@ == old(dst)@ + src@.subrange(0, i as int),
        decreases src@.len() - i,
    {
        dst.push(src[i]);
        proof {
            assert(dst@ =~= old(dst)@ + src@.subrange(0, i + 1));
        }
        i = i + 1;
    }
    proof {
        assert(src@.subrange(0, src@.len() as int) =~= src@);
    }
}

} // verus!
