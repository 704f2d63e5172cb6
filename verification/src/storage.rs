//! A model of the store the uploads land in: the set of directories that
//! exist and the contents of each report file, keyed by path. Directory
//! creation is idempotent and a persisted upload overwrites the branch's
//! file in full, so an upload is one insertion into each component. The
//! laws below treat each file write as atomic, as the design calls for.

use vstd::prelude::*;

use crate::codec::base64_decoding;
use crate::framing::stripped;
use crate::paths::{directory_path, lemma_distinct_identifiers_distinct_paths, report_path};
use crate::protocol::{branch_of, frame_complete, ingestion, payload_of, OutcomeModel};

verus! {

/// The parts of the filesystem the service touches: which directories
/// exist, and what each report file holds.
#[verifier::ext_equal]
pub struct StoreModel {
    pub directories: Set<Seq<char>>,
    pub files: Map<Seq<char>, Seq<u8>>,
}

/// The store after one successful upload for a branch: the branch's
/// directory exists and its report file holds exactly the decoded bytes,
/// replacing whatever was there before.
pub open spec fn upload(m: StoreModel, identifier: Seq<char>, content: Seq<u8>) -> StoreModel {
    StoreModel {
        directories: m.directories.insert(directory_path(identifier)),
        files: m.files.insert(report_path(identifier), content),
    }
}

/// The store after one connection's outcome is applied to it: the
/// directory that was ensured, if any, exists, and the file that was
/// written, if any, holds its new content.
pub open spec fn apply_outcome(m: StoreModel, o: OutcomeModel) -> StoreModel {
    let ensured = match o.directory {
        Some(d) => StoreModel { directories: m.directories.insert(d), files: m.files },
        None => m,
    };
    match o.file {
        Some(f) => StoreModel { directories: ensured.directories, files: ensured.files.insert(f.0, f.1) },
        None => ensured,
    }
}

/// A connection that completes the protocol changes the store exactly as
/// one upload for its branch: its directory exists and its report file
/// holds the decoded payload.
pub proof fn lemma_completed_outcome_is_upload(m: StoreModel, stream: Seq<u8>)
    requires
        frame_complete(stream),
        base64_decoding(stripped(payload_of(stream))) is Some,
    ensures
        base64_decoding(stripped(payload_of(stream))) matches Some(content) ==> apply_outcome(
            m,
            ingestion(stream),
        ) == upload(m, branch_of(stream), content),
{
}

/// A connection that aborts — a short frame, or a payload the codec
/// rejects — writes no file: every report keeps its prior content.
pub proof fn lemma_aborted_outcome_writes_no_file(m: StoreModel, stream: Seq<u8>)
    requires
        !frame_complete(stream) || base64_decoding(stripped(payload_of(stream))) is None,
    ensures
        apply_outcome(m, ingestion(stream)).files == m.files,
{
}

/// Law (idempotence): uploading the same identifier and content twice in
/// sequence leaves the store exactly as one upload does — the second write
/// overwrites, it never appends.
pub proof fn lemma_upload_idempotent(m: StoreModel, identifier: Seq<char>, content: Seq<u8>)
    ensures
        upload(upload(m, identifier, content), identifier, content) == upload(
            m,
            identifier,
            content,
        ),
{
    assert(upload(upload(m, identifier, content), identifier, content) =~~= upload(
        m,
        identifier,
        content,
    ));
}

/// Law (isolation): uploads for two different identifiers never interfere.
/// They land in different directories and files, compose the same way in
/// either order, and each branch's file holds its own content afterwards.
pub proof fn lemma_distinct_uploads_independent(
    m: StoreModel,
    a: Seq<char>,
    content_a: Seq<u8>,
    b: Seq<char>,
    content_b: Seq<u8>,
)
    requires
        a != b,
    ensures
        upload(upload(m, a, content_a), b, content_b) == upload(upload(m, b, content_b), a, content_a),
        upload(upload(m, a, content_a), b, content_b).files[report_path(a)] == content_a,
        upload(upload(m, a, content_a), b, content_b).files[report_path(b)] == content_b,
{
    lemma_distinct_identifiers_distinct_paths(a, b);
    assert(upload(upload(m, a, content_a), b, content_b) =~~= upload(
        upload(m, b, content_b),
        a,
        content_a,
    ));
}

/// Law (same branch, atomic writes): two uploads for one identifier leave
/// the file holding whichever content was written last — one of the two
/// payloads in full, never a mixture.
pub proof fn lemma_same_branch_last_upload_wins(
    m: StoreModel,
    identifier: Seq<char>,
    first: Seq<u8>,
    second: Seq<u8>,
)
    ensures
        upload(upload(m, identifier, first), identifier, second).files[report_path(identifier)]
            == second,
        upload(upload(m, identifier, first), identifier, second).files[report_path(identifier)]
            == second || upload(upload(m, identifier, first), identifier, second).files[report_path(
            identifier,
        )] == first,
{
}

} // verus!
