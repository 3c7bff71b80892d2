//! Staging of uploaded inputs and deferral artifacts, and their reclamation.
//!
//! Everything uploaded for a proof lies in a directory of its own under the upload
//! root, at paths that follow from the proof's uuid.

use vstd::prelude::*;
use vstd::string::*;
use vstd::utf8::encode_utf8;

use crate::encoding::{
    at_most_one_bundle, bundle_error, contents, contents_are_encodable, decode_bundle,
    empty_input, encodable,
    encoded_input, guest_chunks, guest_encoding, guest_error, holds_bundle, plain_input,
    serialize_input, write_chunk,
};
use crate::text::{
    begins_with, decimal, decimal_is_injective, push_usize, strip_prefix,
};

verus! {

/// Where uploads are staged.
pub const UPLOADED_INPUT_ROOT: &'static str = "/dev/shm";

/// The longest proof uuid accepted, in bytes.
pub const MAX_PROOF_UUID_LEN: usize = 256;

/// How long a staged directory may live, unreferenced by an active proof, before it
/// is reclaimed, in seconds. It is set well above the longest a staged file is
/// needed: it is a backstop for orphaned directories.
pub const STALE_UPLOADED_INPUT_TTL: u64 = 600;

/// How often stale directories are looked for, in seconds.
pub const STALE_UPLOADED_INPUT_JANITOR_INTERVAL: u64 = 60;

/// An HTTP answer.
#[derive(Debug)]
pub struct Reply {
    pub status: u16,
    pub body: String,
}

pub const OK: u16 = 200;

pub const BAD_REQUEST: u16 = 400;

pub const REQUEST_TIMEOUT: u16 = 408;

pub const CONFLICT: u16 = 409;

pub const INTERNAL_SERVER_ERROR: u16 = 500;

pub const SERVICE_UNAVAILABLE: u16 = 503;

/// Whether `r` is this answer.
pub open spec fn answers(r: Reply, status: u16, body: Seq<char>) -> bool {
    r.status == status && r.body@ == body
}

fn reply(status: u16, body: &str) -> (r: Reply)
    ensures
        answers(r, status, body@),
{
    Reply { status, body: body.to_owned() }
}

/// Whether a character may stand in a proof uuid.
pub open spec fn is_uuid_char(c: char) -> bool {
    ('a' <= c <= 'z') || ('A' <= c <= 'Z') || ('0' <= c <= '9') || c == '_' || c == '-'
}

/// The length of a text in bytes, which fits in a `usize` for any text in memory.
pub open spec fn byte_len(s: Seq<char>) -> usize {
    encode_utf8(s).len() as usize
}

/// Why a proof uuid is rejected, if it is.
pub open spec fn uuid_rejection(s: Seq<char>) -> Option<Seq<char>> {
    if s.len() == 0 {
        Some("must not be empty"@)
    } else if byte_len(s) > MAX_PROOF_UUID_LEN {
        Some("too long"@)
    } else if exists|i: int| 0 <= i < s.len() && !is_uuid_char(#[trigger] s[i]) {
        Some("contains invalid characters"@)
    } else {
        None
    }
}

/// Check a proof uuid: it is not empty, not too long, and made of ASCII letters,
/// digits, `_` and `-`.
pub fn validate_uploaded_proof_uuid(proof_uuid: &str) -> (r: Result<(), &'static str>)
    ensures
        uuid_rejection(proof_uuid@) is None ==> r is Ok,
        uuid_rejection(proof_uuid@) matches Some(reason) ==> r is Err && r->Err_0@ == reason,
{
    if proof_uuid.is_empty() {
        return Err("must not be empty");
    }
    if proof_uuid.len() > MAX_PROOF_UUID_LEN {
        return Err("too long");
    }
    let n = proof_uuid.unicode_len();
    let mut i: usize = 0;
    while i < n
        invariant
            n == proof_uuid@.len(),
            i <= n,
            forall|j: int| 0 <= j < i ==> is_uuid_char(#[trigger] proof_uuid@[j]),
            proof_uuid@.len() > 0,
            byte_len(proof_uuid@) <= MAX_PROOF_UUID_LEN,
        decreases n - i,
    {
        let c = proof_uuid.get_char(i);
        let allowed = ('a' <= c && c <= 'z') || ('A' <= c && c <= 'Z') || ('0' <= c && c <= '9')
            || c == '_' || c == '-';
        if !allowed {
            assert(!is_uuid_char(proof_uuid@[i as int]));
            return Err("contains invalid characters");
        }
        i = i + 1;
    }
    Ok(())
}

/// The answer to a request with a rejected uuid.
pub open spec fn invalid_uuid_text(reason: Seq<char>) -> Seq<char> {
    "Invalid proof_uuid: "@ + reason
}

/// Turn away a request whose uuid is rejected.
pub fn check_uuid(proof_uuid: &str) -> (r: Result<(), Reply>)
    ensures
        uuid_rejection(proof_uuid@) is None ==> r is Ok,
        uuid_rejection(proof_uuid@) matches Some(reason) ==> r is Err && answers(
            r->Err_0,
            BAD_REQUEST,
            invalid_uuid_text(reason),
        ),
{
    match validate_uploaded_proof_uuid(proof_uuid) {
        Ok(()) => Ok(()),
        Err(reason) => {
            let mut body = "Invalid proof_uuid: ".to_owned();
            body.append(reason);
            Err(Reply { status: BAD_REQUEST, body })
        },
    }
}

/// A path with a relative name joined to it.
pub open spec fn joined_path(dir: Seq<char>, name: Seq<char>) -> Seq<char> {
    if dir.len() == 0 {
        name
    } else if dir.last() == '/' {
        dir + name
    } else {
        dir + "/"@ + name
    }
}

/// Join a relative name to a directory.
pub fn join_path(dir: &str, name: &str) -> (r: String)
    requires
        name@.len() > 0,
        name@[0] != '/',
    ensures
        r@ == joined_path(dir@, name@),
{
    let n = dir.unicode_len();
    if n == 0 {
        return name.to_owned();
    }
    let mut out = dir.to_owned();
    if dir.get_char(n - 1) != '/' {
        out.append("/");
    }
    out.append(name);
    out
}

pub fn uploaded_input_root() -> (r: &'static str)
    ensures
        r@ == "/dev/shm"@,
{
    UPLOADED_INPUT_ROOT
}

/// The name of a proof's directory.
pub open spec fn work_dir_name(proof_uuid: Seq<char>) -> Seq<char> {
    "edge_"@ + proof_uuid
}

/// A proof's directory under `root`.
pub fn uploaded_input_work_dir(root: &str, proof_uuid: &str) -> (r: String)
    ensures
        r@ == joined_path(root@, work_dir_name(proof_uuid@)),
{
    let mut name = "edge_".to_owned();
    name.append(proof_uuid);
    proof {
        reveal_strlit("edge_");
    }
    join_path(root, name.as_str())
}

/// The name of the staged deferral state of a circuit.
pub open spec fn state_filename(circuit_idx: usize) -> Seq<char> {
    "deferral_state_"@ + decimal(circuit_idx as nat) + ".bin"@
}

/// The name of the staged deferral input of a circuit.
pub open spec fn input_filename(circuit_idx: usize) -> Seq<char> {
    "deferral_input_"@ + decimal(circuit_idx as nat) + ".bin"@
}

/// The name of the staged deferral state of a circuit.
pub fn deferral_state_filename(circuit_idx: usize) -> (r: String)
    ensures
        r@ == state_filename(circuit_idx),
{
    let mut out = "deferral_state_".to_owned();
    push_usize(&mut out, circuit_idx);
    out.append(".bin");
    out
}

/// The name of the staged deferral input of a circuit.
pub fn deferral_input_filename(circuit_idx: usize) -> (r: String)
    ensures
        r@ == input_filename(circuit_idx),
{
    let mut out = "deferral_input_".to_owned();
    push_usize(&mut out, circuit_idx);
    out.append(".bin");
    out
}

/// A proof's directory under the upload root.
pub open spec fn staged_dir(proof_uuid: Seq<char>) -> Seq<char> {
    joined_path("/dev/shm"@, work_dir_name(proof_uuid))
}

/// The path of a proof's staged main input.
pub fn staged_input_path(proof_uuid: &str) -> (r: String)
    ensures
        r@ == joined_path(staged_dir(proof_uuid@), "input.bin"@),
{
    let dir = uploaded_input_work_dir(uploaded_input_root(), proof_uuid);
    proof {
        reveal_strlit("input.bin");
    }
    join_path(dir.as_str(), "input.bin")
}

/// The path of a proof's staged deferral state for a circuit.
pub fn staged_deferral_state_path(proof_uuid: &str, circuit_idx: usize) -> (r: String)
    ensures
        r@ == joined_path(staged_dir(proof_uuid@), state_filename(circuit_idx)),
{
    let dir = uploaded_input_work_dir(uploaded_input_root(), proof_uuid);
    let name = deferral_state_filename(circuit_idx);
    proof {
        reveal_strlit("deferral_state_");
    }
    join_path(dir.as_str(), name.as_str())
}

/// The path of a proof's staged deferral input for a circuit.
pub fn staged_deferral_input_path(proof_uuid: &str, circuit_idx: usize) -> (r: String)
    ensures
        r@ == joined_path(staged_dir(proof_uuid@), input_filename(circuit_idx)),
{
    let dir = uploaded_input_work_dir(uploaded_input_root(), proof_uuid);
    let name = deferral_input_filename(circuit_idx);
    proof {
        reveal_strlit("deferral_input_");
    }
    join_path(dir.as_str(), name.as_str())
}

/// The proof whose directory has this name, if it is a proof's directory.
pub fn uploaded_input_proof_uuid_from_path(file_name: &str) -> (r: Option<String>)
    ensures
        r matches Some(uuid) ==> file_name@ == work_dir_name(uuid@),
        r is None ==> !begins_with(file_name@, "edge_"@),
{
    match strip_prefix(file_name, "edge_") {
        Some(rest) => {
            assert(file_name@ =~= file_name@.take("edge_"@.len() as int) + file_name@.skip(
                "edge_"@.len() as int,
            ));
            Some(rest.to_owned())
        },
        None => None,
    }
}

/// Proofs have directories of different names, from which they can be read back.
pub proof fn work_dirs_are_distinct(a: Seq<char>, b: Seq<char>)
    requires
        work_dir_name(a) == work_dir_name(b),
    ensures
        a == b,
{
    assert(a =~= work_dir_name(a).skip("edge_"@.len() as int));
    assert(b =~= work_dir_name(b).skip("edge_"@.len() as int));
}

/// The directory name of a proof is that of a proof's directory.
pub proof fn work_dir_is_recognized(proof_uuid: Seq<char>)
    ensures
        begins_with(work_dir_name(proof_uuid), "edge_"@),
        work_dir_name(proof_uuid).skip("edge_"@.len() as int) == proof_uuid,
{
    assert(work_dir_name(proof_uuid).take("edge_"@.len() as int) =~= "edge_"@);
    assert(work_dir_name(proof_uuid).skip("edge_"@.len() as int) =~= proof_uuid);
}

/// The directory of a proof with an accepted uuid lies directly under the upload
/// root: its name holds no separator and no dot.
pub proof fn accepted_uuid_stays_under_the_root(proof_uuid: Seq<char>)
    requires
        uuid_rejection(proof_uuid) is None,
    ensures
        staged_dir(proof_uuid) == "/dev/shm/"@ + work_dir_name(proof_uuid),
        forall|i: int|
            0 <= i < work_dir_name(proof_uuid).len() ==> is_uuid_char(
                #[trigger] work_dir_name(proof_uuid)[i],
            ),
{
    reveal_strlit("/dev/shm");
    reveal_strlit("/");
    reveal_strlit("/dev/shm/");
    reveal_strlit("edge_");
    assert("/dev/shm"@ + "/"@ =~= "/dev/shm/"@);
    let name = work_dir_name(proof_uuid);
    assert forall|i: int| 0 <= i < name.len() implies is_uuid_char(#[trigger] name[i]) by {
        if i >= 5 {
            assert(name[i] == proof_uuid[i - 5]);
        }
    }
}

/// Within a proof's directory the staged files have different names: a state is
/// never an input or the main input, and different circuits have different files.
pub proof fn staged_names_are_distinct(a: usize, b: usize)
    ensures
        state_filename(a) == state_filename(b) ==> a == b,
        input_filename(a) == input_filename(b) ==> a == b,
        state_filename(a) != input_filename(b),
        state_filename(a) != "input.bin"@,
        input_filename(a) != "input.bin"@,
{
    reveal_strlit("deferral_state_");
    reveal_strlit("deferral_input_");
    reveal_strlit("input.bin");
    reveal_strlit(".bin");
    let da = decimal(a as nat);
    let db = decimal(b as nat);
    if state_filename(a) == state_filename(b) {
        let s = state_filename(a);
        assert(s.len() == 15 + da.len() + 4);
        assert(s.len() == 15 + db.len() + 4);
        assert(da =~= s.subrange(15, s.len() - 4));
        assert(db =~= s.subrange(15, s.len() - 4));
        decimal_is_injective(a as nat, b as nat);
    }
    if input_filename(a) == input_filename(b) {
        let s = input_filename(a);
        assert(s.len() == 15 + da.len() + 4);
        assert(s.len() == 15 + db.len() + 4);
        assert(da =~= s.subrange(15, s.len() - 4));
        assert(db =~= s.subrange(15, s.len() - 4));
        decimal_is_injective(a as nat, b as nat);
    }
    assert(state_filename(a)[9] == 's');
    assert(input_filename(b)[9] == 'i');
    assert(state_filename(a)[0] == 'd');
    assert(input_filename(a)[0] == 'd');
    assert("input.bin"@[0] == 'i');
}

/// In which form a main input is uploaded.
#[derive(Debug, Clone, Copy, PartialEq, Eq, Structural)]
pub enum UploadedInputFormat {
    /// A serialized guest input, staged as it is.
    BincodeStdin,
    /// Raw guest bytes, which are wrapped into a guest input.
    CompactBytes,
}

impl UploadedInputFormat {
    /// The endpoint of the format.
    pub fn label(self) -> (r: &'static str)
        ensures
            r@ == match self {
                UploadedInputFormat::BincodeStdin => "upload_input"@,
                UploadedInputFormat::CompactBytes => "upload_input_compact"@,
            },
    {
        match self {
            UploadedInputFormat::BincodeStdin => "upload_input",
            UploadedInputFormat::CompactBytes => "upload_input_compact",
        }
    }
}

/// The bytes to stage for an uploaded input, if it can be serialized.
pub open spec fn prepared_input(format: UploadedInputFormat, data: Seq<u8>) -> Option<Seq<u8>> {
    match format {
        UploadedInputFormat::BincodeStdin => Some(data),
        UploadedInputFormat::CompactBytes => guest_encoding(seq![data]),
    }
}

/// The bytes to stage for an uploaded input: a serialized input as it is, and compact
/// bytes as the serialized input that holds them as its only element. The execution
/// reads that element back.
pub fn prepare_uploaded_input_bytes(format: UploadedInputFormat, input_data: &[u8]) -> (r: Result<
    Vec<u8>,
    String,
>)
    ensures
        prepared_input(format, input_data@) matches Some(bytes) ==> r is Ok && r->Ok_0@ == bytes,
        prepared_input(format, input_data@) is None ==> r is Err && r->Err_0@ == guest_error(
            seq![input_data@],
        ),
        r is Ok && format == UploadedInputFormat::CompactBytes ==> encoded_input(r->Ok_0@) == Some(
            plain_input(seq![input_data@]),
        ),
{
    match format {
        UploadedInputFormat::BincodeStdin => Ok(vstd::slice::slice_to_vec(input_data)),
        UploadedInputFormat::CompactBytes => {
            let mut input = empty_input();
            write_chunk(&mut input, input_data);
            assert(guest_chunks(input) =~= seq![input_data@]);
            serialize_input(&input)
        },
    }
}

/// A file to be staged: written under a temporary name first, and then renamed.
pub struct StagedFile {
    pub dir: String,
    pub path: String,
    pub temp_path: String,
    pub data: Vec<u8>,
}

/// Whether `file` is to be staged as `name` in `dir`, with these contents.
pub open spec fn stages(
    file: StagedFile,
    dir: Seq<char>,
    name: Seq<char>,
    data: Seq<u8>,
) -> bool {
    &&& file.dir@ == dir
    &&& file.path@ == joined_path(dir, name)
    &&& file.temp_path@ == joined_path(dir, name + ".tmp"@)
    &&& file.data@ == data
}

fn stage(dir: &str, name: &str, data: Vec<u8>) -> (r: StagedFile)
    requires
        name@.len() > 0,
        name@[0] != '/',
    ensures
        stages(r, dir@, name@, data@),
{
    let path = join_path(dir, name);
    let mut temp_name = name.to_owned();
    temp_name.append(".tmp");
    let temp_path = join_path(dir, temp_name.as_str());
    StagedFile { dir: dir.to_owned(), path, temp_path, data }
}

/// Accept an uploaded main input, or turn it away.
pub fn begin_upload(proof_uuid: &str, input_data: &[u8], format: UploadedInputFormat) -> (r: Result<
    StagedFile,
    Reply,
>)
    ensures
        uuid_rejection(proof_uuid@) matches Some(reason) ==> r is Err && answers(
            r->Err_0,
            BAD_REQUEST,
            invalid_uuid_text(reason),
        ),
        uuid_rejection(proof_uuid@) is None ==> match prepared_input(format, input_data@) {
            Some(bytes) => r is Ok && stages(
                r->Ok_0,
                staged_dir(proof_uuid@),
                "input.bin"@,
                bytes,
            ),
            None => r is Err && answers(
                r->Err_0,
                BAD_REQUEST,
                "Invalid input: "@ + guest_error(seq![input_data@]),
            ),
        },
        r is Ok && format == UploadedInputFormat::CompactBytes ==> encoded_input(
            r->Ok_0.data@,
        ) == Some(plain_input(seq![input_data@])),
{
    match check_uuid(proof_uuid) {
        Err(e) => return Err(e),
        Ok(()) => {},
    }
    match prepare_uploaded_input_bytes(format, input_data) {
        Err(e) => {
            let mut body = "Invalid input: ".to_owned();
            body.append(e.as_str());
            Err(Reply { status: BAD_REQUEST, body })
        },
        Ok(bytes) => {
            let dir = uploaded_input_work_dir(uploaded_input_root(), proof_uuid);
            proof {
                reveal_strlit("input.bin");
            }
            Ok(stage(dir.as_str(), "input.bin", bytes))
        },
    }
}

/// What writing a staged file came to.
pub enum WriteOutcome {
    Written,
    Failed { os_error: Option<i32>, text: String },
}

/// Whether an error of the operating system says that no space is left.
pub fn is_no_space_error(raw_os_error: Option<i32>) -> (r: bool)
    ensures
        r == (raw_os_error == Some(28i32)),
{
    match raw_os_error {
        Some(code) => code == 28,
        None => false,
    }
}

/// What follows the writing of a staged file.
pub enum WriteStep {
    /// The file is staged.
    Staged,
    /// Reclaim stale directories, then write once more.
    ReclaimAndRetry,
    Failed(Reply),
}

/// Decide what follows the writing of a staged file. Only a first attempt that found
/// no space is made again. `what` opens the answer to a failure.
pub fn after_write(outcome: WriteOutcome, is_retry: bool, what: &str) -> (r: WriteStep)
    ensures
        outcome is Written ==> r is Staged,
        outcome matches WriteOutcome::Failed { os_error, text } ==> if os_error == Some(28i32)
            && !is_retry {
            r is ReclaimAndRetry
        } else {
            r is Failed && answers(r->Failed_0, INTERNAL_SERVER_ERROR, what@ + text@)
        },
{
    match outcome {
        WriteOutcome::Written => WriteStep::Staged,
        WriteOutcome::Failed { os_error, text } => {
            if is_no_space_error(os_error) && !is_retry {
                return WriteStep::ReclaimAndRetry;
            }
            let mut body = what.to_owned();
            body.append(text.as_str());
            WriteStep::Failed(Reply { status: INTERNAL_SERVER_ERROR, body })
        },
    }
}

/// The text that opens the answer to a failed write of a main input.
pub const INPUT_WRITE_FAILURE: &'static str = "Failed to write input: ";

/// The text that opens the answer to a failed write of a deferral artifact.
pub const DEFERRAL_WRITE_FAILURE: &'static str = "Failed to write deferral artifact: ";

/// The answer once a main input is staged.
pub fn upload_done() -> (r: Reply)
    ensures
        answers(r, OK, "Input file received"@),
{
    reply(OK, "Input file received")
}

/// The answer once all artifacts of a bundle are staged.
pub fn bundle_done() -> (r: Reply)
    ensures
        answers(r, OK, "Deferral artifacts received"@),
{
    reply(OK, "Deferral artifacts received")
}

/// Which artifacts of a deferral proof are uploaded.
#[derive(Debug, Clone, Copy, PartialEq, Eq, Structural)]
pub enum DeferralArtifactKind {
    State,
    Input,
}

impl DeferralArtifactKind {
    pub open spec fn endpoint(self) -> Seq<char> {
        match self {
            DeferralArtifactKind::State => "upload_deferral_state"@,
            DeferralArtifactKind::Input => "upload_deferral_input"@,
        }
    }

    pub open spec fn name_of(self, circuit_idx: usize) -> Seq<char> {
        match self {
            DeferralArtifactKind::State => state_filename(circuit_idx),
            DeferralArtifactKind::Input => input_filename(circuit_idx),
        }
    }

    pub fn label(self) -> (r: &'static str)
        ensures
            r@ == self.endpoint(),
    {
        match self {
            DeferralArtifactKind::State => "upload_deferral_state",
            DeferralArtifactKind::Input => "upload_deferral_input",
        }
    }

    pub fn filename(self, circuit_idx: usize) -> (r: String)
        ensures
            r@ == self.name_of(circuit_idx),
    {
        match self {
            DeferralArtifactKind::State => deferral_state_filename(circuit_idx),
            DeferralArtifactKind::Input => deferral_input_filename(circuit_idx),
        }
    }
}

/// Whether `files` stage the artifacts `items` of a kind for a proof, in order.
pub open spec fn stages_bundle(
    files: Seq<StagedFile>,
    proof_uuid: Seq<char>,
    kind: DeferralArtifactKind,
    items: Seq<Seq<u8>>,
) -> bool {
    files.len() == items.len() && forall|i: int|
        0 <= i < files.len() ==> stages(
            #[trigger] files[i],
            staged_dir(proof_uuid),
            kind.name_of(i as usize),
            items[i],
        )
}

/// The answer to a bundle that does not hold one artifact for each circuit.
pub open spec fn miscounted_text(kind: DeferralArtifactKind, count: nat, expected: nat) -> Seq<char> {
    kind.endpoint() + ": got "@ + decimal(count)
        + " artifact(s) but the loaded deferral keyset expects "@ + decimal(expected)
}

/// Lay out the staging of a decoded bundle. It must hold one artifact for each of the
/// `expected` circuits of the loaded keyset. Outside a deferral deployment there are
/// none, and every bundle is turned away.
pub fn stage_bundle(
    proof_uuid: &str,
    kind: DeferralArtifactKind,
    artifacts: Vec<Vec<u8>>,
    expected: usize,
) -> (r: Result<Vec<StagedFile>, Reply>)
    ensures
        artifacts@.len() != expected || expected == 0 ==> r is Err && answers(
            r->Err_0,
            BAD_REQUEST,
            miscounted_text(kind, artifacts@.len(), expected as nat),
        ),
        artifacts@.len() == expected && expected > 0 ==> r is Ok && stages_bundle(
            r->Ok_0@,
            proof_uuid@,
            kind,
            contents(artifacts@),
        ),
{
    let n = artifacts.len();
    if n != expected || expected == 0 {
        let mut body = kind.label().to_owned();
        body.append(": got ");
        push_usize(&mut body, n);
        body.append(" artifact(s) but the loaded deferral keyset expects ");
        push_usize(&mut body, expected);
        return Err(Reply { status: BAD_REQUEST, body });
    }
    let dir = uploaded_input_work_dir(uploaded_input_root(), proof_uuid);
    let ghost items = contents(artifacts@);
    let ghost all = artifacts@;
    let mut rest = artifacts;
    let mut files: Vec<StagedFile> = Vec::new();
    assert(all.skip(0) =~= all);
    while rest.len() > 0
        invariant
            n == all.len(),
            items == contents(all),
            dir@ == staged_dir(proof_uuid@),
            files@.len() <= n,
            rest@ == all.skip(files@.len() as int),
            forall|i: int|
                0 <= i < files@.len() ==> stages(
                    #[trigger] files@[i],
                    staged_dir(proof_uuid@),
                    kind.name_of(i as usize),
                    items[i],
                ),
        decreases rest@.len(),
    {
        let idx = files.len();
        let data = rest.remove(0);
        assert(data == all[idx as int]);
        assert(rest@ =~= all.skip(idx + 1));
        let name = kind.filename(idx);
        proof {
            reveal_strlit("deferral_state_");
            reveal_strlit("deferral_input_");
        }
        files.push(stage(dir.as_str(), name.as_str(), data));
    }
    Ok(files)
}

/// Accept an uploaded bundle of deferral artifacts, or turn it away. A body holds one
/// bundle at most.
pub fn begin_bundle(
    proof_uuid: &str,
    body: &[u8],
    kind: DeferralArtifactKind,
    expected: usize,
) -> (r: Result<Vec<StagedFile>, Reply>)
    ensures
        uuid_rejection(proof_uuid@) matches Some(reason) ==> r is Err && answers(
            r->Err_0,
            BAD_REQUEST,
            invalid_uuid_text(reason),
        ),
        uuid_rejection(proof_uuid@) is None ==> {
            ||| r is Err && answers(
                r->Err_0,
                BAD_REQUEST,
                kind.endpoint() + ": malformed bundle (expected bincode Vec<Vec<u8>>): "@
                    + bundle_error(body@),
            ) && forall|items: Seq<Seq<u8>>|
                encodable(items) ==> !#[trigger] holds_bundle(body@, items)
            ||| exists|items: Seq<Seq<u8>>| #[trigger]
                holds_bundle(body@, items) && encodable(items) && if items.len() == expected
                    && expected > 0 {
                    r is Ok && stages_bundle(r->Ok_0@, proof_uuid@, kind, items)
                } else {
                    r is Err && answers(
                        r->Err_0,
                        BAD_REQUEST,
                        miscounted_text(kind, items.len(), expected as nat),
                    )
                }
        },
{
    match check_uuid(proof_uuid) {
        Err(e) => return Err(e),
        Ok(()) => {},
    }
    match decode_bundle(body) {
        Err(e) => {
            let mut text = kind.label().to_owned();
            text.append(": malformed bundle (expected bincode Vec<Vec<u8>>): ");
            text.append(e.as_str());
            Err(Reply { status: BAD_REQUEST, body: text })
        },
        Ok(artifacts) => {
            let ghost items = contents(artifacts@);
            proof {
                contents_are_encodable(artifacts);
                assert(holds_bundle(body@, items));
            }
            stage_bundle(proof_uuid, kind, artifacts, expected)
        },
    }
}

/// A text of from 1 to 256 characters, each of them an ASCII letter, a digit, `_` or `-`,
/// is accepted as a proof uuid wherever these stand in it, and nothing else is.
pub proof fn plain_uuids_are_accepted(proof_uuid: &str, r: Result<(), &'static str>)
    requires
        call_ensures(validate_uploaded_proof_uuid, (proof_uuid,), r),
        encode_utf8(proof_uuid@).len() <= usize::MAX,
    ensures
        r is Ok <==> 1 <= proof_uuid@.len() <= 256 && forall|i: int|
            0 <= i < proof_uuid@.len() ==> {
                let c = #[trigger] proof_uuid@[i];
                ('a' <= c <= 'z') || ('A' <= c <= 'Z') || ('0' <= c <= '9') || c == '_' || c == '-'
            },
        proof_uuid@.len() == 0 ==> r is Err && r->Err_0@ == "must not be empty"@,
        encode_utf8(proof_uuid@).len() > 256 ==> r is Err && r->Err_0@ == "too long"@,
        r is Err && 0 < proof_uuid@.len() && encode_utf8(proof_uuid@).len() <= 256
            ==> r->Err_0@ == "contains invalid characters"@,
{
    let s = proof_uuid@;
    if forall|i: int| 0 <= i < s.len() ==> {
        let c = #[trigger] s[i];
        ('a' <= c <= 'z') || ('A' <= c <= 'Z') || ('0' <= c <= '9') || c == '_' || c == '-'
    } {
        assert(vstd::utf8::is_ascii_chars(s));
        vstd::utf8::is_ascii_chars_encode_utf8(s);
    }
}

/// Everything staged for a proof lies in `/dev/shm/edge_<uuid>/`: the main input as
/// `input.bin`, and the artifacts of a circuit under its number.
pub proof fn staged_paths_follow_from_the_uuid(
    proof_uuid: &str,
    circuit_idx: usize,
    input: String,
    state: String,
    deferral_input: String,
)
    requires
        call_ensures(staged_input_path, (proof_uuid,), input),
        call_ensures(staged_deferral_state_path, (proof_uuid, circuit_idx), state),
        call_ensures(staged_deferral_input_path, (proof_uuid, circuit_idx), deferral_input),
        proof_uuid@.len() == 0 || proof_uuid@.last() != '/',
    ensures
        input@ == "/dev/shm/edge_"@ + proof_uuid@ + "/input.bin"@,
        state@ == "/dev/shm/edge_"@ + proof_uuid@ + "/deferral_state_"@ + decimal(
            circuit_idx as nat,
        ) + ".bin"@,
        deferral_input@ == "/dev/shm/edge_"@ + proof_uuid@ + "/deferral_input_"@ + decimal(
            circuit_idx as nat,
        ) + ".bin"@,
{
    input_bin_in(proof_uuid@);
    artifact_in(proof_uuid@, DeferralArtifactKind::State, circuit_idx);
    artifact_in(proof_uuid@, DeferralArtifactKind::Input, circuit_idx);
}

proof fn dir_of_a_proof(proof_uuid: Seq<char>)
    ensures
        staged_dir(proof_uuid) == "/dev/shm/edge_"@ + proof_uuid,
        staged_dir(proof_uuid).len() > 0,
        proof_uuid.len() > 0 ==> staged_dir(proof_uuid).last() == proof_uuid.last(),
        proof_uuid.len() == 0 ==> staged_dir(proof_uuid).last() == '_',
{
    reveal_strlit("/dev/shm");
    reveal_strlit("/");
    reveal_strlit("edge_");
    reveal_strlit("/dev/shm/edge_");
    assert(staged_dir(proof_uuid) =~= "/dev/shm/edge_"@ + proof_uuid);
}

/// A joined path is the directory, one separator and the name; a directory that ends in a
/// separator gets no second one, and an empty one none.
pub proof fn joining_adds_one_separator(dir: &str, name: &str, r: String)
    requires
        call_ensures(join_path, (dir, name), r),
    ensures
        dir@.len() == 0 ==> r@ == name@,
        dir@.len() > 0 && dir@.last() == '/' ==> r@ == dir@ + name@,
        dir@.len() > 0 && dir@.last() != '/' ==> r@ == dir@.push('/') + name@,
{
    reveal_strlit("/");
    if dir@.len() > 0 && dir@.last() != '/' {
        assert(r@ =~= dir@.push('/') + name@);
    }
}

/// The directory of a proof is found again by its name, and only such names are taken
/// for that of a proof's directory.
pub proof fn work_dirs_are_found_again(file_name: &str, r: Option<String>)
    requires
        call_ensures(uploaded_input_proof_uuid_from_path, (file_name,), r),
    ensures
        r matches Some(uuid) ==> file_name@ == "edge_"@ + uuid@,
        forall|uuid: Seq<char>|
            file_name@ == #[trigger] ("edge_"@ + uuid) ==> r is Some && r->0@ == uuid,
{
    assert forall|uuid: Seq<char>| file_name@ == #[trigger] ("edge_"@ + uuid) implies r is Some
        && r->0@ == uuid by {
        assert(file_name@.take("edge_"@.len() as int) =~= "edge_"@);
        assert(file_name@.skip("edge_"@.len() as int) =~= uuid);
        if r is Some {
            assert(file_name@.skip("edge_"@.len() as int) =~= r->0@);
        }
    }
}

/// A plain text is not rejected as a proof uuid.
proof fn plain_uuid_is_not_rejected(s: Seq<char>)
    requires
        1 <= s.len() <= 256,
        forall|i: int|
            0 <= i < s.len() ==> {
                let c = #[trigger] s[i];
                ('a' <= c <= 'z') || ('A' <= c <= 'Z') || ('0' <= c <= '9') || c == '_' || c == '-'
            },
    ensures
        uuid_rejection(s) is None,
{
    assert(vstd::utf8::is_ascii_chars(s));
    vstd::utf8::is_ascii_chars_encode_utf8(s);
}

/// An upload for a plain uuid is staged, whatever it holds if it comes serialized: its
/// bytes go unchanged to the proof's `input.bin`, by way of a temporary name beside it.
pub proof fn serialized_uploads_are_staged_as_they_are(
    proof_uuid: &str,
    input_data: &[u8],
    r: Result<StagedFile, Reply>,
)
    requires
        call_ensures(
            begin_upload,
            (proof_uuid, input_data, UploadedInputFormat::BincodeStdin),
            r,
        ),
        1 <= proof_uuid@.len() <= 256,
        forall|i: int|
            0 <= i < proof_uuid@.len() ==> {
                let c = #[trigger] proof_uuid@[i];
                ('a' <= c <= 'z') || ('A' <= c <= 'Z') || ('0' <= c <= '9') || c == '_' || c == '-'
            },
    ensures
        r is Ok,
        r->Ok_0.data@ == input_data@,
        r->Ok_0.dir@ == "/dev/shm/edge_"@ + proof_uuid@,
        r->Ok_0.path@ == "/dev/shm/edge_"@ + proof_uuid@ + "/input.bin"@,
        r->Ok_0.temp_path@ == "/dev/shm/edge_"@ + proof_uuid@ + "/input.bin.tmp"@,
{
    plain_uuid_is_not_rejected(proof_uuid@);
    dir_of_a_proof(proof_uuid@);
    input_bin_in(proof_uuid@);
}

proof fn input_bin_in(proof_uuid: Seq<char>)
    requires
        proof_uuid.len() == 0 || proof_uuid.last() != '/',
    ensures
        joined_path(staged_dir(proof_uuid), "input.bin"@) == "/dev/shm/edge_"@ + proof_uuid
            + "/input.bin"@,
        joined_path(staged_dir(proof_uuid), "input.bin"@ + ".tmp"@) == "/dev/shm/edge_"@
            + proof_uuid + "/input.bin.tmp"@,
{
    dir_of_a_proof(proof_uuid);
    let dir = staged_dir(proof_uuid);
    reveal_strlit("/");
    reveal_strlit("input.bin");
    reveal_strlit("/input.bin");
    reveal_strlit(".tmp");
    reveal_strlit("/input.bin.tmp");
    path_in(dir, "input.bin"@);
    path_in(dir, "input.bin"@ + ".tmp"@);
    assert("/"@ + "input.bin"@ =~= "/input.bin"@);
    assert("/"@ + ("input.bin"@ + ".tmp"@) =~= "/input.bin.tmp"@);
}

/// A name in a directory that does not end in a separator.
proof fn path_in(dir: Seq<char>, name: Seq<char>)
    requires
        dir.len() > 0,
        dir.last() != '/',
    ensures
        joined_path(dir, name) == dir + ("/"@ + name),
{
    reveal_strlit("/");
    assert(joined_path(dir, name) =~= dir + ("/"@ + name));
}

/// A compact upload for a plain uuid is staged if it can be serialized at all, and the
/// execution then reads the uploaded bytes as the only piece of its input.
pub proof fn compact_uploads_are_read_back(
    proof_uuid: &str,
    input_data: &[u8],
    r: Result<StagedFile, Reply>,
)
    requires
        call_ensures(
            begin_upload,
            (proof_uuid, input_data, UploadedInputFormat::CompactBytes),
            r,
        ),
        1 <= proof_uuid@.len() <= 256,
        forall|i: int|
            0 <= i < proof_uuid@.len() ==> {
                let c = #[trigger] proof_uuid@[i];
                ('a' <= c <= 'z') || ('A' <= c <= 'Z') || ('0' <= c <= '9') || c == '_' || c == '-'
            },
    ensures
        r is Ok <==> guest_encoding(seq![input_data@]) is Some,
        r is Ok ==> {
            &&& r->Ok_0.path@ == "/dev/shm/edge_"@ + proof_uuid@ + "/input.bin"@
            &&& encoded_input(r->Ok_0.data@) matches Some(input)
            &&& input.deferrals.len() == 0
            &&& input.chunks.len() == 1
            &&& input.chunks[0].len() == input_data@.len()
            &&& forall|i: int|
                0 <= i < input_data@.len() ==> #[trigger] input.chunks[0][i] == input_data@[i]
        },
{
    plain_uuid_is_not_rejected(proof_uuid@);
    input_bin_in(proof_uuid@);
}

/// A bundle is staged exactly if it holds one artifact for each circuit and there are
/// circuits: then every artifact goes unchanged to the file of its circuit.
pub proof fn bundles_are_staged_whole(
    proof_uuid: &str,
    kind: DeferralArtifactKind,
    artifacts: Vec<Vec<u8>>,
    expected: usize,
    r: Result<Vec<StagedFile>, Reply>,
)
    requires
        call_ensures(stage_bundle, (proof_uuid, kind, artifacts, expected), r),
        proof_uuid@.len() == 0 || proof_uuid@.last() != '/',
    ensures
        r is Ok <==> artifacts@.len() == expected && expected > 0,
        r is Err ==> r->Err_0.status == 400 && r->Err_0.body@ == (match kind {
            DeferralArtifactKind::State => "upload_deferral_state"@,
            DeferralArtifactKind::Input => "upload_deferral_input"@,
        }) + ": got "@ + decimal(artifacts@.len())
            + " artifact(s) but the loaded deferral keyset expects "@ + decimal(expected as nat),
        r is Ok ==> r->Ok_0@.len() == artifacts@.len(),
        r is Ok ==> forall|i: int|
            0 <= i < artifacts@.len() ==> {
                let file = #[trigger] r->Ok_0@[i];
                &&& file.data@ == artifacts@[i]@
                &&& file.dir@ == "/dev/shm/edge_"@ + proof_uuid@
                &&& file.path@ == "/dev/shm/edge_"@ + proof_uuid@ + match kind {
                    DeferralArtifactKind::State => "/deferral_state_"@,
                    DeferralArtifactKind::Input => "/deferral_input_"@,
                } + decimal(i as nat) + ".bin"@
                &&& file.temp_path@ == file.path@ + ".tmp"@
            },
{
    if r is Ok {
        assert(artifacts@.len() == artifacts.len());
        assert forall|i: int| 0 <= i < artifacts@.len() implies {
            let file = #[trigger] r->Ok_0@[i];
            &&& file.data@ == artifacts@[i]@
            &&& file.dir@ == "/dev/shm/edge_"@ + proof_uuid@
            &&& file.path@ == "/dev/shm/edge_"@ + proof_uuid@ + match kind {
                DeferralArtifactKind::State => "/deferral_state_"@,
                DeferralArtifactKind::Input => "/deferral_input_"@,
            } + decimal(i as nat) + ".bin"@
            &&& file.temp_path@ == file.path@ + ".tmp"@
        } by {
            artifact_in(proof_uuid@, kind, i as usize);
        }
    }
}

proof fn artifact_in(proof_uuid: Seq<char>, kind: DeferralArtifactKind, i: usize)
    ensures
        ({
            let path = "/dev/shm/edge_"@ + proof_uuid + match kind {
                DeferralArtifactKind::State => "/deferral_state_"@,
                DeferralArtifactKind::Input => "/deferral_input_"@,
            } + decimal(i as nat) + ".bin"@;
            &&& staged_dir(proof_uuid) == "/dev/shm/edge_"@ + proof_uuid
            &&& proof_uuid.len() == 0 || proof_uuid.last() != '/' ==> joined_path(
                staged_dir(proof_uuid),
                kind.name_of(i),
            ) == path && joined_path(staged_dir(proof_uuid), kind.name_of(i) + ".tmp"@) == path
                + ".tmp"@
        }),
{
    dir_of_a_proof(proof_uuid);
    let dir = staged_dir(proof_uuid);
    reveal_strlit("/");
    reveal_strlit("deferral_state_");
    reveal_strlit("/deferral_state_");
    reveal_strlit("deferral_input_");
    reveal_strlit("/deferral_input_");
    let (bare, slashed) = match kind {
        DeferralArtifactKind::State => ("deferral_state_"@, "/deferral_state_"@),
        DeferralArtifactKind::Input => ("deferral_input_"@, "/deferral_input_"@),
    };
    let number = decimal(i as nat);
    let name = kind.name_of(i);
    assert(name == bare + number + ".bin"@);
    assert("/"@ + bare =~= slashed);
    assert("/"@ + name =~= slashed + number + ".bin"@);
    assert("/"@ + (name + ".tmp"@) =~= slashed + number + ".bin"@ + ".tmp"@);
    if proof_uuid.len() == 0 || proof_uuid.last() != '/' {
        path_in(dir, name);
        path_in(dir, name + ".tmp"@);
        assert(dir + (slashed + number + ".bin"@) =~= dir + slashed + number + ".bin"@);
        assert(dir + (slashed + number + ".bin"@ + ".tmp"@) =~= dir + slashed + number + ".bin"@
            + ".tmp"@);
    }
}

/// A body that holds a bundle is staged, for a plain uuid, exactly if that bundle has one
/// artifact for each circuit and there are circuits; a body that holds none is refused.
/// Each staged file holds the artifact of its circuit.
pub proof fn uploaded_bundles_are_staged(
    proof_uuid: &str,
    body: &[u8],
    kind: DeferralArtifactKind,
    expected: usize,
    items: Seq<Seq<u8>>,
    r: Result<Vec<StagedFile>, Reply>,
)
    requires
        call_ensures(begin_bundle, (proof_uuid, body, kind, expected), r),
        1 <= proof_uuid@.len() <= 256,
        forall|i: int|
            0 <= i < proof_uuid@.len() ==> {
                let c = #[trigger] proof_uuid@[i];
                ('a' <= c <= 'z') || ('A' <= c <= 'Z') || ('0' <= c <= '9') || c == '_' || c == '-'
            },
        holds_bundle(body@, items),
        encodable(items),
    ensures
        r is Ok <==> items.len() == expected && expected > 0,
        r is Ok ==> {
            &&& r->Ok_0@.len() == items.len()
            &&& forall|i: int|
                0 <= i < items.len() ==> (#[trigger] r->Ok_0@[i]).data@ == items[i]
                    && r->Ok_0@[i].path@ == "/dev/shm/edge_"@ + proof_uuid@ + match kind {
                    DeferralArtifactKind::State => "/deferral_state_"@,
                    DeferralArtifactKind::Input => "/deferral_input_"@,
                } + decimal(i as nat) + ".bin"@
        },
        r is Err ==> r->Err_0.status == 400,
{
    plain_uuid_is_not_rejected(proof_uuid@);
    let held = choose|other: Seq<Seq<u8>>| #[trigger]
        holds_bundle(body@, other) && encodable(other) && if other.len() == expected && expected
            > 0 {
            r is Ok && stages_bundle(r->Ok_0@, proof_uuid@, kind, other)
        } else {
            r is Err && answers(
                r->Err_0,
                BAD_REQUEST,
                miscounted_text(kind, other.len(), expected as nat),
            )
        };
    at_most_one_bundle(body@, items, held);
    if r is Ok {
        assert(r->Ok_0@.len() == r->Ok_0.len());
        assert forall|i: int| 0 <= i < items.len() implies (#[trigger] r->Ok_0@[i]).data@
            == items[i] && r->Ok_0@[i].path@ == "/dev/shm/edge_"@ + proof_uuid@ + match kind {
            DeferralArtifactKind::State => "/deferral_state_"@,
            DeferralArtifactKind::Input => "/deferral_input_"@,
        } + decimal(i as nat) + ".bin"@ by {
            artifact_in(proof_uuid@, kind, i as usize);
        }
    }
}

/// A request with a rejected uuid is turned away by every upload, with the same answer.
pub proof fn uploads_reject_the_same_uuids(
    proof_uuid: &str,
    data: &[u8],
    format: UploadedInputFormat,
    kind: DeferralArtifactKind,
    expected: usize,
    checked: Result<(), Reply>,
    input: Result<StagedFile, Reply>,
    bundle: Result<Vec<StagedFile>, Reply>,
)
    requires
        call_ensures(check_uuid, (proof_uuid,), checked),
        call_ensures(begin_upload, (proof_uuid, data, format), input),
        call_ensures(begin_bundle, (proof_uuid, data, kind, expected), bundle),
        checked is Err,
    ensures
        checked->Err_0.status == 400,
        input is Err && input->Err_0.status == 400 && input->Err_0.body@ == checked->Err_0.body@,
        bundle is Err && bundle->Err_0.status == 400 && bundle->Err_0.body@
            == checked->Err_0.body@,
{
}

/// A write that found no space is made once more, and only once; any other failure is
/// answered at once, and a success ends the matter.
pub proof fn only_a_full_disk_is_retried(
    outcome: WriteOutcome,
    is_retry: bool,
    what: &str,
    r: WriteStep,
)
    requires
        call_ensures(after_write, (outcome, is_retry, what), r),
    ensures
        r is Staged <==> outcome is Written,
        r is ReclaimAndRetry <==> !is_retry && (outcome matches WriteOutcome::Failed {
            os_error,
            ..
        } && os_error == Some(28i32)),
        r is Failed ==> r->Failed_0.status == 500 && r->Failed_0.body@ == what@ + outcome->text@,
{
}

/// The temporary name of a staged file is never that of a staged file.
pub proof fn temporary_names_are_apart(a: usize, b: usize)
    ensures
        state_filename(a) + ".tmp"@ != state_filename(b),
        input_filename(a) + ".tmp"@ != input_filename(b),
        state_filename(a) + ".tmp"@ != input_filename(b),
        input_filename(a) + ".tmp"@ != state_filename(b),
{
    reveal_strlit(".tmp");
    reveal_strlit(".bin");
    assert((state_filename(a) + ".tmp"@).last() == 'p');
    assert((input_filename(a) + ".tmp"@).last() == 'p');
    assert(state_filename(b).last() == 'n');
    assert(input_filename(b).last() == 'n');
}

/// The two kinds of deferral artifacts have their own endpoints, and are staged under
/// their own names.
pub proof fn artifacts_have_their_own_endpoints(
    kind: DeferralArtifactKind,
    circuit_idx: usize,
    label: &'static str,
    name: String,
)
    requires
        call_ensures(DeferralArtifactKind::label, (kind,), label),
        call_ensures(DeferralArtifactKind::filename, (kind, circuit_idx), name),
    ensures
        kind is State ==> label@ == "upload_deferral_state"@ && name@ == "deferral_state_"@
            + decimal(circuit_idx as nat) + ".bin"@,
        kind is Input ==> label@ == "upload_deferral_input"@ && name@ == "deferral_input_"@
            + decimal(circuit_idx as nat) + ".bin"@,
{
}

/// Bytes that are already serialized are taken as they are, and never fail; compact ones
/// become an input of which they are the only piece.
pub proof fn uploads_are_prepared_by_format(
    data: &[u8],
    serialized: Result<Vec<u8>, String>,
    compact: Result<Vec<u8>, String>,
)
    requires
        call_ensures(
            prepare_uploaded_input_bytes,
            (UploadedInputFormat::BincodeStdin, data),
            serialized,
        ),
        call_ensures(
            prepare_uploaded_input_bytes,
            (UploadedInputFormat::CompactBytes, data),
            compact,
        ),
    ensures
        serialized is Ok && serialized->Ok_0@ == data@,
        compact is Ok <==> guest_encoding(seq![data@]) is Some,
        compact is Ok ==> encoded_input(compact->Ok_0@) == Some(plain_input(seq![data@])),
        compact is Err ==> compact->Err_0@ == guest_error(seq![data@]),
{
}

/// A request is turned away for its uuid exactly if that is one that uploads do not accept,
/// and is told why.
pub proof fn rejected_uuids_are_turned_away(
    proof_uuid: &str,
    checked: Result<(), &'static str>,
    r: Result<(), Reply>,
)
    requires
        call_ensures(validate_uploaded_proof_uuid, (proof_uuid,), checked),
        call_ensures(check_uuid, (proof_uuid,), r),
    ensures
        r is Ok <==> checked is Ok,
        r is Err ==> r->Err_0.status == 400 && r->Err_0.body@ == "Invalid proof_uuid: "@
            + checked->Err_0@,
{
}

/// Each format of an upload has its own endpoint.
pub proof fn formats_have_their_own_endpoints(format: UploadedInputFormat, label: &'static str)
    requires
        call_ensures(UploadedInputFormat::label, (format,), label),
    ensures
        format is BincodeStdin ==> label@ == "upload_input"@,
        format is CompactBytes ==> label@ == "upload_input_compact"@,
{
}

} // verus!
