use vstd::prelude::*;
use vstd::string::*;
use bytes::BufMut;

use crate::error::{classify, reply_code, CustomError, RejectionInfo};

verus! {

/// Calls `bytes::BufMut::put` for `Vec<u8>` with a byte slice as the source.
/// Its source reserves room for the slice and extends the vector by the
/// slice's bytes; the reservation panics past `isize::MAX` bytes, which the
/// `requires` leaves out.
#[verifier::external_body]
fn put_bytes(buf: &mut Vec<u8>, chunk: &[u8])
    requires
        old(buf)@.len() + chunk@.len() <= isize::MAX,
    ensures
        final(buf)@ == old(buf)@ + chunk@,
{
    buf.put(chunk)
}

/// The bytes of a list of chunks, one after the other.
pub open spec fn joined(chunks: Seq<Seq<u8>>) -> Seq<u8>
    decreases chunks.len(),
{
    if chunks.len() == 0 {
        Seq::empty()
    } else {
        joined(chunks.drop_last()) + chunks.last()
    }
}

pub open spec fn chunk_views(chunks: Seq<Vec<u8>>) -> Seq<Seq<u8>> {
    chunks.map_values(|c: Vec<u8>| c@)
}

/// The bytes of two lists of chunks, one after the other, are the bytes of
/// the first list followed by those of the second; a single chunk gives its
/// own bytes, and no chunks give none.
pub proof fn law_joined_concatenates(a: Seq<Seq<u8>>, b: Seq<Seq<u8>>, c: Seq<u8>)
    ensures
        joined(a + b) == joined(a) + joined(b),
        joined(seq![c]) == c,
        joined(Seq::<Seq<u8>>::empty()) == Seq::<u8>::empty(),
    decreases b.len(),
{
    assert(seq![c].drop_last() =~= Seq::<Seq<u8>>::empty());
    assert(joined(seq![c].drop_last()) == Seq::<u8>::empty());
    assert(seq![c].last() == c);
    assert(Seq::<u8>::empty() + c =~= c);
    assert(joined(seq![c]) == joined(seq![c].drop_last()) + seq![c].last());
    if b.len() == 0 {
        assert(a + b =~= a);
        assert(joined(a) + Seq::<u8>::empty() =~= joined(a));
    } else {
        law_joined_concatenates(a, b.drop_last(), c);
        assert((a + b).drop_last() =~= a + b.drop_last());
        assert((a + b).last() == b.last());
        assert(joined(a + b) =~= joined(a) + joined(b));
    }
}

/// Gathers the chunks of an uploaded file into its bytes.
pub fn join_chunks(chunks: &Vec<Vec<u8>>) -> (file: Vec<u8>)
    requires
        joined(chunk_views(chunks@)).len() <= isize::MAX,
    ensures
        file@ == joined(chunk_views(chunks@)),
{
    let mut file: Vec<u8> = Vec::new();
    let mut i: usize = 0;
    proof {
        assert(chunk_views(chunks@).take(0) =~= Seq::<Seq<u8>>::empty());
    }
    while i < chunks.len()
        invariant
            i <= chunks@.len(),
            file@ == joined(chunk_views(chunks@).take(i as int)),
            joined(chunk_views(chunks@)).len() <= isize::MAX,
        decreases chunks@.len() - i,
    {
        proof {
            let all = chunk_views(chunks@);
            let next = all.take(i + 1);
            assert(next.drop_last() =~= all.take(i as int));
            assert(next.last() == chunks@[i as int]@);
            lemma_joined_prefix_len(all, i + 1);
        }
        put_bytes(&mut file, chunks[i].as_slice());
        i = i + 1;
    }
    proof {
        assert(chunk_views(chunks@).take(chunks@.len() as int) =~= chunk_views(chunks@));
    }
    file
}

/// The bytes of a prefix of the chunks are no more than those of all of them.
proof fn lemma_joined_prefix_len(chunks: Seq<Seq<u8>>, k: int)
    requires
        0 <= k <= chunks.len(),
    ensures
        joined(chunks.take(k)).len() <= joined(chunks).len(),
    decreases chunks.len(),
{
    if k < chunks.len() {
        assert(chunks.drop_last().take(k) =~= chunks.take(k));
        lemma_joined_prefix_len(chunks.drop_last(), k);
    } else {
        assert(chunks.take(k) =~= chunks);
    }
}

/// The three database files that a user can upload.
#[derive(Clone, Copy, Debug, PartialEq, Eq, Structural)]
pub enum UploadKind {
    Score,
    ScoreLog,
    SongData,
}

/// The name of the stored file, without its `.db` extension.
pub open spec fn file_stem(kind: UploadKind) -> Seq<char> {
    match kind {
        UploadKind::Score => "score"@,
        UploadKind::ScoreLog => "score_log"@,
        UploadKind::SongData => "song_data"@,
    }
}

/// Whether the stored scores are looked at again after the upload.
pub open spec fn updates_scores(kind: UploadKind) -> bool {
    kind != UploadKind::SongData
}

/// The directory of a user's uploads.
pub open spec fn dir_path(dir_name: Seq<char>) -> Seq<char> {
    "./files/"@ + dir_name
}

/// Where an uploaded file is stored.
pub open spec fn file_path(dir_name: Seq<char>, kind: UploadKind) -> Seq<char> {
    "./files/"@ + dir_name + "/"@ + file_stem(kind) + ".db"@
}

/// The directory of a user's uploads: `./files/<dir_name>`.
pub fn upload_dir(dir_name: &str) -> (r: String)
    ensures
        r@ == dir_path(dir_name@),
{
    let mut path = String::from_str("./files/");
    path.append(dir_name);
    path
}

/// Where an uploaded file is stored: `./files/<dir_name>/<stem>.db`.
pub fn upload_file_path(dir_name: &str, kind: UploadKind) -> (r: String)
    ensures
        r@ == file_path(dir_name@, kind),
{
    let stem = match kind {
        UploadKind::Score => "score",
        UploadKind::ScoreLog => "score_log",
        UploadKind::SongData => "song_data",
    };
    let mut path = String::from_str("./files/");
    path.append(dir_name);
    path.append("/");
    path.append(stem);
    path.append(".db");
    path
}

/// Why an upload is refused.
#[derive(Clone, Copy, Debug, PartialEq, Eq, Structural)]
pub enum UploadError {
    /// The request is rejected as not found: the form could not be read, or
    /// its first part is not the file.
    Rejected,
    /// The request is rejected with an error of this crate.
    Custom(CustomError),
}

/// How far an upload has come.
#[derive(Clone, Copy, Debug, PartialEq, Eq, Structural)]
pub enum UploadPhase {
    AwaitingParts,
    ReadingFile,
    CreatingDirectory,
    WritingFile,
    ScanningDirectory,
    Finished,
}

/// What happened since the last step.
pub enum UploadEvent {
    /// The form's parts were collected; the name of the first one, if any.
    PartsCollected(Option<String>),
    /// The form could not be read.
    PartsFailed,
    /// Whether the first part's bytes could be read.
    FileRead(bool),
    /// Whether the directory could be created.
    DirectoryCreated(bool),
    /// Whether the file could be written.
    FileWritten(bool),
    /// The directory of the user's uploads was looked at.
    DirectoryScanned,
}

/// What is to be done next.
pub enum UploadAction {
    /// Collect the parts of the multipart form.
    CollectParts,
    /// Read the bytes of the first part.
    ReadFile,
    /// Create this directory and its parents.
    CreateDirectory(String),
    /// Write the bytes read to this file.
    WriteFile(String),
    /// Look at the entries of this directory.
    ScanDirectory(String),
    /// Answer the request.
    Respond(Result<String, UploadError>),
}

/// An action, with its texts taken as character sequences.
pub enum PlannedAction {
    CollectParts,
    ReadFile,
    CreateDirectory(Seq<char>),
    WriteFile(Seq<char>),
    ScanDirectory(Seq<char>),
    Respond(Result<Seq<char>, UploadError>),
}

impl View for UploadAction {
    type V = PlannedAction;

    open spec fn view(&self) -> PlannedAction {
        match self {
            UploadAction::CollectParts => PlannedAction::CollectParts,
            UploadAction::ReadFile => PlannedAction::ReadFile,
            UploadAction::CreateDirectory(p) => PlannedAction::CreateDirectory(p@),
            UploadAction::WriteFile(p) => PlannedAction::WriteFile(p@),
            UploadAction::ScanDirectory(p) => PlannedAction::ScanDirectory(p@),
            UploadAction::Respond(Ok(body)) => PlannedAction::Respond(Ok(body@)),
            UploadAction::Respond(Err(e)) => PlannedAction::Respond(Err(*e)),
        }
    }
}

/// Whether an event is one that can follow the action that a phase was entered with.
pub open spec fn event_fits(phase: UploadPhase, event: UploadEvent) -> bool {
    match phase {
        UploadPhase::AwaitingParts => event is PartsCollected || event is PartsFailed,
        UploadPhase::ReadingFile => event is FileRead,
        UploadPhase::CreatingDirectory => event is DirectoryCreated,
        UploadPhase::WritingFile => event is FileWritten,
        UploadPhase::ScanningDirectory => event is DirectoryScanned,
        UploadPhase::Finished => false,
    }
}

/// Once the file is stored (or there was none), score uploads go on to look
/// at the user's directory; song data is answered with where it was stored.
pub open spec fn after_store(kind: UploadKind, dir_name: Seq<char>, stored: Seq<char>) -> (
    UploadPhase,
    PlannedAction,
) {
    if updates_scores(kind) {
        (UploadPhase::ScanningDirectory, PlannedAction::ScanDirectory(dir_path(dir_name)))
    } else {
        (UploadPhase::Finished, PlannedAction::Respond(Ok(stored)))
    }
}

pub open spec fn refuse(e: UploadError) -> (UploadPhase, PlannedAction) {
    (UploadPhase::Finished, PlannedAction::Respond(Err(e)))
}

/// The next phase and action of an upload of `kind` into the directory
/// `dir_name`, after `event` in `phase`.
pub open spec fn upload_next(
    kind: UploadKind,
    dir_name: Seq<char>,
    phase: UploadPhase,
    event: UploadEvent,
) -> (UploadPhase, PlannedAction) {
    match event {
        UploadEvent::PartsFailed => refuse(UploadError::Rejected),
        UploadEvent::PartsCollected(first) => match first {
            None => after_store(kind, dir_name, Seq::empty()),
            Some(name) => if name@ == "file"@ {
                (UploadPhase::ReadingFile, PlannedAction::ReadFile)
            } else {
                refuse(UploadError::Rejected)
            },
        },
        UploadEvent::FileRead(ok) => if ok {
            (UploadPhase::CreatingDirectory, PlannedAction::CreateDirectory(dir_path(dir_name)))
        } else {
            refuse(UploadError::Custom(CustomError::ReadingFileError))
        },
        UploadEvent::DirectoryCreated(ok) => if ok {
            (UploadPhase::WritingFile, PlannedAction::WriteFile(file_path(dir_name, kind)))
        } else {
            refuse(UploadError::Custom(CustomError::DirectoryCouldNotCreated))
        },
        UploadEvent::FileWritten(ok) => if ok {
            after_store(kind, dir_name, file_path(dir_name, kind))
        } else {
            refuse(UploadError::Custom(CustomError::WritingFileError))
        },
        UploadEvent::DirectoryScanned => (UploadPhase::Finished, PlannedAction::Respond(Ok("aiueo"@))),
    }
}

/// The order in which the phases are gone through.
pub open spec fn phase_rank(phase: UploadPhase) -> int {
    match phase {
        UploadPhase::AwaitingParts => 0,
        UploadPhase::ReadingFile => 1,
        UploadPhase::CreatingDirectory => 2,
        UploadPhase::WritingFile => 3,
        UploadPhase::ScanningDirectory => 4,
        UploadPhase::Finished => 5,
    }
}

/// Every step moves an upload to a later phase, so that an upload is answered
/// after at most five events, and a finished upload takes no event.
pub proof fn law_upload_advances(
    kind: UploadKind,
    dir_name: Seq<char>,
    phase: UploadPhase,
    event: UploadEvent,
)
    requires
        event_fits(phase, event),
    ensures
        phase_rank(upload_next(kind, dir_name, phase, event).0) > phase_rank(phase),
        phase != UploadPhase::Finished,
{
}

/// A step answers the request exactly when it finishes the upload.
pub proof fn law_answer_ends_upload(
    kind: UploadKind,
    dir_name: Seq<char>,
    phase: UploadPhase,
    event: UploadEvent,
)
    requires
        event_fits(phase, event),
    ensures
        (upload_next(kind, dir_name, phase, event).1 is Respond) <==> (upload_next(
            kind,
            dir_name,
            phase,
            event,
        ).0 == UploadPhase::Finished),
{
}

/// The file is written into the directory that was created for it, under the
/// name of its kind; song data is answered with the path it was written to.
pub proof fn law_file_lands_in_created_directory(kind: UploadKind, dir_name: Seq<char>)
    ensures
        ({
            let created = upload_next(kind, dir_name, UploadPhase::ReadingFile, UploadEvent::FileRead(true)).1;
            let written = upload_next(
                kind,
                dir_name,
                UploadPhase::CreatingDirectory,
                UploadEvent::DirectoryCreated(true),
            ).1;
            let answered = upload_next(
                UploadKind::SongData,
                dir_name,
                UploadPhase::WritingFile,
                UploadEvent::FileWritten(true),
            ).1;
            &&& created matches PlannedAction::CreateDirectory(dir)
            &&& written matches PlannedAction::WriteFile(path)
            &&& path == dir + "/"@ + file_stem(kind) + ".db"@
            &&& kind == UploadKind::SongData ==> answered == PlannedAction::Respond(Ok(path))
        }),
{
    assert(file_path(dir_name, kind) =~= dir_path(dir_name) + "/"@ + file_stem(kind) + ".db"@);
}

/// An upload that fails on the server's own disk is answered as a server
/// error (500), one whose file cannot be read as a client error (400), when
/// its rejection reaches `handle_rejection`.
pub proof fn law_upload_failure_status(
    kind: UploadKind,
    dir_name: Seq<char>,
    phase: UploadPhase,
    event: UploadEvent,
    e: CustomError,
    info: RejectionInfo,
)
    requires
        event_fits(phase, event),
        upload_next(kind, dir_name, phase, event).1 == PlannedAction::Respond(
            Err(UploadError::Custom(e)),
        ),
        !info.not_found,
        info.custom == Some(e),
    ensures
        event is FileRead ==> reply_code(classify(info)) == 400,
        !(event is FileRead) ==> reply_code(classify(info)) == 500,
{
}

/// A user's uploads go to `./files/` followed by the whole user id, and each
/// file to that directory, `/`, the name of its kind and `.db`; different
/// user ids get different directories and files.
pub proof fn law_upload_paths(dir_name: Seq<char>, other: Seq<char>, kind: UploadKind)
    ensures
        dir_path(dir_name) == "./files/"@ + dir_name,
        file_path(dir_name, UploadKind::Score) == "./files/"@ + dir_name + "/score.db"@,
        file_path(dir_name, UploadKind::ScoreLog) == "./files/"@ + dir_name + "/score_log.db"@,
        file_path(dir_name, UploadKind::SongData) == "./files/"@ + dir_name + "/song_data.db"@,
        dir_path(dir_name) == dir_path(other) ==> dir_name == other,
        file_path(dir_name, kind) == file_path(other, kind) ==> dir_name == other,
{
    reveal_strlit("./files/");
    reveal_strlit("/");
    reveal_strlit(".db");
    reveal_strlit("score");
    reveal_strlit("score_log");
    reveal_strlit("song_data");
    reveal_strlit("/score.db");
    reveal_strlit("/score_log.db");
    reveal_strlit("/song_data.db");
    let prefix = "./files/"@;
    assert(file_path(dir_name, UploadKind::Score) =~= prefix + dir_name + "/score.db"@);
    assert(file_path(dir_name, UploadKind::ScoreLog) =~= prefix + dir_name + "/score_log.db"@);
    assert(file_path(dir_name, UploadKind::SongData) =~= prefix + dir_name + "/song_data.db"@);
    if dir_path(dir_name) == dir_path(other) {
        assert(dir_name =~= dir_path(dir_name).skip(prefix.len() as int));
        assert(other =~= dir_path(other).skip(prefix.len() as int));
    }
    if file_path(dir_name, kind) == file_path(other, kind) {
        let tail = "/"@ + file_stem(kind) + ".db"@;
        let a = file_path(dir_name, kind);
        let b = file_path(other, kind);
        assert(a =~= prefix + dir_name + tail);
        assert(b =~= prefix + other + tail);
        assert(a.len() == b.len());
        assert(dir_name =~= a.subrange(prefix.len() as int, a.len() - tail.len()));
        assert(other =~= b.subrange(prefix.len() as int, b.len() - tail.len()));
    }
}

/// The course of an upload: the first part must be named `file`; a form
/// without parts stores nothing; a read file leads to creating
/// `./files/<user id>`, a created directory to writing the file there; once
/// stored (or with nothing to store), score and score-log uploads look at the
/// user's directory and are then answered `aiueo`, while song data is
/// answered with where it was stored (empty when nothing was); each failure
/// answers with its own error.
pub proof fn law_upload_course(kind: UploadKind, d: Seq<char>, name: String)
    ensures
        upload_next(kind, d, UploadPhase::AwaitingParts, UploadEvent::PartsCollected(Some(name)))
            == (if name@ == "file"@ {
            (UploadPhase::ReadingFile, PlannedAction::ReadFile)
        } else {
            (UploadPhase::Finished, PlannedAction::Respond(Err(UploadError::Rejected)))
        }),
        upload_next(kind, d, UploadPhase::AwaitingParts, UploadEvent::PartsFailed) == (
            UploadPhase::Finished,
            PlannedAction::Respond(Err(UploadError::Rejected)),
        ),
        upload_next(kind, d, UploadPhase::ReadingFile, UploadEvent::FileRead(true)) == (
            UploadPhase::CreatingDirectory,
            PlannedAction::CreateDirectory("./files/"@ + d),
        ),
        upload_next(kind, d, UploadPhase::ReadingFile, UploadEvent::FileRead(false)) == (
            UploadPhase::Finished,
            PlannedAction::Respond(Err(UploadError::Custom(CustomError::ReadingFileError))),
        ),
        upload_next(kind, d, UploadPhase::CreatingDirectory, UploadEvent::DirectoryCreated(true))
            == (UploadPhase::WritingFile, PlannedAction::WriteFile(file_path(d, kind))),
        upload_next(kind, d, UploadPhase::CreatingDirectory, UploadEvent::DirectoryCreated(false))
            == (
            UploadPhase::Finished,
            PlannedAction::Respond(Err(UploadError::Custom(CustomError::DirectoryCouldNotCreated))),
        ),
        upload_next(kind, d, UploadPhase::WritingFile, UploadEvent::FileWritten(false)) == (
            UploadPhase::Finished,
            PlannedAction::Respond(Err(UploadError::Custom(CustomError::WritingFileError))),
        ),
        kind != UploadKind::SongData ==> {
            &&& upload_next(kind, d, UploadPhase::WritingFile, UploadEvent::FileWritten(true)) == (
                UploadPhase::ScanningDirectory,
                PlannedAction::ScanDirectory("./files/"@ + d),
            )
            &&& upload_next(kind, d, UploadPhase::AwaitingParts, UploadEvent::PartsCollected(None))
                == (UploadPhase::ScanningDirectory, PlannedAction::ScanDirectory("./files/"@ + d))
        },
        kind == UploadKind::SongData ==> {
            &&& upload_next(kind, d, UploadPhase::WritingFile, UploadEvent::FileWritten(true)) == (
                UploadPhase::Finished,
                PlannedAction::Respond(Ok("./files/"@ + d + "/song_data.db"@)),
            )
            &&& upload_next(kind, d, UploadPhase::AwaitingParts, UploadEvent::PartsCollected(None))
                == (UploadPhase::Finished, PlannedAction::Respond(Ok(Seq::empty())))
        },
        upload_next(kind, d, UploadPhase::ScanningDirectory, UploadEvent::DirectoryScanned) == (
            UploadPhase::Finished,
            PlannedAction::Respond(Ok(seq!['a', 'i', 'u', 'e', 'o'])),
        ),
{
    law_upload_paths(d, d, kind);
    reveal_strlit("aiueo");
    assert("aiueo"@ =~= seq!['a', 'i', 'u', 'e', 'o']);
}

/// The upload of one database file of one user.
pub struct UploadSession {
    pub kind: UploadKind,
    pub dir_name: String,
    pub phase: UploadPhase,
}

impl UploadSession {
    /// Starts the upload of a file of `kind` into the user's directory
    /// `dir_name`; the first thing to do is to collect the form's parts.
    pub fn new(kind: UploadKind, dir_name: String) -> (r: (UploadSession, UploadAction))
        ensures
            r.0.kind == kind,
            r.0.dir_name == dir_name,
            r.0.phase == UploadPhase::AwaitingParts,
            r.1@ == PlannedAction::CollectParts,
    {
        (UploadSession { kind, dir_name, phase: UploadPhase::AwaitingParts }, UploadAction::CollectParts)
    }

    fn stored(&mut self, stored: String) -> (action: UploadAction)
        ensures
            (final(self).phase, action@) == after_store(old(self).kind, old(self).dir_name@, stored@),
            final(self).kind == old(self).kind,
            final(self).dir_name == old(self).dir_name,
    {
        match self.kind {
            UploadKind::SongData => {
                self.phase = UploadPhase::Finished;
                UploadAction::Respond(Ok(stored))
            },
            _ => {
                self.phase = UploadPhase::ScanningDirectory;
                UploadAction::ScanDirectory(upload_dir(self.dir_name.as_str()))
            },
        }
    }

    fn refuse(&mut self, e: UploadError) -> (action: UploadAction)
        ensures
            (final(self).phase, action@) == refuse(e),
            final(self).kind == old(self).kind,
            final(self).dir_name == old(self).dir_name,
    {
        self.phase = UploadPhase::Finished;
        UploadAction::Respond(Err(e))
    }

    /// Takes in what happened and says what to do next.
    pub fn step(&mut self, event: UploadEvent) -> (action: UploadAction)
        requires
            event_fits(old(self).phase, event),
        ensures
            (final(self).phase, action@) == upload_next(
                old(self).kind,
                old(self).dir_name@,
                old(self).phase,
                event,
            ),
            final(self).kind == old(self).kind,
            final(self).dir_name == old(self).dir_name,
    {
        match event {
            UploadEvent::PartsFailed => self.refuse(UploadError::Rejected),
            UploadEvent::PartsCollected(first) => match first {
                None => self.stored(String::new()),
                Some(name) => {
                    if name == String::from_str("file") {
                        self.phase = UploadPhase::ReadingFile;
                        UploadAction::ReadFile
                    } else {
                        self.refuse(UploadError::Rejected)
                    }
                },
            },
            UploadEvent::FileRead(ok) => {
                if ok {
                    self.phase = UploadPhase::CreatingDirectory;
                    UploadAction::CreateDirectory(upload_dir(self.dir_name.as_str()))
                } else {
                    self.refuse(UploadError::Custom(CustomError::ReadingFileError))
                }
            },
            UploadEvent::DirectoryCreated(ok) => {
                if ok {
                    self.phase = UploadPhase::WritingFile;
                    UploadAction::WriteFile(upload_file_path(self.dir_name.as_str(), self.kind))
                } else {
                    self.refuse(UploadError::Custom(CustomError::DirectoryCouldNotCreated))
                }
            },
            UploadEvent::FileWritten(ok) => {
                if ok {
                    let path = upload_file_path(self.dir_name.as_str(), self.kind);
                    self.stored(path)
                } else {
                    self.refuse(UploadError::Custom(CustomError::WritingFileError))
                }
            },
            UploadEvent::DirectoryScanned => {
                self.phase = UploadPhase::Finished;
                UploadAction::Respond(Ok(String::from_str("aiueo")))
            },
        }
    }
}

} // verus!
