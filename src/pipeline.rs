use vstd::prelude::*;
use vstd::string::*;

use crate::ident::{all_alphanumeric, gen_rand_id};
use crate::paths::{join_path, joined};

verus! {

/// Length of the identifier drawn for each upload.
pub const ID_LEN: usize = 12;

/// Width of a derived thumbnail, in pixels.
pub const THUMBNAIL_WIDTH: u16 = 100;

/// Height of a derived thumbnail, in pixels.
pub const THUMBNAIL_HEIGHT: u16 = 100;

/// Settings of the upload service.
#[derive(Debug, Clone)]
pub struct Config {
    pub host: String,
    pub port: u16,
    pub uploads_dir: String,
    pub max_json_payload_size: usize,
}

/// A stored upload: its identifier, the path of the primary file and, when it
/// could be derived, the path of its thumbnail.
#[derive(Debug, Clone)]
pub struct UploadedFile {
    pub id: String,
    pub path: String,
    pub thumbnail_path: Option<String>,
}

/// Why an upload failed: through the client (its stream, its content) or
/// through the server's own storage. The text describes the cause.
#[derive(Debug, Clone)]
pub enum UploadError {
    Client(String),
    Server(String),
}

/// Where an upload stands.
#[derive(Debug, Clone, Copy, PartialEq, Eq, Structural)]
pub enum Phase {
    /// Waiting for the temporary file to be created.
    Creating,
    /// Waiting for the next chunk of the source stream.
    Streaming,
    /// Waiting for a chunk to be written to the temporary file.
    Writing,
    /// Waiting for the temporary file to be flushed.
    Flushing,
    /// Waiting for the temporary file to be deleted after a failure.
    Removing,
    /// Waiting for the temporary file to be renamed to its final name.
    Renaming,
    /// Waiting for the thumbnail derivation.
    Thumbnailing,
    /// The outcome has been handed out.
    Finished,
}

/// What the environment reports back after performing an action.
#[derive(Debug)]
pub enum Event {
    /// The temporary file was created empty.
    Created,
    /// The temporary file could not be created.
    CreateFailed(String),
    /// The source stream yielded a chunk.
    Chunk(Vec<u8>),
    /// The source stream failed.
    SourceFailed(String),
    /// The source stream ended.
    EndOfStream,
    /// The chunk was appended to the temporary file.
    Written,
    /// The chunk could not be written.
    WriteFailed(String),
    /// The temporary file was flushed.
    Flushed,
    /// The temporary file could not be flushed.
    FlushFailed(String),
    /// The temporary file was deleted.
    Removed,
    /// The temporary file now stands under its final name.
    Renamed,
    /// The rename failed.
    RenameFailed(String),
    /// The thumbnail was written.
    ThumbnailCreated,
    /// The thumbnail could not be derived.
    ThumbnailFailed(String),
}

/// What the environment is asked to do next.
#[derive(Debug)]
pub enum Action {
    /// Create (or truncate) the file at this path.
    CreateTemp(String),
    /// Read the next chunk of the source stream.
    ReadChunk,
    /// Append these bytes to the temporary file.
    Write(Vec<u8>),
    /// Flush the temporary file.
    Flush,
    /// Delete the file at this path.
    RemoveTemp(String),
    /// Rename the first path to the second.
    Rename(String, String),
    /// Derive a thumbnail of the first file into the second, at this width
    /// and height.
    DeriveThumbnail(String, String, u16, u16),
    /// The upload is over, with this outcome.
    Finish(Result<UploadedFile, UploadError>),
}

/// File name of the temporary file of upload `id`.
pub open spec fn temp_name(id: Seq<char>) -> Seq<char> {
    id + ".tmp"@
}

/// File name of the primary file of upload `id`.
pub open spec fn primary_name(id: Seq<char>, ext: Seq<char>) -> Seq<char> {
    id + "."@ + ext
}

/// File name of the thumbnail of upload `id`.
pub open spec fn thumbnail_name(id: Seq<char>, ext: Seq<char>) -> Seq<char> {
    id + "_thumbnail."@ + ext
}

/// Which events each phase waits for.
pub open spec fn expects(phase: Phase, event: Event) -> bool {
    match phase {
        Phase::Creating => event is Created || event is CreateFailed,
        Phase::Streaming => event is Chunk || event is SourceFailed || event is EndOfStream,
        Phase::Writing => event is Written || event is WriteFailed,
        Phase::Flushing => event is Flushed || event is FlushFailed,
        Phase::Removing => event is Removed,
        Phase::Renaming => event is Renamed || event is RenameFailed,
        Phase::Thumbnailing => event is ThumbnailCreated || event is ThumbnailFailed,
        Phase::Finished => false,
    }
}

/// One upload from a chunk stream into `{dir}/{id}.{ext}`, driven by events.
///
/// Beside the executable state it keeps a model: the chunks received from the
/// source so far and their bytes, and the contents of the temporary and of the primary file
/// (`None` while the file does not exist), as the reported events leave them.
pub struct Upload {
    id: String,
    tmp_path: String,
    upload_path: String,
    thumbnail_path: String,
    phase: Phase,
    pending: Option<UploadError>,
    dir: Ghost<Seq<char>>,
    ext: Ghost<Seq<char>>,
    chunks: Ghost<Seq<Seq<u8>>>,
    received: Ghost<Seq<u8>>,
    in_flight: Ghost<Seq<u8>>,
    temp: Ghost<Option<Seq<u8>>>,
    primary: Ghost<Option<Seq<u8>>>,
}

impl Upload {
    /// The upload's identifier.
    pub closed spec fn id(&self) -> Seq<char> {
        self.id@
    }

    /// The directory the upload is stored in.
    pub closed spec fn dir(&self) -> Seq<char> {
        self.dir@
    }

    /// The extension of the stored files.
    pub closed spec fn ext(&self) -> Seq<char> {
        self.ext@
    }

    /// Path of the temporary file.
    pub closed spec fn tmp_path(&self) -> Seq<char> {
        self.tmp_path@
    }

    /// Path of the primary file.
    pub closed spec fn upload_path(&self) -> Seq<char> {
        self.upload_path@
    }

    /// Path of the thumbnail.
    pub closed spec fn thumbnail_path(&self) -> Seq<char> {
        self.thumbnail_path@
    }

    /// The current phase.
    pub closed spec fn phase(&self) -> Phase {
        self.phase
    }

    /// The error reported once the temporary file is deleted.
    pub closed spec fn pending(&self) -> Option<UploadError> {
        self.pending
    }

    /// The chunks received from the source, in order.
    pub closed spec fn chunks(&self) -> Seq<Seq<u8>> {
        self.chunks@
    }

    /// All bytes received from the source, in order.
    pub closed spec fn received(&self) -> Seq<u8> {
        self.received@
    }

    /// Contents of the temporary file, `None` when it does not exist.
    pub closed spec fn temp_file(&self) -> Option<Seq<u8>> {
        self.temp@
    }

    /// Contents of the primary file, `None` when it does not exist.
    pub closed spec fn primary_file(&self) -> Option<Seq<u8>> {
        self.primary@
    }

    /// The state is consistent: the paths derive from the identifier, and the
    /// model matches the phase.
    pub closed spec fn wf(&self) -> bool {
        &&& self.id@.len() == ID_LEN
        &&& all_alphanumeric(self.id@)
        &&& self.tmp_path@ == joined(self.dir@, temp_name(self.id@))
        &&& self.upload_path@ == joined(self.dir@, primary_name(self.id@, self.ext@))
        &&& self.thumbnail_path@ == joined(self.dir@, thumbnail_name(self.id@, self.ext@))
        &&& (self.phase == Phase::Removing <==> self.pending is Some)
        &&& self.received@ == self.chunks@.flatten()
        &&& match self.phase {
            Phase::Creating => self.temp@ is None && self.primary@ is None
                && self.received@ == Seq::<u8>::empty(),
            Phase::Streaming | Phase::Flushing | Phase::Renaming => self.temp@ == Some(
                self.received@,
            ) && self.primary@ is None,
            Phase::Writing => self.temp@ is Some && self.temp@.unwrap() + self.in_flight@
                == self.received@ && self.primary@ is None,
            Phase::Removing => self.temp@ is Some && self.primary@ is None,
            Phase::Thumbnailing => self.temp@ is None && self.primary@ == Some(self.received@),
            Phase::Finished => self.temp@ is None && (self.primary@ is None || self.primary@
                == Some(self.received@)),
        }
    }

    /// Whether `event` is one the current phase waits for.
    pub fn accepts(&self, event: &Event) -> (r: bool)
        ensures
            r == expects(self.phase(), *event),
    {
        match self.phase {
            Phase::Creating => matches!(event, Event::Created | Event::CreateFailed(_)),
            Phase::Streaming => matches!(
                event,
                Event::Chunk(_) | Event::SourceFailed(_) | Event::EndOfStream
            ),
            Phase::Writing => matches!(event, Event::Written | Event::WriteFailed(_)),
            Phase::Flushing => matches!(event, Event::Flushed | Event::FlushFailed(_)),
            Phase::Removing => matches!(event, Event::Removed),
            Phase::Renaming => matches!(event, Event::Renamed | Event::RenameFailed(_)),
            Phase::Thumbnailing => matches!(
                event,
                Event::ThumbnailCreated | Event::ThumbnailFailed(_)
            ),
            Phase::Finished => false,
        }
    }

    /// The current phase.
    pub fn current_phase(&self) -> (p: Phase)
        ensures
            p == self.phase(),
    {
        self.phase
    }

    /// The upload's identifier.
    pub fn id_str(&self) -> (r: &str)
        ensures
            r@ == self.id(),
    {
        self.id.as_str()
    }

    /// Handles one reported event and says what to do next.
    ///
    /// Bytes reach the model only through `Chunk`, appended in order. The
    /// temporary file is deleted on every failure before the error is handed
    /// out, so no finished upload leaves it behind; the primary file appears
    /// only by renaming the complete temporary file. A thumbnail failure still
    /// finishes with the stored file.
    pub fn step(&mut self, event: Event) -> (a: Action)
        requires
            old(self).wf(),
            expects(old(self).phase(), event),
        ensures
            final(self).wf(),
            final(self).id() == old(self).id(),
            final(self).dir() == old(self).dir(),
            final(self).ext() == old(self).ext(),
            final(self).tmp_path() == old(self).tmp_path(),
            final(self).upload_path() == old(self).upload_path(),
            final(self).thumbnail_path() == old(self).thumbnail_path(),
            match event {
                Event::Chunk(c) => {
                    &&& final(self).chunks() == old(self).chunks().push(c@)
                    &&& final(self).received() == old(self).received() + c@
                },
                _ => {
                    &&& final(self).chunks() == old(self).chunks()
                    &&& final(self).received() == old(self).received()
                },
            },
            final(self).phase() == Phase::Finished ==> final(self).temp_file() is None,
            a matches Action::Finish(Ok(f)) ==> {
                &&& final(self).primary_file() == Some(final(self).received())
                &&& final(self).primary_file() == Some(final(self).chunks().flatten())
                &&& f.id@ == final(self).id()
                &&& f.path@ == final(self).upload_path()
            },
            a matches Action::Finish(Err(_)) ==> final(self).primary_file() is None,
            a is Finish <==> final(self).phase() == Phase::Finished,
            match (old(self).phase(), event) {
                (Phase::Creating, Event::Created) => {
                    &&& final(self).phase() == Phase::Streaming
                    &&& final(self).temp_file() == Some(Seq::<u8>::empty())
                    &&& a is ReadChunk
                },
                (Phase::Creating, Event::CreateFailed(m)) => {
                    a matches Action::Finish(Err(UploadError::Server(x))) && x@ == m@
                },
                (Phase::Streaming, Event::Chunk(c)) => {
                    &&& final(self).phase() == Phase::Writing
                    &&& (a matches Action::Write(w) && w@ == c@)
                },
                (Phase::Streaming, Event::SourceFailed(m)) => {
                    &&& final(self).phase() == Phase::Removing
                    &&& (final(self).pending() matches Some(UploadError::Client(x)) && x@ == m@)
                    &&& (a matches Action::RemoveTemp(t) && t@ == old(self).tmp_path())
                },
                (Phase::Streaming, Event::EndOfStream) => {
                    &&& final(self).phase() == Phase::Flushing
                    &&& a is Flush
                },
                (Phase::Writing, Event::Written) => {
                    &&& final(self).phase() == Phase::Streaming
                    &&& final(self).temp_file() == Some(final(self).received())
                    &&& a is ReadChunk
                },
                (Phase::Writing, Event::WriteFailed(m)) => {
                    &&& final(self).phase() == Phase::Removing
                    &&& (final(self).pending() matches Some(UploadError::Server(x)) && x@ == m@)
                    &&& (a matches Action::RemoveTemp(t) && t@ == old(self).tmp_path())
                },
                (Phase::Flushing, Event::Flushed) => {
                    &&& final(self).phase() == Phase::Renaming
                    &&& (a matches Action::Rename(from, to) && from@ == old(self).tmp_path() && to@
                        == old(self).upload_path())
                },
                (Phase::Flushing, Event::FlushFailed(m)) => {
                    &&& final(self).phase() == Phase::Removing
                    &&& (final(self).pending() matches Some(UploadError::Server(x)) && x@ == m@)
                    &&& (a matches Action::RemoveTemp(t) && t@ == old(self).tmp_path())
                },
                (Phase::Removing, Event::Removed) => {
                    &&& final(self).temp_file() is None
                    &&& a == Action::Finish(Err(old(self).pending().unwrap()))
                },
                (Phase::Renaming, Event::Renamed) => {
                    &&& final(self).phase() == Phase::Thumbnailing
                    &&& final(self).primary_file() == Some(final(self).received())
                    &&& final(self).temp_file() is None
                    &&& (a matches Action::DeriveThumbnail(src, dest, w, h) && src@ == old(
                        self,
                    ).upload_path() && dest@ == old(self).thumbnail_path() && w == THUMBNAIL_WIDTH
                        && h == THUMBNAIL_HEIGHT)
                },
                (Phase::Renaming, Event::RenameFailed(m)) => {
                    &&& final(self).phase() == Phase::Removing
                    &&& (final(self).pending() matches Some(UploadError::Server(x)) && x@ == m@)
                    &&& (a matches Action::RemoveTemp(t) && t@ == old(self).tmp_path())
                },
                (Phase::Thumbnailing, Event::ThumbnailCreated) => {
                    a matches Action::Finish(Ok(f)) && (f.thumbnail_path matches Some(t) && t@
                        == old(self).thumbnail_path())
                },
                (Phase::Thumbnailing, Event::ThumbnailFailed(_)) => {
                    a matches Action::Finish(Ok(f)) && f.thumbnail_path is None
                },
                _ => true,
            },
    {
        match event {
            Event::Created => {
                self.phase = Phase::Streaming;
                self.temp = Ghost(Some(Seq::empty()));
                Action::ReadChunk
            },
            Event::CreateFailed(m) => {
                self.phase = Phase::Finished;
                Action::Finish(Err(UploadError::Server(m)))
            },
            Event::Chunk(c) => {
                self.phase = Phase::Writing;
                proof {
                    self.chunks@.lemma_flatten_push(c@);
                }
                self.chunks = Ghost(self.chunks@.push(c@));
                self.received = Ghost(self.received@ + c@);
                self.in_flight = Ghost(c@);
                proof {
                    assert(self.temp@.unwrap() + self.in_flight@ =~= self.received@);
                }
                Action::Write(c)
            },
            Event::SourceFailed(m) => self.abort(UploadError::Client(m)),
            Event::EndOfStream => {
                self.phase = Phase::Flushing;
                Action::Flush
            },
            Event::Written => {
                self.phase = Phase::Streaming;
                self.temp = Ghost(Some(self.received@));
                Action::ReadChunk
            },
            Event::WriteFailed(m) => self.abort(UploadError::Server(m)),
            Event::Flushed => {
                self.phase = Phase::Renaming;
                Action::Rename(self.tmp_path.clone(), self.upload_path.clone())
            },
            Event::FlushFailed(m) => self.abort(UploadError::Server(m)),
            Event::Removed => {
                self.phase = Phase::Finished;
                self.temp = Ghost(None);
                let e = self.pending.take().unwrap();
                Action::Finish(Err(e))
            },
            Event::Renamed => {
                self.phase = Phase::Thumbnailing;
                self.primary = Ghost(self.temp@);
                self.temp = Ghost(None);
                Action::DeriveThumbnail(
                    self.upload_path.clone(),
                    self.thumbnail_path.clone(),
                    THUMBNAIL_WIDTH,
                    THUMBNAIL_HEIGHT,
                )
            },
            Event::RenameFailed(m) => self.abort(UploadError::Server(m)),
            Event::ThumbnailCreated => {
                self.phase = Phase::Finished;
                Action::Finish(Ok(self.stored(Some(self.thumbnail_path.clone()))))
            },
            Event::ThumbnailFailed(_) => {
                self.phase = Phase::Finished;
                Action::Finish(Ok(self.stored(None)))
            },
        }
    }

    /// Records `e` as the outcome and asks for the temporary file to go.
    fn abort(&mut self, e: UploadError) -> (a: Action)
        requires
            old(self).wf(),
            old(self).phase() == Phase::Streaming || old(self).phase() == Phase::Writing
                || old(self).phase() == Phase::Flushing || old(self).phase() == Phase::Renaming,
        ensures
            final(self).wf(),
            final(self).phase() == Phase::Removing,
            final(self).pending() == Some(e),
            a matches Action::RemoveTemp(t) && t@ == old(self).tmp_path(),
            final(self).id() == old(self).id(),
            final(self).dir() == old(self).dir(),
            final(self).ext() == old(self).ext(),
            final(self).tmp_path() == old(self).tmp_path(),
            final(self).upload_path() == old(self).upload_path(),
            final(self).thumbnail_path() == old(self).thumbnail_path(),
            final(self).chunks() == old(self).chunks(),
            final(self).received() == old(self).received(),
            final(self).primary_file() is None,
    {
        self.phase = Phase::Removing;
        self.pending = Some(e);
        Action::RemoveTemp(self.tmp_path.clone())
    }

    /// The record of the stored file.
    fn stored(&self, thumbnail_path: Option<String>) -> (f: UploadedFile)
        ensures
            f.id@ == self.id(),
            f.path@ == self.upload_path(),
            f.thumbnail_path == thumbnail_path,
    {
        UploadedFile { id: self.id.clone(), path: self.upload_path.clone(), thumbnail_path }
    }
}

/// A file name made of an identifier, a suffix and an extension.
fn file_name(id: &String, suffix: &str, ext: &str) -> (r: String)
    ensures
        r@ == id@ + suffix@ + ext@,
{
    let r = id.clone().concat(suffix);
    r.concat(ext)
}

/// Starts the upload of a chunk stream into `uploads_dir`, stored with
/// `extension`: draws a fresh identifier and asks for the temporary file.
pub fn upload_image(uploads_dir: &str, extension: &str) -> (r: (Upload, Action))
    ensures
        r.0.wf(),
        r.0.phase() == Phase::Creating,
        r.0.id().len() == ID_LEN,
        all_alphanumeric(r.0.id()),
        r.0.dir() == uploads_dir@,
        r.0.ext() == extension@,
        r.0.tmp_path() == joined(uploads_dir@, temp_name(r.0.id())),
        r.0.upload_path() == joined(uploads_dir@, primary_name(r.0.id(), extension@)),
        r.0.thumbnail_path() == joined(uploads_dir@, thumbnail_name(r.0.id(), extension@)),
        r.0.chunks() == Seq::<Seq<u8>>::empty(),
        r.0.received() == Seq::<u8>::empty(),
        r.0.temp_file() is None,
        r.0.primary_file() is None,
        r.1 matches Action::CreateTemp(t) && t@ == r.0.tmp_path(),
{
    let id = gen_rand_id(ID_LEN);
    proof {
        reveal_strlit(".tmp");
        reveal_strlit(".");
        reveal_strlit("_thumbnail.");
        reveal_strlit("");
    }
    let tmp_name = file_name(&id, ".tmp", "");
    assert(tmp_name@ =~= temp_name(id@));
    let tmp_path = join_path(uploads_dir, tmp_name.as_str());
    let upload_name = file_name(&id, ".", extension);
    let upload_path = join_path(uploads_dir, upload_name.as_str());
    let thumb_name = file_name(&id, "_thumbnail.", extension);
    let thumbnail_path = join_path(uploads_dir, thumb_name.as_str());
    let first = Action::CreateTemp(tmp_path.clone());
    let upload = Upload {
        id,
        tmp_path,
        upload_path,
        thumbnail_path,
        phase: Phase::Creating,
        pending: None,
        dir: Ghost(uploads_dir@),
        ext: Ghost(extension@),
        chunks: Ghost(Seq::empty()),
        received: Ghost(Seq::empty()),
        in_flight: Ghost(Seq::empty()),
        temp: Ghost(None),
        primary: Ghost(None),
    };
    (upload, first)
}

/// Once the primary file exists, it holds exactly the chunks received from
/// the source, concatenated in order, and the temporary file is gone.
pub proof fn lemma_stored_file_is_stream(u: Upload)
    requires
        u.wf(),
        u.primary_file() is Some,
    ensures
        u.primary_file() == Some(u.chunks().flatten()),
        u.temp_file() is None,
{
}

/// A finished upload, successful or not, leaves no temporary file behind.
pub proof fn lemma_finished_leaves_no_temp(u: Upload)
    requires
        u.wf(),
        u.phase() == Phase::Finished,
    ensures
        u.temp_file() is None,
{
}

/// No primary file exists before the rename that commits it, and none after a
/// failure: while streaming, writing, flushing, renaming or cleaning up, the
/// final name is absent.
pub proof fn lemma_no_primary_before_commit(u: Upload)
    requires
        u.wf(),
        u.phase() != Phase::Thumbnailing,
        u.phase() != Phase::Finished,
    ensures
        u.primary_file() is None,
{
}

} // verus!
