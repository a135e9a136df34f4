use crate::config::{RecordingsConfig, WarpgateConfig};
use crate::ids::{fresh_id, id_text, id_to_text, now_seconds, SessionId};
use crate::recording::{ended_row, Model, RecordingKind, RecordingTable};
use crate::text::push_str;
use vstd::bytes::{spec_u64_to_le_bytes, u64_to_le_bytes};
use vstd::prelude::*;
use vstd::string::StrSliceExecFns;

verus! {

/// Why a recording could not be started or written.
#[derive(Debug, Clone, Copy, PartialEq, Eq, Structural)]
pub enum Error {
    Io,
    Database,
    Closed,
    Disabled,
}

impl Error {
    pub open spec fn message_spec(self) -> Seq<char> {
        match self {
            Error::Io => "I/O"@,
            Error::Database => "Database"@,
            Error::Closed => "Writer is closed"@,
            Error::Disabled => "Disabled"@,
        }
    }

    /// The error in words.
    pub fn message(&self) -> (r: &'static str)
        ensures
            r@ == self.message_spec(),
    {
        match self {
            Error::Io => "I/O",
            Error::Database => "Database",
            Error::Closed => "Writer is closed",
            Error::Disabled => "Disabled",
        }
    }
}

/// `base` and `part` as one path. A `part` that starts at the root stands
/// alone; an empty `base`, or one that ends in a separator, takes `part` as
/// it is; else one separator comes between the two.
pub open spec fn join_spec(base: Seq<char>, part: Seq<char>) -> Seq<char> {
    if part.len() > 0 && part[0] == '/' {
        part
    } else if base.len() == 0 || base.last() == '/' {
        base + part
    } else {
        base + "/"@ + part
    }
}

pub fn join_path(base: &String, part: &String) -> (r: String)
    ensures
        r@ == join_spec(base@, part@),
{
    if part.as_str().unicode_len() > 0 && part.as_str().get_char(0) == '/' {
        part.clone()
    } else {
        let mut joined = base.clone();
        let n = base.as_str().unicode_len();
        if n > 0 && base.as_str().get_char(n - 1) != '/' {
            push_str(&mut joined, "/");
        }
        push_str(&mut joined, part.as_str());
        joined
    }
}

/// The append-only sink of one recording: bytes are buffered until the
/// caller takes them to the file, and nothing is taken in once it is closed.
pub struct RecordingWriter {
    row_id: u128,
    path: String,
    buffer: Vec<u8>,
    closed: bool,
    handed_out: Ghost<Seq<u8>>,
}

impl RecordingWriter {
    /// The id of the recording's row.
    pub closed spec fn row_id(self) -> u128 {
        self.row_id
    }

    /// The file that the recording is appended to.
    pub closed spec fn path(self) -> Seq<char> {
        self.path@
    }

    /// The bytes taken in and not yet handed to the file.
    pub closed spec fn buffered(self) -> Seq<u8> {
        self.buffer@
    }

    pub closed spec fn is_closed(self) -> bool {
        self.closed
    }

    /// The bytes that were handed out for the file, in order.
    pub closed spec fn handed_out(self) -> Seq<u8> {
        self.handed_out@
    }

    /// All that was ever written: what went to the file, then what is
    /// buffered. It only grows, and only at its end.
    pub open spec fn recorded(self) -> Seq<u8> {
        self.handed_out() + self.buffered()
    }

    /// What a write is answered with: a closed writer refuses.
    pub open spec fn write_verdict(self) -> Result<(), Error> {
        if self.is_closed() {
            Err(Error::Closed)
        } else {
            Ok(())
        }
    }

    /// The writer but for its buffer and whether it is closed.
    pub open spec fn same_recording(self, other: RecordingWriter) -> bool {
        self.row_id() == other.row_id() && self.path() == other.path()
    }

    pub fn new(path: String, row_id: u128) -> (r: Self)
        ensures
            r.row_id() == row_id,
            r.path() == path@,
            r.buffered() == Seq::<u8>::empty(),
            r.handed_out() == Seq::<u8>::empty(),
            !r.is_closed(),
    {
        RecordingWriter { row_id, path, buffer: Vec::new(), closed: false, handed_out: Ghost(Seq::empty()) }
    }

    pub fn id(&self) -> (r: u128)
        ensures
            r == self.row_id(),
    {
        self.row_id
    }

    pub fn file_path(&self) -> (r: &String)
        ensures
            r@ == self.path(),
    {
        &self.path
    }

    pub fn closed(&self) -> (r: bool)
        ensures
            r == self.is_closed(),
    {
        self.closed
    }

    /// Appends the bytes, unless the writer is closed.
    pub fn write(&mut self, data: &[u8]) -> (r: Result<(), Error>)
        ensures
            final(self).same_recording(*old(self)),
            final(self).is_closed() == old(self).is_closed(),
            final(self).handed_out() == old(self).handed_out(),
            r == old(self).write_verdict(),
            r is Err ==> final(self).buffered() == old(self).buffered(),
            r is Ok ==> final(self).buffered() == old(self).buffered() + data@,
            r is Ok ==> final(self).recorded() == old(self).recorded() + data@,
    {
        if self.closed {
            return Err(Error::Closed);
        }
        self.buffer.extend_from_slice(data);
        proof {
            assert(self.recorded() =~= old(self).recorded() + data@);
        }
        Ok(())
    }

    /// Hands out what is buffered, for the caller to append to the file.
    pub fn take_buffered(&mut self) -> (r: Vec<u8>)
        ensures
            r@ == old(self).buffered(),
            final(self).buffered() == Seq::<u8>::empty(),
            final(self).handed_out() == old(self).handed_out() + r@,
            final(self).recorded() == old(self).recorded(),
            final(self).same_recording(*old(self)),
            final(self).is_closed() == old(self).is_closed(),
    {
        let mut out: Vec<u8> = Vec::new();
        proof {
            self.handed_out = Ghost(self.handed_out@ + self.buffer@);
        }
        out.append(&mut self.buffer);
        out
    }

    /// Closes the writer and sets the end time of the recording's row. What
    /// is buffered stays for the caller to take to the file. A closed
    /// writer refuses, and a row that is not there is an error of the table.
    pub fn finalize(&mut self, table: &mut RecordingTable, now: i64) -> (r: Result<(), Error>)
        requires
            old(table).wf(),
        ensures
            final(table).wf(),
            final(self).same_recording(*old(self)),
            final(self).is_closed(),
            final(self).buffered() == old(self).buffered(),
            final(self).handed_out() == old(self).handed_out(),
            r == finalize_verdict(old(self).is_closed(), old(table).has_id(old(self).row_id())),
            r is Err ==> final(table).rows() == old(table).rows(),
            r is Ok ==> final(table).rows() == old(table).rows().update(
                old(table).position(old(self).row_id()),
                ended_row(old(table).rows()[old(table).position(old(self).row_id())], now),
            ),
    {
        if self.closed {
            return Err(Error::Closed);
        }
        self.closed = true;
        match table.set_ended(self.row_id, now) {
            Ok(()) => Ok(()),
            Err(_) => Err(Error::Database),
        }
    }
}

/// What closing a writer is answered with.
pub open spec fn finalize_verdict(closed: bool, row_on_file: bool) -> Result<(), Error> {
    if closed {
        Err(Error::Closed)
    } else if !row_on_file {
        Err(Error::Database)
    } else {
        Ok(())
    }
}

/// What a kind of recording has to offer to be started by the manager.
pub trait Recorder: Sized {
    spec fn recorded_kind() -> RecordingKind;

    /// The writer that the recorder appends to.
    spec fn writer(self) -> RecordingWriter;

    fn kind() -> (r: RecordingKind)
        ensures
            r == Self::recorded_kind(),
    ;

    fn new(writer: RecordingWriter) -> (r: Self)
        ensures
            r.writer() == writer,
    ;
}

/// One chunk of terminal output as it is appended: a zero byte, the time,
/// the length of the chunk, the chunk. Numbers are 8 bytes, lowest first.
pub open spec fn terminal_data_record(time: u64, data: Seq<u8>) -> Seq<u8> {
    seq![0u8] + spec_u64_to_le_bytes(time) + spec_u64_to_le_bytes(data.len() as u64) + data
}

/// A change of the terminal's size as it is appended: a one byte, the time,
/// the columns, the rows.
pub open spec fn terminal_resize_record(time: u64, cols: u32, rows: u32) -> Seq<u8> {
    seq![1u8] + spec_u64_to_le_bytes(time) + spec_u64_to_le_bytes(cols as u64) + spec_u64_to_le_bytes(rows as u64)
}

/// Records what a terminal shows, chunk by chunk with its time.
pub struct TerminalRecorder {
    writer: RecordingWriter,
}

impl Recorder for TerminalRecorder {
    open spec fn recorded_kind() -> RecordingKind {
        RecordingKind::Terminal
    }

    closed spec fn writer(self) -> RecordingWriter {
        self.writer
    }

    fn kind() -> (r: RecordingKind) {
        RecordingKind::Terminal
    }

    fn new(writer: RecordingWriter) -> (r: Self) {
        TerminalRecorder { writer }
    }
}

impl TerminalRecorder {
    /// Appends a chunk of output with the time at which it was seen.
    pub fn write(&mut self, time: u64, data: &[u8]) -> (r: Result<(), Error>)
        ensures
            final(self).writer().same_recording(old(self).writer()),
            final(self).writer().is_closed() == old(self).writer().is_closed(),
            old(self).writer().is_closed() ==> r == Err::<(), Error>(Error::Closed) && final(self).writer().buffered()
                == old(self).writer().buffered(),
            !old(self).writer().is_closed() ==> r is Ok && final(self).writer().buffered() == old(
                self,
            ).writer().buffered() + terminal_data_record(time, data@),
            final(self).writer().handed_out() == old(self).writer().handed_out(),
    {
        let mut record: Vec<u8> = Vec::new();
        record.push(0u8);
        let mut stamp = u64_to_le_bytes(time);
        record.append(&mut stamp);
        let mut size = u64_to_le_bytes(data.len() as u64);
        record.append(&mut size);
        record.extend_from_slice(data);
        proof {
            assert(record@ =~= terminal_data_record(time, data@));
        }
        self.writer.write(record.as_slice())
    }

    /// Appends a change of the terminal's size.
    pub fn write_pty_resize(&mut self, time: u64, cols: u32, rows: u32) -> (r: Result<(), Error>)
        ensures
            final(self).writer().same_recording(old(self).writer()),
            final(self).writer().is_closed() == old(self).writer().is_closed(),
            old(self).writer().is_closed() ==> r == Err::<(), Error>(Error::Closed) && final(self).writer().buffered()
                == old(self).writer().buffered(),
            !old(self).writer().is_closed() ==> r is Ok && final(self).writer().buffered() == old(
                self,
            ).writer().buffered() + terminal_resize_record(time, cols, rows),
            final(self).writer().handed_out() == old(self).writer().handed_out(),
    {
        let mut record: Vec<u8> = Vec::new();
        record.push(1u8);
        let mut stamp = u64_to_le_bytes(time);
        record.append(&mut stamp);
        let mut width = u64_to_le_bytes(cols as u64);
        record.append(&mut width);
        let mut height = u64_to_le_bytes(rows as u64);
        record.append(&mut height);
        proof {
            assert(record@ =~= terminal_resize_record(time, cols, rows));
        }
        self.writer.write(record.as_slice())
    }

    /// The writer, to take what is buffered or to close it.
    pub fn writer_mut(&mut self) -> (r: &mut RecordingWriter)
        ensures
            *r == old(self).writer(),
            final(self).writer() == *final(r),
    {
        &mut self.writer
    }
}

/// Which way a chunk of traffic went.
#[derive(Debug, Clone, Copy, PartialEq, Eq, Structural)]
pub enum TrafficDirection {
    FromClient,
    FromTarget,
}

pub open spec fn direction_byte(direction: TrafficDirection) -> u8 {
    match direction {
        TrafficDirection::FromClient => 2u8,
        TrafficDirection::FromTarget => 3u8,
    }
}

/// One chunk of traffic as it is appended: the byte of its direction, the
/// tag of the peer, the length of the chunk, the chunk.
pub open spec fn traffic_record(direction: TrafficDirection, peer: u64, data: Seq<u8>) -> Seq<u8> {
    seq![direction_byte(direction)] + spec_u64_to_le_bytes(peer) + spec_u64_to_le_bytes(data.len() as u64) + data
}

/// Records raw traffic, chunk by chunk with its direction and peer.
pub struct TrafficRecorder {
    writer: RecordingWriter,
}

impl Recorder for TrafficRecorder {
    open spec fn recorded_kind() -> RecordingKind {
        RecordingKind::Traffic
    }

    closed spec fn writer(self) -> RecordingWriter {
        self.writer
    }

    fn kind() -> (r: RecordingKind) {
        RecordingKind::Traffic
    }

    fn new(writer: RecordingWriter) -> (r: Self) {
        TrafficRecorder { writer }
    }
}

impl TrafficRecorder {
    /// Appends a chunk of traffic with its direction and the tag of the peer.
    pub fn write(&mut self, direction: TrafficDirection, peer: u64, data: &[u8]) -> (r: Result<(), Error>)
        ensures
            final(self).writer().same_recording(old(self).writer()),
            final(self).writer().is_closed() == old(self).writer().is_closed(),
            old(self).writer().is_closed() ==> r == Err::<(), Error>(Error::Closed) && final(self).writer().buffered()
                == old(self).writer().buffered(),
            !old(self).writer().is_closed() ==> r is Ok && final(self).writer().buffered() == old(
                self,
            ).writer().buffered() + traffic_record(direction, peer, data@),
            final(self).writer().handed_out() == old(self).writer().handed_out(),
    {
        let mut record: Vec<u8> = Vec::new();
        record.push(
            match direction {
                TrafficDirection::FromClient => 2u8,
                TrafficDirection::FromTarget => 3u8,
            },
        );
        let mut tag = u64_to_le_bytes(peer);
        record.append(&mut tag);
        let mut size = u64_to_le_bytes(data.len() as u64);
        record.append(&mut size);
        record.extend_from_slice(data);
        proof {
            assert(record@ =~= traffic_record(direction, peer, data@));
        }
        self.writer.write(record.as_slice())
    }

    /// The writer, to take what is buffered or to close it.
    pub fn writer_mut(&mut self) -> (r: &mut RecordingWriter)
        ensures
            *r == old(self).writer(),
            final(self).writer() == *final(r),
    {
        &mut self.writer
    }
}

/// The manager of recordings: where they are kept, and whether any are made.
pub struct SessionRecordings {
    path: String,
    config: RecordingsConfig,
}

/// The file of the recording `name` of a session, under the root `root`.
pub open spec fn path_for_spec(root: Seq<char>, session_id: SessionId, name: Seq<char>) -> Seq<char> {
    join_spec(join_spec(root, id_text(session_id)), name)
}

/// The row that a recording starts with.
pub open spec fn starts_with_row(row: Model, id: u128, session_id: SessionId, name: Seq<char>, kind: RecordingKind, now: i64) -> bool {
    row.id == id && row.session_id == session_id && row.name@ == name && row.kind == kind && row.started == now
        && row.ended.is_none()
}

impl SessionRecordings {
    /// The directory under which each session has its own.
    pub closed spec fn root(self) -> Seq<char> {
        self.path@
    }

    pub closed spec fn enabled(self) -> bool {
        self.config.enable
    }

    /// The manager for a configuration. Where recording is enabled the
    /// caller creates the root directory before the first recording starts.
    pub fn new(config: &WarpgateConfig) -> (r: Self)
        ensures
            r.root() == join_spec(config.paths_relative_to@, config.store.recordings.path@),
            r.enabled() == config.store.recordings.enable,
    {
        let path = join_path(&config.paths_relative_to, &config.store.recordings.path);
        SessionRecordings {
            path,
            config: RecordingsConfig {
                enable: config.store.recordings.enable,
                path: config.store.recordings.path.clone(),
            },
        }
    }

    pub fn is_enabled(&self) -> (r: bool)
        ensures
            r == self.enabled(),
    {
        self.config.enable
    }

    pub fn root_path(&self) -> (r: &String)
        ensures
            r@ == self.root(),
    {
        &self.path
    }

    /// The directory of a session's recordings.
    pub fn directory_for(&self, session_id: &SessionId) -> (r: String)
        ensures
            r@ == join_spec(self.root(), id_text(*session_id)),
    {
        let text = id_to_text(*session_id);
        join_path(&self.path, &text)
    }

    /// The file of the recording `name` of a session.
    pub fn path_for(&self, session_id: &SessionId, name: &String) -> (r: String)
        ensures
            r@ == path_for_spec(self.root(), *session_id, name@),
    {
        let directory = self.directory_for(session_id);
        join_path(&directory, name)
    }

    /// Starts the recording `name` of a session with the given fresh id and
    /// start time: refuses where recording is disabled, or where the table
    /// has the id or the pair of session and name already; else adds the
    /// row and hands out a recorder on an open, empty writer bound to the
    /// row and to the recording's file. The caller creates the session's
    /// directory before it appends anything.
    pub fn start_with<T: Recorder>(
        &self,
        table: &mut RecordingTable,
        id: &SessionId,
        name: String,
        row_id: u128,
        now: i64,
    ) -> (r: Result<T, Error>)
        requires
            old(table).wf(),
        ensures
            final(table).wf(),
            !self.enabled() ==> r is Err && r->Err_0 == Error::Disabled,
            self.enabled() && (old(table).has_id(row_id) || old(table).has_pair(*id, name@)) ==> r is Err && r->Err_0
                == Error::Database,
            self.enabled() && !old(table).has_id(row_id) && !old(table).has_pair(*id, name@) ==> r is Ok,
            r is Err ==> final(table).rows() == old(table).rows(),
            r matches Ok(recorder) ==> {
                &&& final(table).rows().len() == old(table).rows().len() + 1
                &&& final(table).rows().drop_last() == old(table).rows()
                &&& starts_with_row(final(table).rows().last(), row_id, *id, name@, T::recorded_kind(), now)
                &&& recorder.writer().row_id() == row_id
                &&& recorder.writer().path() == path_for_spec(self.root(), *id, name@)
                &&& recorder.writer().recorded() == Seq::<u8>::empty()
                &&& !recorder.writer().is_closed()
            },
    {
        if !self.config.enable {
            return Err(Error::Disabled);
        }
        let path = self.path_for(id, &name);
        let row = Model { id: row_id, name, started: now, ended: None, session_id: *id, kind: T::kind() };
        let ghost before = table.rows();
        match table.insert(row) {
            Err(_) => Err(Error::Database),
            Ok(()) => {
                proof {
                    assert(table.rows().drop_last() =~= before);
                }
                Ok(T::new(RecordingWriter::new(path, row_id)))
            },
        }
    }

    /// Starts the recording `name` of a session, with a random id and the
    /// current time. Whatever those are: it refuses with `Disabled` exactly
    /// where recording is disabled, fails where the session has a recording
    /// of that name, succeeds on an empty table, and changes the table only
    /// by the one row of a recording that it starts.
    pub fn start<T: Recorder>(&self, table: &mut RecordingTable, id: &SessionId, name: String) -> (r: Result<
        T,
        Error,
    >)
        requires
            old(table).wf(),
        ensures
            final(table).wf(),
            !self.enabled() <==> r is Err && r->Err_0 == Error::Disabled,
            self.enabled() && old(table).has_pair(*id, name@) ==> r is Err && r->Err_0 == Error::Database,
            self.enabled() && old(table).rows().len() == 0 ==> r is Ok,
            r is Err ==> final(table).rows() == old(table).rows(),
            r matches Ok(recorder) ==> {
                &&& final(table).rows().len() == old(table).rows().len() + 1
                &&& final(table).rows().drop_last() == old(table).rows()
                &&& starts_with_row(
                    final(table).rows().last(),
                    recorder.writer().row_id(),
                    *id,
                    name@,
                    T::recorded_kind(),
                    final(table).rows().last().started,
                )
                &&& !old(table).has_id(recorder.writer().row_id())
                &&& recorder.writer().path() == path_for_spec(self.root(), *id, name@)
                &&& recorder.writer().recorded() == Seq::<u8>::empty()
                &&& !recorder.writer().is_closed()
            },
    {
        let row_id = fresh_id();
        let now = now_seconds();
        self.start_with(table, id, name, row_id, now)
    }
}

/// Once a recording was started for a session and a name, exactly one row
/// carries the pair; a further start for the pair finds it taken and fails.
pub proof fn law_one_row_per_recording(
    before: RecordingTable,
    after: RecordingTable,
    session_id: SessionId,
    name: Seq<char>,
)
    requires
        after.wf(),
        !before.has_pair(session_id, name),
        after.rows().len() == before.rows().len() + 1,
        after.rows().drop_last() == before.rows(),
        after.rows().last().session_id == session_id,
        after.rows().last().name@ == name,
    ensures
        after.single_pair(session_id, name),
{
    let n = before.rows().len() as int;
    assert(after.rows()[n].session_id == session_id && after.rows()[n].name@ == name);
    assert forall|i: int, j: int|
        0 <= i < after.rows().len() && 0 <= j < after.rows().len() && (#[trigger] after.rows()[i]).session_id
            == session_id && after.rows()[i].name@ == name && (#[trigger] after.rows()[j]).session_id == session_id
            && after.rows()[j].name@ == name implies i == j by {
        if i < n {
            assert(before.rows()[i] == after.rows()[i]);
        }
        if j < n {
            assert(before.rows()[j] == after.rows()[j]);
        }
    }
}

/// Closing a writer gives the row of its recording an end time, and a closed
/// writer answers every further write with `Closed`.
pub proof fn law_finalize_ends_recording(
    before: RecordingTable,
    after: RecordingTable,
    writer: RecordingWriter,
    now: i64,
)
    requires
        before.wf(),
        before.has_id(writer.row_id()),
        writer.is_closed(),
        after.rows() == before.rows().update(
            before.position(writer.row_id()),
            ended_row(before.rows()[before.position(writer.row_id())], now),
        ),
    ensures
        after.has_id(writer.row_id()),
        after.rows()[before.position(writer.row_id())].id == writer.row_id(),
        after.rows()[before.position(writer.row_id())].ended is Some,
        before.rows()[before.position(writer.row_id())].ended is None ==> after.rows()[before.position(
            writer.row_id(),
        )].ended == Some(now),
        writer.write_verdict() == Err::<(), Error>(Error::Closed),
{
    let p = before.position(writer.row_id());
    assert(after.rows()[p].id == writer.row_id());
}

} // verus!
