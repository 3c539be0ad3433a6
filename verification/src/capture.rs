use vstd::prelude::*;
use vstd::string::StringExecFns;

use crate::decimal::{lemma_signed_decimal_injective, push_decimal_i64, signed_decimal_digits};
use crate::errors::SttError;
use crate::paths::{join_path, joined_path_spec};

verus! {

/// The live pairing of a running recording subprocess (by its process id) and
/// the output file it is writing.
#[derive(Debug, Clone, PartialEq, Eq)]
pub struct RecordingSession {
    pub pid: u32,
    pub path: String,
}

/// The owner of the single recording-session slot. At most one session is live;
/// start fills the slot, stop and cancel take it. The subprocess itself is
/// spawned, signalled and awaited by the caller around these decisions. The
/// controller also remembers the last timestamp a start was named from, so
/// every start gets a fresh path even when the clock has not moved on.
pub struct CaptureController {
    pub temp_dir: String,
    pub session: Option<RecordingSession>,
    pub last_timestamp: Option<i64>,
}

/// The file name of a recording begun at `timestamp`.
pub open spec fn recording_file_name_spec(timestamp: int) -> Seq<char> {
    "recording_"@ + signed_decimal_digits(timestamp) + ".wav"@
}

/// The output path for a recording begun at `timestamp`: a time-named wav file
/// under the controller's temporary directory.
pub open spec fn recording_path_spec(temp_dir: Seq<char>, timestamp: int) -> Seq<char> {
    joined_path_spec(temp_dir, recording_file_name_spec(timestamp))
}

/// The timestamp a start is named from: the clock's reading, unless an earlier
/// start already used that second or a later one, in which case the next
/// unused second (saturating at the largest timestamp).
pub open spec fn effective_timestamp(last: Option<i64>, timestamp: i64) -> int {
    match last {
        None => timestamp as int,
        Some(l) => if timestamp > l {
            timestamp as int
        } else if l == i64::MAX {
            l as int
        } else {
            l as int + 1
        },
    }
}

/// The slot after a start: filled with the new session when it was empty,
/// untouched when a session was already live.
pub open spec fn commit_start_state(c: CaptureController, pid: u32, path: String) -> CaptureController {
    if c.session is Some {
        c
    } else {
        CaptureController { session: Some(RecordingSession { pid, path }), ..c }
    }
}

/// The outcome of a start: refused while a session is live.
pub open spec fn commit_start_outcome(c: CaptureController) -> Result<(), SttError> {
    if c.session is Some {
        Err(SttError::SessionAlreadyActive)
    } else {
        Ok(())
    }
}

/// The slot after a stop or a cancel: empty.
pub open spec fn take_session_state(c: CaptureController) -> CaptureController {
    CaptureController { session: None, ..c }
}

/// The outcome of a stop: the live session, or a refusal when none exists.
pub open spec fn begin_stop_outcome(c: CaptureController) -> Result<RecordingSession, SttError> {
    match c.session {
        Some(s) => Ok(s),
        None => Err(SttError::NoActiveSession),
    }
}

/// The outcome of a cancel: the live session to clean up, if any; a cancel with
/// no live session is a no-op.
pub open spec fn begin_cancel_outcome(c: CaptureController) -> Option<RecordingSession> {
    c.session
}

/// The judgement on the output file once the recorder has exited: it must
/// exist and be non-empty for the stop to yield its path.
pub open spec fn validate_outcome(path: String, file_exists: bool, file_len: u64) -> Result<
    String,
    SttError,
> {
    if !file_exists {
        Err(SttError::FileNotCreated)
    } else if file_len == 0 {
        Err(SttError::EmptyRecording)
    } else {
        Ok(path)
    }
}

impl CaptureController {
    pub open spec fn is_active(&self) -> bool {
        self.session is Some
    }

    /// A fresh controller over `temp_dir` with an empty slot.
    pub fn new(temp_dir: String) -> (r: CaptureController)
        ensures
            r.temp_dir == temp_dir,
            !r.is_active(),
            r.last_timestamp is None,
    {
        CaptureController { temp_dir, session: None, last_timestamp: None }
    }

    /// Whether a session is live.
    pub fn has_active_session(&self) -> (r: bool)
        ensures
            r == self.is_active(),
    {
        self.session.is_some()
    }

    /// Decide whether a new recording may begin, and if so under which path.
    /// Refused while a session is live, so no second recorder is ever spawned
    /// over a live one. The path is named from the effective timestamp, which
    /// moves strictly past the one the previous start used, so no two starts
    /// share a path.
    pub fn prepare_start(&mut self, timestamp: i64) -> (r: Result<String, SttError>)
        ensures
            old(self).is_active() ==> r == Err::<String, SttError>(SttError::SessionAlreadyActive)
                && *final(self) == *old(self),
            !old(self).is_active() ==> {
                let eff = effective_timestamp(old(self).last_timestamp, timestamp);
                &&& r matches Ok(p) && p@ == recording_path_spec(old(self).temp_dir@, eff)
                &&& *final(self) == CaptureController {
                    last_timestamp: Some(eff as i64),
                    ..*old(self)
                }
            },
    {
        if self.session.is_some() {
            return Err(SttError::SessionAlreadyActive);
        }
        let eff: i64 = match self.last_timestamp {
            None => timestamp,
            Some(l) => if timestamp > l {
                timestamp
            } else if l == i64::MAX {
                l
            } else {
                l + 1
            },
        };
        self.last_timestamp = Some(eff);
        Ok(recording_file_path(&self.temp_dir, eff))
    }

    /// Decide a start against the clock: whatever timestamp the clock reads,
    /// the path is time-named from it under the temporary directory. Refused
    /// while a session is live.
    pub fn prepare_start_now(&mut self) -> (r: Result<String, SttError>)
        ensures
            old(self).is_active() ==> r == Err::<String, SttError>(SttError::SessionAlreadyActive)
                && *final(self) == *old(self),
            !old(self).is_active() ==> (r matches Ok(p) && exists|ts: int|
                p@ == recording_path_spec(old(self).temp_dir@, ts)) && final(self).session == old(
                self,
            ).session && final(self).temp_dir == old(self).temp_dir,
    {
        let ts = now_unix_timestamp();
        let ghost pre = *self;
        let r = self.prepare_start(ts);
        proof {
            if !pre.is_active() {
                let eff = effective_timestamp(pre.last_timestamp, ts);
                assert(r matches Ok(p) && p@ == recording_path_spec(pre.temp_dir@, eff));
            }
        }
        r
    }

    /// Install the spawned recorder into the slot. Refuses to displace a live
    /// session, leaving it untouched, so the earlier recorder is never leaked.
    pub fn commit_start(&mut self, pid: u32, path: String) -> (r: Result<(), SttError>)
        ensures
            *final(self) == commit_start_state(*old(self), pid, path),
            r == commit_start_outcome(*old(self)),
    {
        if self.session.is_some() {
            return Err(SttError::SessionAlreadyActive);
        }
        self.session = Some(RecordingSession { pid, path });
        Ok(())
    }

    /// Take the live session out of the slot for a stop; a stop expects a
    /// result, so an empty slot is a failure.
    pub fn begin_stop(&mut self) -> (r: Result<RecordingSession, SttError>)
        ensures
            *final(self) == take_session_state(*old(self)),
            r == begin_stop_outcome(*old(self)),
    {
        match self.session.take() {
            Some(s) => Ok(s),
            None => Err(SttError::NoActiveSession),
        }
    }

    /// Take the live session out of the slot for a cancel; a cancel is
    /// idempotent, so an empty slot is simply nothing to clean up.
    pub fn begin_cancel(&mut self) -> (r: Option<RecordingSession>)
        ensures
            *final(self) == take_session_state(*old(self)),
            r == begin_cancel_outcome(*old(self)),
    {
        self.session.take()
    }
}

/// The time-named output path for a recording begun at `timestamp`.
pub fn recording_file_path(temp_dir: &String, timestamp: i64) -> (r: String)
    ensures
        r@ == recording_path_spec(temp_dir@, timestamp as int),
{
    let mut name = String::from_str("recording_");
    push_decimal_i64(&mut name, timestamp);
    name.append(".wav");
    proof {
        assert(name@ =~= recording_file_name_spec(timestamp as int));
    }
    join_path(temp_dir, &name)
}

/// Judge the output file after the recorder exited: a stop keeps only a real,
/// non-empty recording and reports which check failed otherwise.
pub fn validate_stopped_recording(path: String, file_exists: bool, file_len: u64) -> (r: Result<
    String,
    SttError,
>)
    ensures
        r == validate_outcome(path, file_exists, file_len),
{
    if !file_exists {
        Err(SttError::FileNotCreated)
    } else if file_len == 0 {
        Err(SttError::EmptyRecording)
    } else {
        Ok(path)
    }
}

/// The name of the external recording utility.
pub fn recorder_command() -> (r: String)
    ensures
        r@ == "arecord"@,
{
    String::from_str("arecord")
}

/// The fixed arguments of the recording utility: 16-bit signed little-endian
/// PCM, 16 kHz sample rate, one channel, writing to `path`.
pub open spec fn recorder_args_spec(path: Seq<char>) -> Seq<Seq<char>> {
    seq!["-f"@, "S16_LE"@, "-r"@, "16000"@, "-c"@, "1"@, path]
}

/// The recorder's argument list for an output path.
pub fn recorder_args(path: &String) -> (r: Vec<String>)
    ensures
        r.deep_view() == recorder_args_spec(path@),
{
    let mut args: Vec<String> = Vec::new();
    args.push(String::from_str("-f"));
    args.push(String::from_str("S16_LE"));
    args.push(String::from_str("-r"));
    args.push(String::from_str("16000"));
    args.push(String::from_str("-c"));
    args.push(String::from_str("1"));
    args.push(path.clone());
    proof {
        assert(args.deep_view() =~= recorder_args_spec(path@));
    }
    args
}

/// Relies on std's SystemTime::now and duration_since: the clock's reading as
/// Unix seconds, negative when the clock is set before the epoch, clamped at
/// the ends of i64. Nothing is promised of the reading, and no reading panics.
#[verifier::external_body]
fn now_unix_timestamp() -> i64 {
    match std::time::SystemTime::now().duration_since(std::time::UNIX_EPOCH) {
        Ok(d) => i64::try_from(d.as_secs()).unwrap_or(i64::MAX),
        Err(e) => i64::try_from(e.duration().as_secs()).map_or(i64::MIN, |s| -s),
    }
}

/// A start that installs a session into an idle slot, followed at once by a
/// stop, hands the stop the very session the start installed; with the output
/// file present and non-empty, the stop yields exactly the path the start
/// produced, and the slot is idle again.
pub proof fn lemma_start_then_stop(c: CaptureController, pid: u32, path: String, file_len: u64)
    requires
        !c.is_active(),
        file_len > 0,
    ensures
        commit_start_outcome(c) is Ok,
        begin_stop_outcome(commit_start_state(c, pid, path)) == Ok::<RecordingSession, SttError>(
            RecordingSession { pid, path },
        ),
        validate_outcome(path, true, file_len) == Ok::<String, SttError>(path),
        !take_session_state(commit_start_state(c, pid, path)).is_active(),
{
}

/// A start followed by a cancel hands the cancel the very session the start
/// installed, for the caller to kill the recorder and delete the file, and
/// leaves the slot idle.
pub proof fn lemma_start_then_cancel(c: CaptureController, pid: u32, path: String)
    requires
        !c.is_active(),
    ensures
        begin_cancel_outcome(commit_start_state(c, pid, path)) == Some(
            RecordingSession { pid, path },
        ),
        !take_session_state(commit_start_state(c, pid, path)).is_active(),
{
}

/// A stop with no live session fails with `NoActiveSession`.
pub proof fn lemma_stop_without_start(c: CaptureController)
    requires
        !c.is_active(),
    ensures
        begin_stop_outcome(c) == Err::<RecordingSession, SttError>(SttError::NoActiveSession),
{
}

/// A cancel with no live session succeeds as a no-op: there is nothing to
/// clean up and the slot is unchanged.
pub proof fn lemma_cancel_without_start(c: CaptureController)
    requires
        !c.is_active(),
    ensures
        begin_cancel_outcome(c) is None,
        take_session_state(c) == c,
{
}

/// Two recordings named from distinct timestamps have distinct paths under one
/// directory.
proof fn lemma_recording_paths_injective(temp_dir: Seq<char>, t1: int, t2: int)
    requires
        recording_path_spec(temp_dir, t1) == recording_path_spec(temp_dir, t2),
    ensures
        t1 == t2,
{
    reveal_strlit("recording_");
    reveal_strlit(".wav");
    reveal_strlit("/");
    let n1 = recording_file_name_spec(t1);
    let n2 = recording_file_name_spec(t2);
    let p1 = recording_path_spec(temp_dir, t1);
    let p2 = recording_path_spec(temp_dir, t2);
    let prefix = if temp_dir.len() > 0 && temp_dir.last() == '/' {
        temp_dir
    } else {
        temp_dir + "/"@
    };
    assert(p1 =~= prefix + n1);
    assert(p2 =~= prefix + n2);
    assert(n1.len() == n2.len());
    assert(n1 =~= p1.subrange(prefix.len() as int, p1.len() as int));
    assert(n2 =~= p2.subrange(prefix.len() as int, p2.len() as int));
    assert(n1 == n2);
    let s1 = signed_decimal_digits(t1);
    let s2 = signed_decimal_digits(t2);
    assert(s1.len() == s2.len());
    assert(s1 =~= n1.subrange(10, n1.len() - 4));
    assert(s2 =~= n2.subrange(10, n2.len() - 4));
    lemma_signed_decimal_injective(t1, t2);
}

/// Any two successful starts of one controller yield distinct recording
/// paths: the second start's effective timestamp moves strictly past the
/// first's, whatever the clock reads between them, so the time-named files
/// differ. The one input left out: a first effective timestamp already at the
/// largest i64, where the naming saturates.
pub proof fn lemma_start_paths_unique(temp_dir: Seq<char>, last: Option<i64>, ts1: i64, ts2: i64)
    requires
        effective_timestamp(last, ts1) < i64::MAX as int,
    ensures
        ({
            let e1 = effective_timestamp(last, ts1);
            let e2 = effective_timestamp(Some(e1 as i64), ts2);
            recording_path_spec(temp_dir, e1) != recording_path_spec(temp_dir, e2)
        }),
{
    let e1 = effective_timestamp(last, ts1);
    let e2 = effective_timestamp(Some(e1 as i64), ts2);
    assert(e2 > e1);
    if recording_path_spec(temp_dir, e1) == recording_path_spec(temp_dir, e2) {
        lemma_recording_paths_injective(temp_dir, e1, e2);
    }
}

/// A second start while a session is live is refused with
/// `SessionAlreadyActive` and leaves the live session exactly in place: the
/// first recorder is neither displaced nor leaked.
pub proof fn lemma_second_start_rejected(c: CaptureController, pid: u32, path: String)
    requires
        c.is_active(),
    ensures
        commit_start_outcome(c) == Err::<(), SttError>(SttError::SessionAlreadyActive),
        commit_start_state(c, pid, path) == c,
{
}

} // verus!
