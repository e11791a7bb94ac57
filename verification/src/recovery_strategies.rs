//! The ways of recovering a file, the order in which they are tried, and
//! what each of them decides between its reads of the volume.

use vstd::prelude::*;
use vstd::string::*;
use crate::bytes::{
    find_first, first_occurrence, le_i64, le_u32, le_u64, read_le_i64, read_le_u16, read_le_u32,
    read_le_u64,
};
use crate::data_runs::DataRun;
use crate::error::RecoveryError;
use crate::filesystem_recovery_engine::{
    extract_mft_record_from_id, extract_resident_data, in_recycle_bin, leads_into_recycle_bin,
    record_of_id, resident_data_of, FileRecoveryResultFS, RecoverableFileFS,
    RecoverableFileFSView,
};
use crate::ntfs_parser::{name_units, parse_mft_record, record_entry};
use crate::text::{
    chars_of, chars_rfind, chars_start_with, decimal_string, decimal_text, from_utf16_lossy,
    has_prefix, last_index_of, letter_or_digit, lowercase, string_texts, text_eq, to_lowercase,
    trim_end_char, trimmed_end, utf16_lossy, utf8_len, utf8_lossy,
};
use crate::validation::{
    corruption_message, corruption_of, count_keyword_matches, describe_corruption,
    find_corruption, find_footer_from, footer_position, front, keyword_hits, structural_fault,
    validate_carved_file, Corruption, KEYWORD_SCAN_LEN,
};

verus! {

/// The ways of recovering a file, in the order in which they are tried.
#[derive(Clone, Copy, Debug, PartialEq, Eq, Structural)]
pub enum Strategy {
    /// Copy the file from the mounted volume.
    LiveCopy,
    /// Read the clusters that the data runs name.
    ClusterReassembly,
    /// Take the content out of the record of the file.
    ResidentExtraction,
    /// Find the file in the recycle bin.
    RecycleBin,
    /// Find the file in a shadow copy of the volume.
    ShadowCopy,
    /// Find the file on the volume by its signature.
    Carving,
}

/// How an attempt ended.
#[derive(Clone, Copy, Debug, PartialEq, Eq, Structural)]
pub enum Outcome {
    /// The file was written.
    Recovered,
    /// The attempt gave nothing.
    Failed,
    /// The attempt gave bytes that the validator refused.
    Corrupt,
    /// The operator stopped the attempt.
    Cancelled,
}

/// The largest file that may be stored inside its record.
pub const MAX_RESIDENT_SIZE: u64 = 700;

/// The way that follows `s` in the order.
pub open spec fn following(s: Strategy) -> Option<Strategy> {
    match s {
        Strategy::LiveCopy => Some(Strategy::ClusterReassembly),
        Strategy::ClusterReassembly => Some(Strategy::ResidentExtraction),
        Strategy::ResidentExtraction => Some(Strategy::RecycleBin),
        Strategy::RecycleBin => Some(Strategy::ShadowCopy),
        Strategy::ShadowCopy => Some(Strategy::Carving),
        Strategy::Carving => None,
    }
}

/// The place of a way in the order.
pub open spec fn rank(s: Strategy) -> int {
    match s {
        Strategy::LiveCopy => 0,
        Strategy::ClusterReassembly => 1,
        Strategy::ResidentExtraction => 2,
        Strategy::RecycleBin => 3,
        Strategy::ShadowCopy => 4,
        Strategy::Carving => 5,
    }
}

/// The runs of a descriptor.
pub open spec fn runs_of_file(f: RecoverableFileFSView) -> Seq<DataRun> {
    match f.data_runs {
        Some(runs) => runs,
        None => Seq::empty(),
    }
}

/// A way can be tried on a file. A file that is marked as deleted and does
/// not lie in the recycle bin is never copied from the mounted volume: its
/// path may by now belong to another file. Clusters are read only where
/// runs and a size are known, and the record is searched only for a file
/// small enough to be stored in it.
pub open spec fn applies(s: Strategy, f: RecoverableFileFSView) -> bool {
    match s {
        Strategy::LiveCopy => !f.is_deleted || in_recycle_bin(f.path),
        Strategy::ClusterReassembly => f.size > 0 && runs_of_file(f).len() > 0,
        Strategy::ResidentExtraction => 0 < f.size <= MAX_RESIDENT_SIZE && record_of_id(
            f.id,
        ).is_some(),
        _ => true,
    }
}

/// The first way from `from` on that can be tried on a file.
pub open spec fn first_applicable(from: Option<Strategy>, f: RecoverableFileFSView) -> Option<
    Strategy,
>
    decreases
        match from {
            Some(s) => 6 - rank(s),
            None => 0,
        },
{
    match from {
        None => None,
        Some(s) => if applies(s, f) {
            Some(s)
        } else {
            first_applicable(following(s), f)
        },
    }
}

/// The way to try next: at first the first way that can be tried; after an
/// attempt that gave nothing the next way that can be tried; none after a
/// success, none after corrupt bytes, which end the recovery, and none
/// after the operator stopped it.
pub open spec fn next_step(previous: Option<(Strategy, Outcome)>, f: RecoverableFileFSView) -> Option<
    Strategy,
> {
    match previous {
        None => first_applicable(Some(Strategy::LiveCopy), f),
        Some((s, Outcome::Failed)) => first_applicable(following(s), f),
        Some(_) => None,
    }
}

/// The order is kept: after an attempt that gave nothing, the next way
/// stands behind the one that was tried, and can be tried on the file.
/// After a success, after corrupt bytes and after the operator stopped the
/// recovery, no way is tried any more.
pub proof fn lemma_strategies_advance(s: Strategy, outcome: Outcome, f: RecoverableFileFSView)
    ensures
        outcome != Outcome::Failed ==> next_step(Some((s, outcome)), f).is_none(),
        next_step(Some((s, Outcome::Failed)), f) matches Some(t) ==> rank(t) > rank(s) && applies(
            t,
            f,
        ),
{
    lemma_first_applicable(following(s), f);
}

/// A file that is marked as deleted and does not lie in the recycle bin is
/// never copied from the mounted volume, whatever was tried before.
pub proof fn lemma_deleted_file_is_not_copied(
    previous: Option<(Strategy, Outcome)>,
    f: RecoverableFileFSView,
)
    requires
        f.is_deleted,
        !in_recycle_bin(f.path),
    ensures
        next_step(previous, f) != Some(Strategy::LiveCopy),
{
    lemma_first_applicable(Some(Strategy::LiveCopy), f);
    match previous {
        Some((s, _)) => {
            lemma_first_applicable(following(s), f);
        },
        None => {},
    }
}

proof fn lemma_first_applicable(from: Option<Strategy>, f: RecoverableFileFSView)
    ensures
        first_applicable(from, f) matches Some(t) ==> applies(t, f) && (from matches Some(s)
            && rank(t) >= rank(s)),
    decreases
        match from {
            Some(s) => 6 - rank(s),
            None => 0,
        },
{
    match from {
        Some(s) => {
            if !applies(s, f) {
                lemma_first_applicable(following(s), f);
            }
        },
        None => {},
    }
}

/// Tells whether a way can be tried on a file.
pub fn strategy_applies(s: Strategy, file: &RecoverableFileFS) -> (r: bool)
    ensures
        r == applies(s, file@),
{
    match s {
        Strategy::LiveCopy => !file.is_deleted || leads_into_recycle_bin(file.path.as_str()),
        Strategy::ClusterReassembly => {
            file.size > 0 && match &file.data_runs {
                Some(runs) => runs.len() > 0,
                None => false,
            }
        },
        Strategy::ResidentExtraction => {
            file.size > 0 && file.size <= MAX_RESIDENT_SIZE && extract_mft_record_from_id(
                file.id.as_str(),
            ).is_some()
        },
        _ => true,
    }
}

fn strategy_after(s: Strategy) -> (r: Option<Strategy>)
    ensures
        r == following(s),
{
    match s {
        Strategy::LiveCopy => Some(Strategy::ClusterReassembly),
        Strategy::ClusterReassembly => Some(Strategy::ResidentExtraction),
        Strategy::ResidentExtraction => Some(Strategy::RecycleBin),
        Strategy::RecycleBin => Some(Strategy::ShadowCopy),
        Strategy::ShadowCopy => Some(Strategy::Carving),
        Strategy::Carving => None,
    }
}

/// Chooses the way to try next on a file, given the last attempt and how
/// it ended.
pub fn next_strategy(previous: Option<(Strategy, Outcome)>, file: &RecoverableFileFS) -> (r: Option<
    Strategy,
>)
    ensures
        r == next_step(previous, file@),
{
    let mut candidate: Option<Strategy> = match previous {
        None => Some(Strategy::LiveCopy),
        Some((s, Outcome::Failed)) => strategy_after(s),
        Some(_) => {
            return None;
        },
    };
    loop
        invariant
            first_applicable(candidate, file@) == next_step(previous, file@),
        decreases
            match candidate {
                Some(s) => 6 - rank(s),
                None => 0,
            },
    {
        match candidate {
            None => {
                return None;
            },
            Some(s) => {
                if strategy_applies(s, file) {
                    return Some(s);
                }
                candidate = strategy_after(s);
            },
        }
    }
}

// ---------------------------------------------------------------------
// Reassembly from clusters
// ---------------------------------------------------------------------

/// The bytes of a file as far as its runs were read.
#[derive(Debug)]
pub struct Reassembly {
    pub data: Vec<u8>,
    /// The bytes of the file that are still to come.
    pub bytes_remaining: usize,
    pub failed_runs: u32,
    pub successful_runs: u32,
}

pub ghost struct ReassemblyView {
    pub data: Seq<u8>,
    pub bytes_remaining: int,
    pub failed_runs: int,
    pub successful_runs: int,
}

impl View for Reassembly {
    type V = ReassemblyView;

    open spec fn view(&self) -> ReassemblyView {
        ReassemblyView {
            data: self.data@,
            bytes_remaining: self.bytes_remaining as int,
            failed_runs: self.failed_runs as int,
            successful_runs: self.successful_runs as int,
        }
    }
}

/// What is to be done for a run.
#[derive(Clone, Copy, Debug, PartialEq, Eq, Structural)]
pub enum RunPlan {
    /// Nothing: the file is complete.
    Finished,
    /// The run is sparse: so many zero bytes stand for it.
    Zeros(usize),
    /// So many clusters are to be read from the cluster on.
    Read { cluster_offset: u64, cluster_count: u64 },
}

/// The lesser of the bytes of a run and the bytes still to come.
pub open spec fn run_bytes(run: DataRun, bytes_remaining: int, cluster_size: u64) -> int {
    if run.cluster_count * cluster_size <= bytes_remaining {
        run.cluster_count * cluster_size
    } else {
        bytes_remaining
    }
}

/// The number of clusters that hold `bytes` bytes.
pub open spec fn clusters_for(bytes: int, cluster_size: u64) -> int {
    (bytes + cluster_size - 1) / (cluster_size as int)
}

/// What is to be done for `run` when `bytes_remaining` bytes are still to
/// come: nothing where none are, or the cluster size is zero; zeros for a
/// sparse run; else a read of as many clusters as are needed, and no more
/// than the run has.
pub open spec fn run_plan(run: DataRun, bytes_remaining: int, cluster_size: u64) -> RunPlan {
    if bytes_remaining == 0 || cluster_size == 0 {
        RunPlan::Finished
    } else if run.cluster_offset <= 0 {
        RunPlan::Zeros(run_bytes(run, bytes_remaining, cluster_size) as usize)
    } else {
        RunPlan::Read {
            cluster_offset: run.cluster_offset as u64,
            cluster_count: if clusters_for(bytes_remaining, cluster_size) <= run.cluster_count {
                clusters_for(bytes_remaining, cluster_size) as u64
            } else {
                run.cluster_count
            },
        }
    }
}

/// Starts the reassembly of a file of `file_size` bytes; `None` where no
/// buffer can hold so many.
pub fn start_reassembly(file_size: u64) -> (r: Option<Reassembly>)
    ensures
        r.is_some() <==> file_size <= usize::MAX,
        r matches Some(state) ==> state@ == (ReassemblyView {
            data: Seq::empty(),
            bytes_remaining: file_size as int,
            failed_runs: 0,
            successful_runs: 0,
        }),
{
    if file_size > usize::MAX as u64 {
        return None;
    }
    Some(
        Reassembly {
            data: Vec::new(),
            bytes_remaining: file_size as usize,
            failed_runs: 0,
            successful_runs: 0,
        },
    )
}

fn bytes_of_run(run: &DataRun, bytes_remaining: usize, cluster_size: u64) -> (r: usize)
    ensures
        r == run_bytes(*run, bytes_remaining as int, cluster_size),
        r <= bytes_remaining,
{
    assert(run.cluster_count * cluster_size >= 0) by (nonlinear_arith)
        requires
            run.cluster_count >= 0,
            cluster_size >= 0,
    ;
    match run.cluster_count.checked_mul(cluster_size) {
        Some(bytes) => if bytes <= bytes_remaining as u64 {
            bytes as usize
        } else {
            bytes_remaining
        },
        None => bytes_remaining,
    }
}

/// Plans what is to be done for a run. Once the operator has asked for the
/// recovery to stop, nothing more is planned.
pub fn plan_run(state: &Reassembly, run: &DataRun, cluster_size: u64, cancelled: bool) -> (r: Result<
    RunPlan,
    RecoveryError,
>)
    ensures
        r == if cancelled {
            Err::<RunPlan, RecoveryError>(RecoveryError::Cancelled)
        } else {
            Ok::<RunPlan, RecoveryError>(
                run_plan(*run, state.bytes_remaining as int, cluster_size),
            )
        },
{
    if cancelled {
        return Err(RecoveryError::Cancelled);
    }
    if state.bytes_remaining == 0 || cluster_size == 0 {
        return Ok(RunPlan::Finished);
    }
    if run.cluster_offset <= 0 {
        return Ok(RunPlan::Zeros(bytes_of_run(run, state.bytes_remaining, cluster_size)));
    }
    let remaining: u64 = state.bytes_remaining as u64;
    proof {
        let q = remaining as int / cluster_size as int;
        vstd::arithmetic::div_mod::lemma_fundamental_div_mod(remaining as int, cluster_size as int);
        assert(q <= cluster_size * q) by (nonlinear_arith)
            requires
                cluster_size >= 1,
                q >= 0,
        ;
    }
    let needed: u64 = if remaining % cluster_size == 0 {
        remaining / cluster_size
    } else {
        remaining / cluster_size + 1
    };
    assert(needed == clusters_for(remaining as int, cluster_size)) by {
        lemma_clusters_for(remaining as int, cluster_size as int);
    }
    Ok(
        RunPlan::Read {
            cluster_offset: run.cluster_offset as u64,
            cluster_count: if needed <= run.cluster_count {
                needed
            } else {
                run.cluster_count
            },
        },
    )
}

proof fn lemma_clusters_for(bytes: int, cluster_size: int)
    requires
        bytes >= 0,
        cluster_size > 0,
    ensures
        (bytes + cluster_size - 1) / cluster_size == if bytes % cluster_size == 0 {
            bytes / cluster_size
        } else {
            bytes / cluster_size + 1
        },
{
    let q = bytes / cluster_size;
    let r = bytes % cluster_size;
    vstd::arithmetic::div_mod::lemma_fundamental_div_mod(bytes, cluster_size);
    assert((q + 1) * cluster_size == q * cluster_size + cluster_size) by (nonlinear_arith);
    assert(q * cluster_size == cluster_size * q) by (nonlinear_arith);
    if r == 0 {
        vstd::arithmetic::div_mod::lemma_fundamental_div_mod_converse(
            bytes + cluster_size - 1,
            cluster_size,
            q,
            cluster_size - 1,
        );
    } else {
        vstd::arithmetic::div_mod::lemma_fundamental_div_mod_converse(
            bytes + cluster_size - 1,
            cluster_size,
            q + 1,
            r - 1,
        );
    }
}

/// `n` zero bytes.
pub open spec fn zeros(n: int) -> Seq<u8> {
    Seq::new(n as nat, |i: int| 0u8)
}

/// The state after `n` zero bytes were taken for a run.
pub open spec fn with_zeros(state: ReassemblyView, n: int) -> ReassemblyView {
    ReassemblyView {
        data: state.data + zeros(n),
        bytes_remaining: state.bytes_remaining - n,
        ..state
    }
}

/// The state after a run: after a read that gave `bytes`, as many of them
/// as are still to come are taken; after a read that failed, zeros stand
/// for the run and the failure is counted.
pub open spec fn after_read(
    state: ReassemblyView,
    run: DataRun,
    cluster_size: u64,
    read: Option<Seq<u8>>,
) -> ReassemblyView {
    match read {
        Some(bytes) => {
            let take = if bytes.len() <= state.bytes_remaining {
                bytes.len() as int
            } else {
                state.bytes_remaining
            };
            ReassemblyView {
                data: state.data + bytes.take(take),
                bytes_remaining: state.bytes_remaining - take,
                successful_runs: if state.successful_runs < u32::MAX {
                    state.successful_runs + 1
                } else {
                    state.successful_runs
                },
                ..state
            }
        },
        None => {
            let filled = with_zeros(state, run_bytes(run, state.bytes_remaining, cluster_size));
            ReassemblyView {
                failed_runs: if state.failed_runs < u32::MAX {
                    state.failed_runs + 1
                } else {
                    state.failed_runs
                },
                ..filled
            }
        },
    }
}

/// A reassembly never holds more than the file: whatever a run gives, the
/// bytes that were taken and the bytes still to come add up to the same.
pub proof fn lemma_reassembly_keeps_size(
    state: ReassemblyView,
    run: DataRun,
    cluster_size: u64,
    read: Option<Seq<u8>>,
)
    requires
        state.bytes_remaining >= 0,
    ensures
        after_read(state, run, cluster_size, read).data.len() + after_read(
            state,
            run,
            cluster_size,
            read,
        ).bytes_remaining == state.data.len() + state.bytes_remaining,
        after_read(state, run, cluster_size, read).bytes_remaining >= 0,
        with_zeros(state, run_bytes(run, state.bytes_remaining, cluster_size)).data.len()
            + with_zeros(
            state,
            run_bytes(run, state.bytes_remaining, cluster_size),
        ).bytes_remaining == state.data.len() + state.bytes_remaining,
        with_zeros(state, run_bytes(run, state.bytes_remaining, cluster_size)).bytes_remaining >= 0,
{
    assert(run.cluster_count * cluster_size >= 0) by (nonlinear_arith)
        requires
            run.cluster_count >= 0,
            cluster_size >= 0,
    ;
}

fn push_zeros(data: &mut Vec<u8>, n: usize)
    ensures
        final(data)@ == old(data)@ + zeros(n as int),
{
    let mut k: usize = 0;
    assert(data@ =~= old(data)@ + zeros(0));
    while k < n
        invariant
            k <= n,
            data@ == old(data)@ + zeros(k as int),
        decreases n - k,
    {
        data.push(0);
        k += 1;
        assert(data@ =~= old(data)@ + zeros(k as int));
    }
}

/// Takes zeros for a sparse run.
pub fn absorb_zeros(state: &mut Reassembly, run: &DataRun, cluster_size: u64)
    ensures
        final(state)@ == with_zeros(
            old(state)@,
            run_bytes(*run, old(state).bytes_remaining as int, cluster_size),
        ),
{
    let n: usize = bytes_of_run(run, state.bytes_remaining, cluster_size);
    push_zeros(&mut state.data, n);
    state.bytes_remaining = state.bytes_remaining - n;
}

/// Takes what a read for a run gave; `None` stands for a read that failed.
pub fn absorb_read(state: &mut Reassembly, run: &DataRun, cluster_size: u64, read: Option<&[u8]>)
    ensures
        final(state)@ == after_read(
            old(state)@,
            *run,
            cluster_size,
            match read {
                Some(bytes) => Some(bytes@),
                None => None,
            },
        ),
{
    match read {
        Some(bytes) => {
            let take: usize = if bytes.len() <= state.bytes_remaining {
                bytes.len()
            } else {
                state.bytes_remaining
            };
            let part = &bytes[0..take];
            assert(part@ =~= bytes@.take(take as int));
            state.data.extend_from_slice(part);
            assert(state.data@ =~= old(state).data@ + part@);
            state.bytes_remaining = state.bytes_remaining - take;
            if state.successful_runs < u32::MAX {
                state.successful_runs = state.successful_runs + 1;
            }
        },
        None => {
            let n: usize = bytes_of_run(run, state.bytes_remaining, cluster_size);
            push_zeros(&mut state.data, n);
            state.bytes_remaining = state.bytes_remaining - n;
            if state.failed_runs < u32::MAX {
                state.failed_runs = state.failed_runs + 1;
            }
        },
    }
}

/// What the reassembly of a file came to.
#[derive(Clone, Copy, Debug, PartialEq, Eq, Structural)]
pub enum Verdict {
    /// No byte was read: the next way is to be tried.
    Nothing,
    /// The validator refused the bytes: nothing is to be written, and no
    /// other way is to be tried.
    Rejected(Corruption),
    /// The bytes are to be written; every run was read.
    Complete,
    /// The bytes are to be written; zeros stand for runs that could not be
    /// read.
    Partial,
}

/// What bytes that were reassembled come to, for a file whose extension in
/// lowercase is `ext`.
pub open spec fn verdict_of(state: ReassemblyView, ext: Seq<char>) -> Verdict {
    if state.data.len() == 0 {
        Verdict::Nothing
    } else {
        match corruption_of(state.data, ext) {
            Some(kind) => Verdict::Rejected(kind),
            None => if state.failed_runs > 0 {
                Verdict::Partial
            } else {
                Verdict::Complete
            },
        }
    }
}

/// Judges the bytes that were reassembled, for a file whose extension in
/// lowercase is `ext`.
pub fn judge_reassembly(state: &Reassembly, ext: &str) -> (r: Verdict)
    ensures
        r == verdict_of(state@, ext@),
{
    if state.data.len() == 0 {
        return Verdict::Nothing;
    }
    match find_corruption(state.data.as_slice(), ext) {
        Some(kind) => Verdict::Rejected(kind),
        None => if state.failed_runs > 0 {
            Verdict::Partial
        } else {
            Verdict::Complete
        },
    }
}

/// How a reassembly ended, by what its bytes came to. Bytes that are to be
/// written are a recovery, bytes that were refused are corrupt, and no
/// bytes are a failure.
pub open spec fn verdict_outcome(verdict: Verdict) -> Outcome {
    match verdict {
        Verdict::Complete => Outcome::Recovered,
        Verdict::Partial => Outcome::Recovered,
        Verdict::Rejected(_) => Outcome::Corrupt,
        Verdict::Nothing => Outcome::Failed,
    }
}

pub fn outcome_of(verdict: Verdict) -> (r: Outcome)
    ensures
        r == verdict_outcome(verdict),
{
    match verdict {
        Verdict::Complete => Outcome::Recovered,
        Verdict::Partial => Outcome::Recovered,
        Verdict::Rejected(_) => Outcome::Corrupt,
        Verdict::Nothing => Outcome::Failed,
    }
}

/// The error that a verdict stands for: corrupt output for bytes that were
/// refused, a failed read where no bytes were read, none for bytes that are
/// to be written.
pub fn verdict_error(verdict: Verdict) -> (r: Option<RecoveryError>)
    ensures
        r == match verdict {
            Verdict::Complete => None,
            Verdict::Partial => None,
            Verdict::Rejected(_) => Some(RecoveryError::CorruptOutput),
            Verdict::Nothing => Some(RecoveryError::Io),
        },
{
    match verdict {
        Verdict::Complete => None,
        Verdict::Partial => None,
        Verdict::Rejected(_) => Some(RecoveryError::CorruptOutput),
        Verdict::Nothing => Some(RecoveryError::Io),
    }
}

// ---------------------------------------------------------------------
// Content inside the record
// ---------------------------------------------------------------------

/// Why a record gave no content.
#[derive(Clone, Copy, Debug, PartialEq, Eq, Structural)]
pub enum ResidentFailure {
    /// The buffer holds no record.
    NoRecord,
    /// The record bears the name of another file: the slot was taken.
    SlotReused,
    /// The record holds no content of the file.
    NoContent,
    /// The file is larger than `MAX_RESIDENT_SIZE`: it does not lie in its
    /// record.
    TooLarge,
}

/// The content of a file by its record: the file must be no larger than
/// `MAX_RESIDENT_SIZE`, and the record must be one, bear the name of the
/// file, compared in lowercase, and hold content, of which the file has at
/// least one byte.
pub open spec fn resident_content(record: Seq<u8>, name: Seq<char>, size: u64) -> Result<
    Seq<u8>,
    ResidentFailure,
> {
    if size > MAX_RESIDENT_SIZE {
        Err(ResidentFailure::TooLarge)
    } else {
        match record_entry(record, 0) {
            None => Err(ResidentFailure::NoRecord),
            Some(e) => if lowercase(e.file_name) != lowercase(name) {
                Err(ResidentFailure::SlotReused)
            } else {
                match resident_data_of(record, size) {
                    Some(data) => if data.len() > 0 {
                        Ok(data)
                    } else {
                        Err(ResidentFailure::NoContent)
                    },
                    None => Err(ResidentFailure::NoContent),
                }
            },
        }
    }
}

/// Takes the content of a file out of its record, after a check that the
/// record still bears the name of the file.
pub fn recover_resident_file(record: &[u8], file_name: &str, file_size: u64) -> (r: Result<
    Vec<u8>,
    ResidentFailure,
>)
    ensures
        match r {
            Ok(data) => resident_content(record@, file_name@, file_size) == Ok::<
                Seq<u8>,
                ResidentFailure,
            >(data@),
            Err(e) => resident_content(record@, file_name@, file_size) == Err::<
                Seq<u8>,
                ResidentFailure,
            >(e),
        },
{
    if file_size > MAX_RESIDENT_SIZE {
        return Err(ResidentFailure::TooLarge);
    }
    match parse_mft_record(record, 0) {
        None => Err(ResidentFailure::NoRecord),
        Some(entry) => {
            let found = to_lowercase(entry.file_name.as_str());
            let wanted = to_lowercase(file_name);
            if !text_eq(found.as_str(), wanted.as_str()) {
                return Err(ResidentFailure::SlotReused);
            }
            match extract_resident_data(record, file_size) {
                Some(data) => if data.len() > 0 {
                    Ok(data)
                } else {
                    Err(ResidentFailure::NoContent)
                },
                None => Err(ResidentFailure::NoContent),
            }
        },
    }
}

/// The name that a record bears, or `None` where the buffer holds no
/// record.
pub fn extract_filename_from_record(record: &[u8]) -> (r: Option<String>)
    ensures
        match r {
            Some(name) => record_entry(record@, 0) matches Some(e) && e.file_name == name@,
            None => record_entry(record@, 0).is_none(),
        },
{
    match parse_mft_record(record, 0) {
        Some(entry) => Some(entry.file_name),
        None => None,
    }
}

// ---------------------------------------------------------------------
// The recycle bin
// ---------------------------------------------------------------------

/// What the metadata file of a recycled item says.
#[derive(Clone, Debug)]
pub struct RecycleInfo {
    /// The version of the format: 1 or 2.
    pub version: u64,
    /// The size of the item in bytes.
    pub file_size: u64,
    /// When the item was deleted, in 100-nanosecond ticks since 1601.
    pub deleted_at: i64,
    /// Where the item stood.
    pub original_path: String,
}

pub ghost struct RecycleInfoView {
    pub version: u64,
    pub file_size: u64,
    pub deleted_at: i64,
    pub original_path: Seq<char>,
}

impl View for RecycleInfo {
    type V = RecycleInfoView;

    open spec fn view(&self) -> RecycleInfoView {
        RecycleInfoView {
            version: self.version,
            file_size: self.file_size,
            deleted_at: self.deleted_at,
            original_path: self.original_path@,
        }
    }
}

/// Where the path of a metadata file starts, and how many UTF-16 code
/// units it has: in version 2 a count at offset 24 and the path behind it;
/// in any other version up to 260 code units from offset 24 on. `None`
/// where the path that version 2 announces does not lie inside the file.
pub open spec fn recycle_path_span(data: Seq<u8>) -> Option<(int, int)> {
    if le_u64(data, 0) == 2 {
        if 28 + 2 * le_u32(data, 24) <= data.len() {
            Some((28, le_u32(data, 24)))
        } else {
            None
        }
    } else if data.len() >= 544 {
        Some((24, 260))
    } else {
        Some((24, (data.len() - 24) / 2))
    }
}

/// What a metadata file of the recycle bin says; `None` where it has fewer
/// than 28 bytes or its path does not lie inside it. Zero characters at the
/// end of the path are not part of it.
pub open spec fn recycle_info_of(data: Seq<u8>) -> Option<RecycleInfoView> {
    if data.len() < 28 {
        None
    } else {
        match recycle_path_span(data) {
            None => None,
            Some((start, count)) => Some(
                RecycleInfoView {
                    version: le_u64(data, 0) as u64,
                    file_size: le_u64(data, 8) as u64,
                    deleted_at: le_i64(data, 16) as i64,
                    original_path: trimmed_end(
                        utf16_lossy(name_units(data, start, count)),
                        '\0',
                    ),
                },
            ),
        }
    }
}

/// Decodes a metadata file of the recycle bin.
pub fn parse_recycle_info(data: &[u8]) -> (r: Option<RecycleInfo>)
    ensures
        match r {
            Some(info) => recycle_info_of(data@) == Some(info@),
            None => recycle_info_of(data@).is_none(),
        },
{
    let len: usize = data.len();
    if len < 28 {
        return None;
    }
    let version: u64 = read_le_u64(data, 0);
    let start: usize;
    let count: usize;
    if version == 2 {
        let announced: usize = read_le_u32(data, 24) as usize;
        if announced > (len - 28) / 2 {
            return None;
        }
        start = 28;
        count = announced;
    } else if len >= 544 {
        start = 24;
        count = 260;
    } else {
        start = 24;
        count = (len - 24) / 2;
    }
    let mut units: Vec<u16> = Vec::new();
    let mut i: usize = 0;
    while i < count
        invariant
            i <= count,
            start + 2 * count <= data.len(),
            units@ == name_units(data@, start as int, i as int),
        decreases count - i,
    {
        let unit: u16 = read_le_u16(data, start + 2 * i);
        units.push(unit);
        assert(units@ =~= name_units(data@, start as int, i + 1));
        i += 1;
    }
    let path = from_utf16_lossy(units.as_slice());
    Some(
        RecycleInfo {
            version,
            file_size: read_le_u64(data, 8),
            deleted_at: read_le_i64(data, 16),
            original_path: trim_end_char(path.as_str(), '\0').to_owned(),
        },
    )
}

/// The index behind the last separator of a path, backslash or slash.
pub open spec fn base_name_start(path: Seq<char>) -> int {
    let back = match last_index_of(path, '\\', path.len() as int) {
        Some(i) => i + 1,
        None => 0,
    };
    let forward = match last_index_of(path, '/', path.len() as int) {
        Some(i) => i + 1,
        None => 0,
    };
    if back >= forward {
        back
    } else {
        forward
    }
}

/// The last part of a path.
pub open spec fn base_name(path: Seq<char>) -> Seq<char> {
    path.skip(base_name_start(path))
}

/// The last part of a path.
pub fn base_name_of<'a>(path: &'a str) -> (r: &'a str)
    ensures
        r@ == base_name(path@),
{
    let chars = chars_of(path);
    let n: usize = chars.len();
    let back: usize = match chars_rfind(chars.as_slice(), '\\') {
        Some(i) => i + 1,
        None => 0,
    };
    let forward: usize = match chars_rfind(chars.as_slice(), '/') {
        Some(i) => i + 1,
        None => 0,
    };
    let start: usize = if back >= forward {
        back
    } else {
        forward
    };
    let r = path.substring_char(start, n);
    assert(r@ =~= path@.skip(start as int));
    r
}

/// The extension of a name with its dot, in lowercase; empty where the name
/// has no dot.
pub open spec fn dotted_extension(name: Seq<char>) -> Seq<char> {
    match last_index_of(name, '.', name.len() as int) {
        Some(dot) => lowercase(name.skip(dot)),
        None => Seq::empty(),
    }
}

fn dotted_extension_of(name: &str) -> (r: String)
    ensures
        r@ == dotted_extension(name@),
{
    let chars = chars_of(name);
    let n: usize = chars.len();
    match chars_rfind(chars.as_slice(), '.') {
        Some(dot) => {
            let rest = name.substring_char(dot, n);
            assert(rest@ =~= name@.skip(dot as int));
            to_lowercase(rest)
        },
        None => String::new(),
    }
}

/// A file of the recycle bin may be the metadata of the file `target`: its
/// name starts with `$I`, and its extension is that of the target where the
/// target has one.
pub open spec fn may_describe(info_name: Seq<char>, target: Seq<char>) -> bool {
    has_prefix(info_name, "$I"@) && (dotted_extension(target).len() == 0 || dotted_extension(
        info_name,
    ) == dotted_extension(target))
}

/// Tells whether a file of the recycle bin may be the metadata of a file.
pub fn is_info_file_for(info_name: &str, target_name: &str) -> (r: bool)
    ensures
        r == may_describe(info_name@, target_name@),
{
    let chars = chars_of(info_name);
    let mark = chars_of("$I");
    if !chars_start_with(chars.as_slice(), mark.as_slice()) {
        return false;
    }
    let wanted = dotted_extension_of(target_name);
    if wanted.as_str().is_empty() {
        return true;
    }
    let found = dotted_extension_of(info_name);
    text_eq(found.as_str(), wanted.as_str())
}

/// The metadata names the file `target`: the last part of its path is the
/// name of the target, compared in lowercase.
pub open spec fn names_target(info: RecycleInfoView, target: Seq<char>) -> bool {
    lowercase(base_name(info.original_path)) == lowercase(target)
}

/// Tells whether the metadata of a recycled item names a file.
pub fn info_names_target(info: &RecycleInfo, target_name: &str) -> (r: bool)
    ensures
        r == names_target(info@, target_name@),
{
    let found = to_lowercase(base_name_of(info.original_path.as_str()));
    let wanted = to_lowercase(target_name);
    text_eq(found.as_str(), wanted.as_str())
}

/// The name of the file that holds the content of a recycled item, given
/// the name of its metadata file: `$R` in place of the first two
/// characters, and `$R` alone for a name of fewer than two.
pub fn sibling_name(info_name: &str) -> (r: String)
    ensures
        r@ == if info_name@.len() >= 2 {
            "$R"@ + info_name@.skip(2)
        } else {
            "$R"@
        },
{
    let n: usize = info_name.unicode_len();
    let mut name = "$R".to_owned();
    if n >= 2 {
        let rest = info_name.substring_char(2, n);
        assert(rest@ =~= info_name@.skip(2));
        name.append(rest);
    }
    name
}

// ---------------------------------------------------------------------
// Carving on the volume
// ---------------------------------------------------------------------

/// A format that is searched for on the volume when a single file is
/// wanted.
#[derive(Clone, Copy, Debug)]
pub struct CarvingSignature {
    pub extension: &'static str,
    pub header: &'static [u8],
    pub footer: Option<&'static [u8]>,
    pub max_size: u64,
}

/// The size of the pieces in which the volume is read.
pub const CARVE_CHUNK_SIZE: u64 = 4 * 1024 * 1024;

/// The most bytes of the volume that are searched for one file.
pub const MAX_CARVE_SCAN: u64 = 8 * 1024 * 1024 * 1024;

/// The most header matches that are looked at for one file.
pub const MAX_CARVE_CANDIDATES: u32 = 50;

/// The size below which a carved file is dropped.
pub const MIN_CARVED_SIZE: usize = 1024;

/// A signature has the given extension, header, footer and size cap.
pub open spec fn signature_is(
    sig: CarvingSignature,
    extension: Seq<char>,
    header: Seq<u8>,
    footer: Option<Seq<u8>>,
    max_size: int,
) -> bool {
    &&& sig.extension@ == extension
    &&& sig.header@ == header
    &&& match sig.footer {
        Some(f) => footer == Some(f@),
        None => footer.is_none(),
    }
    &&& sig.max_size == max_size
}

/// The formats that are searched for on the volume.
pub fn get_carving_signatures() -> (sigs: Vec<CarvingSignature>)
    ensures
        sigs@.len() == 8,
        signature_is(
            sigs@[0],
            "pdf"@,
            seq![0x25u8, 0x50, 0x44, 0x46, 0x2D],
            Some(seq![0x25u8, 0x25, 0x45, 0x4F, 0x46]),
            0x1F40_0000,
        ),
        signature_is(
            sigs@[1],
            "jpg"@,
            seq![0xFFu8, 0xD8, 0xFF],
            Some(seq![0xFFu8, 0xD9]),
            0x640_0000,
        ),
        signature_is(
            sigs@[2],
            "png"@,
            seq![0x89u8, 0x50, 0x4E, 0x47, 0x0D, 0x0A, 0x1A, 0x0A],
            Some(seq![0x49u8, 0x45, 0x4E, 0x44, 0xAE, 0x42, 0x60, 0x82]),
            0x640_0000,
        ),
        signature_is(sigs@[3], "zip"@, seq![0x50u8, 0x4B, 0x03, 0x04], None, 0x1F40_0000),
        signature_is(sigs@[4], "docx"@, seq![0x50u8, 0x4B, 0x03, 0x04], None, 0x640_0000),
        signature_is(sigs@[5], "xlsx"@, seq![0x50u8, 0x4B, 0x03, 0x04], None, 0x640_0000),
        signature_is(sigs@[6], "mp3"@, seq![0x49u8, 0x44, 0x33], None, 0x320_0000),
        signature_is(
            sigs@[7],
            "mp4"@,
            seq![0x66u8, 0x74, 0x79, 0x70],
            None,
            0x8000_0000,
        ),
{
    let sigs = vec![
        CarvingSignature {
            extension: "pdf",
            header: &[0x25, 0x50, 0x44, 0x46, 0x2D],
            footer: Some(&[0x25, 0x25, 0x45, 0x4F, 0x46]),
            max_size: 500 * 1024 * 1024,
        },
        CarvingSignature {
            extension: "jpg",
            header: &[0xFF, 0xD8, 0xFF],
            footer: Some(&[0xFF, 0xD9]),
            max_size: 100 * 1024 * 1024,
        },
        CarvingSignature {
            extension: "png",
            header: &[0x89, 0x50, 0x4E, 0x47, 0x0D, 0x0A, 0x1A, 0x0A],
            footer: Some(&[0x49, 0x45, 0x4E, 0x44, 0xAE, 0x42, 0x60, 0x82]),
            max_size: 100 * 1024 * 1024,
        },
        CarvingSignature {
            extension: "zip",
            header: &[0x50, 0x4B, 0x03, 0x04],
            footer: None,
            max_size: 500 * 1024 * 1024,
        },
        CarvingSignature {
            extension: "docx",
            header: &[0x50, 0x4B, 0x03, 0x04],
            footer: None,
            max_size: 100 * 1024 * 1024,
        },
        CarvingSignature {
            extension: "xlsx",
            header: &[0x50, 0x4B, 0x03, 0x04],
            footer: None,
            max_size: 100 * 1024 * 1024,
        },
        CarvingSignature {
            extension: "mp3",
            header: &[0x49, 0x44, 0x33],
            footer: None,
            max_size: 50 * 1024 * 1024,
        },
        CarvingSignature {
            extension: "mp4",
            header: &[0x66, 0x74, 0x79, 0x70],
            footer: None,
            max_size: 2 * 1024 * 1024 * 1024,
        },
    ];
    assert(sigs@[0].header@ =~= seq![0x25u8, 0x50, 0x44, 0x46, 0x2D]);
    assert(sigs@[0].footer->0@ =~= seq![0x25u8, 0x25, 0x45, 0x4F, 0x46]);
    assert(sigs@[1].header@ =~= seq![0xFFu8, 0xD8, 0xFF]);
    assert(sigs@[1].footer->0@ =~= seq![0xFFu8, 0xD9]);
    assert(sigs@[2].header@ =~= seq![0x89u8, 0x50, 0x4E, 0x47, 0x0D, 0x0A, 0x1A, 0x0A]);
    assert(sigs@[2].footer->0@ =~= seq![0x49u8, 0x45, 0x4E, 0x44, 0xAE, 0x42, 0x60, 0x82]);
    assert(sigs@[3].header@ =~= seq![0x50u8, 0x4B, 0x03, 0x04]);
    assert(sigs@[4].header@ =~= seq![0x50u8, 0x4B, 0x03, 0x04]);
    assert(sigs@[5].header@ =~= seq![0x50u8, 0x4B, 0x03, 0x04]);
    assert(sigs@[6].header@ =~= seq![0x49u8, 0x44, 0x33]);
    assert(sigs@[7].header@ =~= seq![0x66u8, 0x74, 0x79, 0x70]);
    sigs
}

/// The index of the first signature from `from` on with extension `ext`.
pub open spec fn signature_index(sigs: Seq<CarvingSignature>, ext: Seq<char>, from: int) -> Option<
    int,
>
    decreases sigs.len() - from,
{
    if from < 0 || from >= sigs.len() {
        None
    } else if sigs[from].extension@ == ext {
        Some(from)
    } else {
        signature_index(sigs, ext, from + 1)
    }
}

/// Finds the first signature with a given extension.
pub fn find_carving_signature(sigs: &Vec<CarvingSignature>, ext: &str) -> (r: Option<
    CarvingSignature,
>)
    ensures
        match r {
            Some(sig) => signature_index(sigs@, ext@, 0) matches Some(k) && sigs@[k] == sig,
            None => signature_index(sigs@, ext@, 0).is_none(),
        },
{
    let mut k: usize = 0;
    while k < sigs.len()
        invariant
            k <= sigs.len(),
            signature_index(sigs@, ext@, k as int) == signature_index(sigs@, ext@, 0),
        decreases sigs.len() - k,
    {
        if text_eq(sigs[k].extension, ext) {
            return Some(sigs[k]);
        }
        k += 1;
    }
    None
}

/// The largest size that a carved file may have: a fifth more than the
/// size that is known of the file, or the cap of the format where no size
/// is known.
pub fn carve_size_limit(file_size: u64, format_max: u64) -> (r: u64)
    ensures
        r == if file_size == 0 {
            format_max
        } else if file_size + file_size / 5 <= u64::MAX {
            (file_size + file_size / 5) as u64
        } else {
            u64::MAX
        },
{
    if file_size == 0 {
        format_max
    } else {
        file_size.saturating_add(file_size / 5)
    }
}

/// The part of a file name in front of its last dot; the whole name where
/// it has no dot.
pub open spec fn stem_of(name: Seq<char>) -> Seq<char> {
    match last_index_of(name, '.', name.len() as int) {
        Some(dot) => name.take(dot),
        None => name,
    }
}

/// The first index at or after `at` that holds no letter or digit.
pub open spec fn word_end(s: Seq<char>, at: int) -> int
    decreases s.len() - at,
{
    if 0 <= at < s.len() && letter_or_digit(s[at]) {
        word_end(s, at + 1)
    } else {
        at
    }
}

/// The keywords in `s` from `at` on: the runs of letters and digits of at
/// least three bytes, in lowercase.
pub open spec fn keywords_from(s: Seq<char>, at: int) -> Seq<Seq<char>>
    decreases s.len() - at,
    via keywords_from_decreases
{
    if at < 0 || at >= s.len() {
        Seq::empty()
    } else if !letter_or_digit(s[at]) {
        keywords_from(s, at + 1)
    } else {
        let end = word_end(s, at + 1);
        let word = s.subrange(at, end);
        if utf8_len(word) >= 3 {
            seq![lowercase(word)] + keywords_from(s, end)
        } else {
            keywords_from(s, end)
        }
    }
}

#[via_fn]
proof fn keywords_from_decreases(s: Seq<char>, at: int) {
    if 0 <= at < s.len() && letter_or_digit(s[at]) {
        lemma_word_end(s, at + 1);
    }
}

/// The keywords of a file name: those of its stem.
pub open spec fn keywords_of(name: Seq<char>) -> Seq<Seq<char>> {
    keywords_from(stem_of(name), 0)
}

proof fn lemma_word_end(s: Seq<char>, at: int)
    requires
        0 <= at <= s.len(),
    ensures
        at <= word_end(s, at) <= s.len(),
    decreases s.len() - at,
{
    if at < s.len() && letter_or_digit(s[at]) {
        lemma_word_end(s, at + 1);
    }
}

/// Takes the keywords out of a file name.
pub fn extract_keywords(file_name: &str) -> (r: Vec<String>)
    ensures
        string_texts(r@) == keywords_of(file_name@),
{
    let mut keywords: Vec<String> = Vec::new();
    let name_chars = chars_of(file_name);
    assert(string_texts(keywords@) =~= Seq::<Seq<char>>::empty());
    let dot: usize = match chars_rfind(name_chars.as_slice(), '.') {
        Some(dot) => dot,
        None => name_chars.len(),
    };
    let stem = file_name.substring_char(0, dot);
    assert(stem@ =~= file_name@.take(dot as int));
    assert(file_name@.take(file_name@.len() as int) =~= file_name@);
    let chars = chars_of(stem);
    let len: usize = chars.len();
    let mut at: usize = 0;
    while at < len
        invariant
            at <= len,
            len == chars@.len(),
            chars@ == stem@,
            string_texts(keywords@) + keywords_from(stem@, at as int) == keywords_from(stem@, 0),
        decreases len - at,
    {
        let ghost before = string_texts(keywords@);
        if !chars[at].is_alphanumeric() {
            at += 1;
        } else {
            let mut end: usize = at + 1;
            while end < len && chars[end].is_alphanumeric()
                invariant
                    at < end <= len,
                    len == chars@.len(),
                    chars@ == stem@,
                    word_end(stem@, end as int) == word_end(stem@, at + 1),
                decreases len - end,
            {
                end += 1;
            }
            let ghost rest = keywords_from(stem@, end as int);
            let word = stem.substring_char(at, end);
            if word.as_bytes().len() >= 3 {
                let keyword = to_lowercase(word);
                let ghost k = keyword@;
                keywords.push(keyword);
                assert(string_texts(keywords@) =~= before + seq![k]);
                assert((before + seq![k]) + rest =~= before + (seq![k] + rest));
            }
            at = end;
        }
    }
    assert(string_texts(keywords@) + Seq::<Seq<char>>::empty() =~= string_texts(keywords@));
    keywords
}

/// Where in a buffer the next header match lies: the first offset from
/// `from` on, and `lead` at least, at which `header` stands inside the
/// buffer. A header of no bytes stands nowhere.
pub open spec fn next_header(buf: Seq<u8>, header: Seq<u8>, from: int, lead: int) -> Option<int> {
    if header.len() == 0 {
        None
    } else {
        first_occurrence(
            buf,
            header,
            if from >= lead {
                from
            } else {
                lead
            },
            buf.len() - header.len() + 1,
        )
    }
}

/// Finds the next header match in a buffer.
pub fn find_header(buf: &[u8], header: &[u8], from: usize, lead: usize) -> (r: Option<usize>)
    ensures
        match r {
            Some(i) => next_header(buf@, header@, from as int, lead as int) == Some(i as int),
            None => next_header(buf@, header@, from as int, lead as int).is_none(),
        },
{
    let start: usize = if from >= lead {
        from
    } else {
        lead
    };
    if header.len() == 0 {
        return None;
    }
    if buf.len() < header.len() {
        assert(first_occurrence(
            buf@,
            header@,
            start as int,
            buf@.len() - header@.len() + 1,
        ).is_none());
        return None;
    }
    find_first(buf, header, start, buf.len() - header.len() + 1)
}

/// The number of bytes of a file that stand in front of its header: four
/// for the format `mp4`, whose header is the name of its first atom, and
/// none for the others.
pub fn header_lead(ext: &str) -> (r: usize)
    ensures
        r == if ext@ == "mp4"@ {
            4usize
        } else {
            0usize
        },
{
    if text_eq(ext, "mp4") {
        4
    } else {
        0
    }
}

/// Where the search of the volume stands.
#[derive(Debug)]
pub struct VolumeScan {
    /// The byte of the volume at which the next piece starts.
    pub scan_offset: u64,
    /// The number of bytes that were searched.
    pub scanned: u64,
    /// The number of header matches that were found.
    pub candidates: u32,
    /// The last bytes of the piece before, in which a header may begin.
    pub tail: Vec<u8>,
}

/// Starts a search at the front of the volume.
pub fn start_volume_scan() -> (scan: VolumeScan)
    ensures
        scan.scan_offset == 0,
        scan.scanned == 0,
        scan.candidates == 0,
        scan.tail@.len() == 0,
{
    VolumeScan { scan_offset: 0, scanned: 0, candidates: 0, tail: Vec::new() }
}

/// The cluster at which the next piece of the volume is read, in clusters of
/// `cluster_size` bytes; none where the search is over: a perfect match
/// was found, or one of the caps was reached. Once the operator has asked
/// for the search to stop, it is cancelled.
pub fn next_piece(scan: &VolumeScan, perfect: bool, cancelled: bool, cluster_size: u64) -> (r:
    Result<Option<u64>, RecoveryError>)
    ensures
        r == if cancelled {
            Err::<Option<u64>, RecoveryError>(RecoveryError::Cancelled)
        } else if !perfect && cluster_size > 0 && scan.scanned < MAX_CARVE_SCAN && scan.candidates
            < MAX_CARVE_CANDIDATES {
            Ok::<Option<u64>, RecoveryError>(Some(scan.scan_offset / cluster_size))
        } else {
            Ok::<Option<u64>, RecoveryError>(None)
        },
{
    if cancelled {
        Err(RecoveryError::Cancelled)
    } else if perfect || cluster_size == 0 || !carve_continues(scan.scanned, scan.candidates) {
        Ok(None)
    } else {
        Ok(Some(scan.scan_offset / cluster_size))
    }
}

/// A sum, or the largest 64-bit number where it is larger.
pub open spec fn capped_sum(a: u64, b: int) -> u64 {
    if a + b <= u64::MAX {
        (a + b) as u64
    } else {
        u64::MAX
    }
}

/// Passes over a piece that could not be read.
pub fn skip_piece(scan: &mut VolumeScan)
    ensures
        final(scan).scan_offset == capped_sum(old(scan).scan_offset, CARVE_CHUNK_SIZE as int),
        final(scan).scanned == capped_sum(old(scan).scanned, CARVE_CHUNK_SIZE as int),
        final(scan).candidates == old(scan).candidates,
        final(scan).tail@ == old(scan).tail@,
{
    scan.scan_offset = scan.scan_offset.saturating_add(CARVE_CHUNK_SIZE);
    scan.scanned = scan.scanned.saturating_add(CARVE_CHUNK_SIZE);
}

/// The offsets in `buf` from `from` on at which `header` stands, in rising
/// order, `room` of them at most.
pub open spec fn header_positions(buf: Seq<u8>, header: Seq<u8>, from: int, lead: int, room: int) -> Seq<
    int,
>
    decreases buf.len() - from, room,
{
    if room <= 0 || from < 0 {
        Seq::empty()
    } else {
        match next_header(buf, header, from, lead) {
            Some(at) => if at >= from && at < buf.len() {
                seq![at] + header_positions(buf, header, at + 1, lead, room - 1)
            } else {
                Seq::empty()
            },
            None => Seq::empty(),
        }
    }
}

/// The bytes of the volume at which the files start whose headers stand at
/// `positions` of a buffer that starts `overlap` bytes in front of the byte
/// `scan_offset`; a file starts `lead` bytes in front of its header.
/// Positions whose start does not lie on the volume are left out.
pub open spec fn candidate_starts(
    positions: Seq<int>,
    scan_offset: u64,
    lead: int,
    overlap: int,
) -> Seq<u64>
    decreases positions.len(),
{
    if positions.len() == 0 {
        Seq::empty()
    } else {
        let rest = candidate_starts(positions.drop_last(), scan_offset, lead, overlap);
        let start = scan_offset + positions.last() - lead - overlap;
        if 0 <= start <= u64::MAX {
            rest.push(start as u64)
        } else {
            rest
        }
    }
}

/// The number of bytes at the end of a piece that are kept for the search
/// of the next: as many as the header has, and eight at least.
pub open spec fn overlap_of(header: Seq<u8>) -> int {
    if header.len() >= 8 {
        header.len() as int
    } else {
        8
    }
}

/// The tail that is kept after a piece: the last bytes of what was
/// searched, the tail from before and the piece, as many as the overlap
/// has, or all of it where that is less.
pub open spec fn tail_after(tail: Seq<u8>, chunk: Seq<u8>, header: Seq<u8>) -> Seq<u8> {
    let searched = tail + chunk;
    if searched.len() > overlap_of(header) {
        searched.skip(searched.len() - overlap_of(header))
    } else {
        searched
    }
}

/// The first offset in a buffer at which a header match is new: one that
/// ends behind the tail of `tail_len` bytes with which the buffer starts.
/// A match that lies wholly inside the tail was found with the piece
/// before.
pub open spec fn first_new_match(tail_len: int, header_len: int) -> int {
    if header_len > 0 && tail_len >= header_len {
        tail_len - header_len + 1
    } else {
        0
    }
}

/// Searches a piece of the volume for the header of a format. The piece is
/// searched together with the tail of the piece before, so that a header
/// across the boundary is found; a header that ends with the piece is
/// found with it, and none is found twice. Gives the bytes of the volume
/// at which the files of the matches start, and moves the search behind
/// the piece.
pub fn search_piece(scan: &mut VolumeScan, chunk: &[u8], header: &[u8], lead: usize) -> (starts: Vec<
    u64,
>)
    ensures
        ({
            let positions = header_positions(
                old(scan).tail@ + chunk@,
                header@,
                first_new_match(old(scan).tail@.len() as int, header@.len() as int),
                lead as int,
                MAX_CARVE_CANDIDATES - old(scan).candidates,
            );
            &&& starts@ == candidate_starts(
                positions,
                old(scan).scan_offset,
                lead as int,
                old(scan).tail@.len() as int,
            )
            &&& final(scan).candidates == old(scan).candidates + positions.len()
        }),
        old(scan).candidates <= MAX_CARVE_CANDIDATES ==> final(scan).candidates
            <= MAX_CARVE_CANDIDATES,
        final(scan).scan_offset == capped_sum(old(scan).scan_offset, chunk@.len() as int),
        final(scan).scanned == capped_sum(old(scan).scanned, chunk@.len() as int),
        final(scan).tail@ == tail_after(old(scan).tail@, chunk@, header@),
{
    let mut buffer: Vec<u8> = Vec::new();
    buffer.extend_from_slice(scan.tail.as_slice());
    buffer.extend_from_slice(chunk);
    assert(buffer@ =~= old(scan).tail@ + chunk@);
    let overlap: usize = scan.tail.len();
    let room: u32 = if scan.candidates <= MAX_CARVE_CANDIDATES {
        MAX_CARVE_CANDIDATES - scan.candidates
    } else {
        0
    };
    let first: usize = if header.len() > 0 && overlap >= header.len() {
        overlap - header.len() + 1
    } else {
        0
    };
    let ghost all = header_positions(
        buffer@,
        header@,
        first as int,
        lead as int,
        MAX_CARVE_CANDIDATES - scan.candidates,
    );
    let mut starts: Vec<u64> = Vec::new();
    let mut found: u32 = 0;
    let mut from: usize = first;
    let total: usize = buffer.len();
    let mut open: bool = true;
    let ghost mut seen: Seq<int> = Seq::empty();
    while open && found < room
        invariant
            found <= room,
            from <= total,
            total == buffer@.len(),
            !open ==> header_positions(
                buffer@,
                header@,
                from as int,
                lead as int,
                MAX_CARVE_CANDIDATES - scan.candidates - found,
            ) =~= Seq::<int>::empty(),
            buffer@ == old(scan).tail@ + chunk@,
            overlap == old(scan).tail@.len(),
            scan.scan_offset == old(scan).scan_offset,
            seen.len() == found,
            room == 0 || room == MAX_CARVE_CANDIDATES - old(scan).candidates,
            scan.candidates == old(scan).candidates,
            seen + header_positions(
                buffer@,
                header@,
                from as int,
                lead as int,
                MAX_CARVE_CANDIDATES - scan.candidates - found,
            ) == all,
            starts@ == candidate_starts(seen, scan.scan_offset, lead as int, overlap as int),
        decreases
                (if open {
                    1int
                } else {
                    0int
                }) + room - found,
    {
        match find_header(buffer.as_slice(), header, from, lead) {
            None => {
                open = false;
            },
            Some(at) => {
                proof {
                    crate::bytes::lemma_first_occurrence(
                        buffer@,
                        header@,
                        if from >= lead {
                            from as int
                        } else {
                            lead as int
                        },
                        buffer@.len() - header@.len() + 1,
                    );
                }
                let ghost rest = header_positions(
                    buffer@,
                    header@,
                    at + 1,
                    lead as int,
                    room - found - 1,
                );
                let ghost before = seen;
                proof {
                    assert(next_header(buffer@, header@, from as int, lead as int) == Some(
                        at as int,
                    ));
                    assert(from <= at < buffer@.len());
                    assert(header_positions(
                        buffer@,
                        header@,
                        from as int,
                        lead as int,
                        MAX_CARVE_CANDIDATES - scan.candidates - found,
                    ) == seq![at as int] + rest);
                    seen = seen.push(at as int);
                    assert(seen.drop_last() =~= before);
                    assert((before + seq![at as int]) + rest =~= before + (seq![at as int] + rest));
                    assert(before.push(at as int) =~= before + seq![at as int]);
                }
                match candidate_offset(scan.scan_offset, at - lead, overlap) {
                    Some(start) => starts.push(start),
                    None => {},
                }
                found = found + 1;
                from = at + 1;
            },
        }
    }
    proof {
        assert(header_positions(
            buffer@,
            header@,
            from as int,
            lead as int,
            MAX_CARVE_CANDIDATES - scan.candidates - found,
        ) =~= Seq::<int>::empty());
        assert(seen + Seq::<int>::empty() =~= seen);
    }
    scan.candidates = scan.candidates + found;
    scan.scan_offset = scan.scan_offset.saturating_add(chunk.len() as u64);
    scan.scanned = scan.scanned.saturating_add(chunk.len() as u64);
    let keep: usize = if header.len() >= 8 {
        header.len()
    } else {
        8
    };
    if total > keep {
        let last = &buffer.as_slice()[total - keep..total];
        assert(last@ =~= buffer@.skip(buffer@.len() - keep));
        scan.tail = vstd::slice::slice_to_vec(last);
    } else {
        scan.tail = buffer;
    }
    starts
}

/// The best carved file so far.
#[derive(Debug)]
pub struct CarveSearch {
    pub best: Option<Vec<u8>>,
    /// The number of keywords that the best file holds.
    pub best_score: usize,
}

pub ghost struct CarveSearchView {
    pub best: Option<Seq<u8>>,
    pub best_score: int,
}

impl View for CarveSearch {
    type V = CarveSearchView;

    open spec fn view(&self) -> CarveSearchView {
        CarveSearchView {
            best: match self.best {
                Some(data) => Some(data@),
                None => None,
            },
            best_score: self.best_score as int,
        }
    }
}

/// A carved file is looked at: it has at least `MIN_CARVED_SIZE` bytes and
/// the validator finds no fault with it.
pub open spec fn is_plausible(data: Seq<u8>, ext: Seq<char>) -> bool {
    data.len() >= MIN_CARVED_SIZE && corruption_of(data, lowercase(ext)).is_none()
}

/// The number of keywords that a carved file holds.
pub open spec fn keyword_score(data: Seq<u8>, keywords: Seq<String>) -> int {
    keyword_hits(
        lowercase(utf8_lossy(front(data, KEYWORD_SCAN_LEN as int))),
        keywords,
        keywords.len() as int,
    ) as int
}

/// The search after a carved file was looked at. A file that is not
/// plausible changes nothing. The first plausible file becomes the best,
/// whatever it holds. With keywords, a later file becomes the best where
/// it holds more of them than the best so far, so that of equals the first
/// stays.
pub open spec fn considered(
    search: CarveSearchView,
    data: Seq<u8>,
    ext: Seq<char>,
    keywords: Seq<String>,
) -> CarveSearchView {
    if !is_plausible(data, ext) {
        search
    } else if keywords.len() > 0 {
        if search.best.is_none() || keyword_score(data, keywords) > search.best_score {
            CarveSearchView { best: Some(data), best_score: keyword_score(data, keywords) }
        } else {
            search
        }
    } else if search.best.is_none() {
        CarveSearchView { best: Some(data), ..search }
    } else {
        search
    }
}

/// The search is over: every keyword was found in the best file.
pub open spec fn is_perfect(search: CarveSearchView, keywords: Seq<String>) -> bool {
    keywords.len() > 0 && search.best_score == keywords.len()
}

/// Looks at a carved file; tells whether the search is over.
pub fn consider_candidate(search: &mut CarveSearch, data: Vec<u8>, ext: &str, keywords: &[String]) -> (perfect:
    bool)
    ensures
        final(search)@ == considered(old(search)@, data@, ext@, keywords@),
        perfect == is_perfect(final(search)@, keywords@),
{
    let perfect_before: bool = keywords.len() > 0 && search.best_score == keywords.len();
    if data.len() < MIN_CARVED_SIZE {
        return perfect_before;
    }
    let lowered = to_lowercase(ext);
    if find_corruption(data.as_slice(), lowered.as_str()).is_some() {
        return perfect_before;
    }
    if keywords.len() > 0 {
        let score: usize = count_keyword_matches(data.as_slice(), keywords);
        if search.best.is_none() || score > search.best_score {
            search.best_score = score;
            search.best = Some(data);
            return score == keywords.len();
        }
        perfect_before
    } else {
        if search.best.is_none() {
            search.best = Some(data);
        }
        false
    }
}

/// Whether the search of the volume goes on.
pub fn carve_continues(scanned_bytes: u64, candidates: u32) -> (r: bool)
    ensures
        r == (scanned_bytes < MAX_CARVE_SCAN && candidates < MAX_CARVE_CANDIDATES),
{
    scanned_bytes < MAX_CARVE_SCAN && candidates < MAX_CARVE_CANDIDATES
}

/// The carved bytes after one more piece of the volume: the piece is
/// appended; where the footer then stands at or behind the place where it
/// could first have ended in the new piece, the bytes end with its last
/// occurrence.
pub open spec fn extended(data: Seq<u8>, chunk: Seq<u8>, footer: Option<Seq<u8>>) -> Seq<u8> {
    let all = data + chunk;
    match footer {
        Some(f) => {
            let from = if data.len() >= f.len() {
                data.len() - f.len()
            } else {
                0
            };
            match footer_position(all, f, from) {
                Some(i) => all.take(i + f.len()),
                None => all,
            }
        },
        None => all,
    }
}

/// The footer was found when the last piece was appended.
pub open spec fn footer_found(data: Seq<u8>, chunk: Seq<u8>, footer: Option<Seq<u8>>) -> bool {
    match footer {
        Some(f) => footer_position(
            data + chunk,
            f,
            if data.len() >= f.len() {
                data.len() - f.len()
            } else {
                0
            },
        ).is_some(),
        None => false,
    }
}

/// Appends a piece of the volume to the carved bytes; tells whether the
/// footer was found.
pub fn extend_carved(data: &mut Vec<u8>, chunk: &[u8], footer: Option<&[u8]>) -> (found: bool)
    ensures
        final(data)@ == extended(
            old(data)@,
            chunk@,
            match footer {
                Some(f) => Some(f@),
                None => None,
            },
        ),
        found == footer_found(
            old(data)@,
            chunk@,
            match footer {
                Some(f) => Some(f@),
                None => None,
            },
        ),
{
    let previous: usize = data.len();
    data.extend_from_slice(chunk);
    assert(data@ =~= old(data)@ + chunk@);
    match footer {
        Some(f) => {
            let from: usize = if previous >= f.len() {
                previous - f.len()
            } else {
                0
            };
            match find_footer_from(data.as_slice(), f, from) {
                Some(i) => {
                    let total: usize = data.len();
                    proof {
                        crate::bytes::lemma_last_occurrence(
                            data@,
                            f@,
                            from as int,
                            data@.len() - f@.len() + 1,
                        );
                        assert(footer_position(data@, f@, from as int) == Some(i as int));
                        assert(crate::bytes::matches_at(data@, i as int, f@));
                        assert(i + f@.len() <= total);
                    }
                    data.truncate(i + f.len());
                    true
                },
                None => false,
            }
        },
        None => false,
    }
}

/// The size of the clusters in which the volume is read for carving.
pub const CARVE_CLUSTER_SIZE: u64 = 4096;

/// The number of clusters that are read at once for carving.
pub const CARVE_CHUNK_CLUSTERS: u64 = CARVE_CHUNK_SIZE / CARVE_CLUSTER_SIZE;

/// Whether the reading of a carved file goes on: its footer was not found,
/// and it has fewer bytes than `max_size`.
pub fn carve_read_continues(len: usize, max_size: u64, found: bool) -> (r: bool)
    ensures
        r == (!found && len < max_size),
{
    !found && (len as u64) < max_size
}

/// The cluster from which a carved file is read, and the place of its
/// first byte in that cluster, for a file that starts at byte `start` of
/// the volume.
pub fn carve_read_start(start: u64) -> (r: (u64, usize))
    ensures
        r.0 == start / CARVE_CLUSTER_SIZE,
        r.1 == start % CARVE_CLUSTER_SIZE,
{
    (start / CARVE_CLUSTER_SIZE, (start % CARVE_CLUSTER_SIZE) as usize)
}

/// Whether carved bytes are kept when the reading ends: always for a
/// format without footer, and where the footer was found; else only where
/// there are `MIN_CARVED_SIZE` bytes or more.
pub fn keep_carved(len: usize, has_footer: bool, found: bool) -> (r: bool)
    ensures
        r == (!has_footer || found || len >= MIN_CARVED_SIZE),
{
    !has_footer || found || len >= MIN_CARVED_SIZE
}

// ---------------------------------------------------------------------
// Reporting
// ---------------------------------------------------------------------

/// The words in which the outcome of a reassembly is told: a recovery in
/// full, a recovery with failed runs, a rejection with its reason, or
/// nothing to recover.
pub open spec fn reassembly_message(
    name: Seq<char>,
    ext: Seq<char>,
    size: u64,
    state: ReassemblyView,
    verdict: Verdict,
) -> Seq<char> {
    match verdict {
        Verdict::Complete => "Successfully recovered "@ + decimal_text(state.data.len())
            + " bytes"@,
        Verdict::Partial => "Partially recovered "@ + decimal_text(state.data.len()) + " of "@
            + decimal_text(size as nat) + " bytes. "@ + decimal_text(state.successful_runs as nat)
            + " run(s) succeeded, "@ + decimal_text(state.failed_runs as nat) + " failed."@,
        Verdict::Rejected(kind) => "Recovery failed for '"@ + name + "': "@ + corruption_message(
            kind,
            ext,
        ) + ". The file's disk clusters have likely been overwritten by new data."@,
        Verdict::Nothing => "Could not recover '"@ + name
            + "'. All cluster reads failed - the file data may have been overwritten."@,
    }
}

/// What is said of a file that was copied: the way by which it was found,
/// and for a file from the recycle bin the path that it had.
pub open spec fn copy_message(strategy: Strategy, bytes: u64, original_path: Seq<char>) -> Seq<
    char,
> {
    let found = "Recovered "@ + decimal_text(bytes as nat);
    match strategy {
        Strategy::LiveCopy => found + " bytes via direct copy (auto-decrypted)"@,
        Strategy::ResidentExtraction => found + " bytes from resident MFT data"@,
        Strategy::RecycleBin => found + " bytes from Recycle Bin (original: "@ + original_path
            + ")"@,
        Strategy::ShadowCopy => found + " bytes from Volume Shadow Copy (Previous Version)"@,
        _ => found + " bytes"@,
    }
}

/// Reports a file that was written by the way `strategy`. Its source is
/// the path of the descriptor, and for a file from the recycle bin the
/// path that it had before, which `original_path` gives.
pub fn copied_result(
    file: &RecoverableFileFS,
    strategy: Strategy,
    bytes: u64,
    original_path: &str,
    output_path: &str,
) -> (r: FileRecoveryResultFS)
    ensures
        r.success,
        r.bytes_recovered == bytes,
        r.source_path@ == if strategy == Strategy::RecycleBin {
            original_path@
        } else {
            file.path@
        },
        r.destination_path@ == output_path@,
        r.message@ == copy_message(strategy, bytes, original_path@),
{
    let mut message = "Recovered ".to_owned();
    let n = decimal_string(bytes);
    message.append(n.as_str());
    match strategy {
        Strategy::LiveCopy => {
            message.append(" bytes via direct copy (auto-decrypted)");
        },
        Strategy::ResidentExtraction => {
            message.append(" bytes from resident MFT data");
        },
        Strategy::RecycleBin => {
            message.append(" bytes from Recycle Bin (original: ");
            message.append(original_path);
            message.append(")");
        },
        Strategy::ShadowCopy => {
            message.append(" bytes from Volume Shadow Copy (Previous Version)");
        },
        _ => {
            message.append(" bytes");
        },
    }
    let source_path = match strategy {
        Strategy::RecycleBin => original_path.to_owned(),
        _ => file.path.clone(),
    };
    FileRecoveryResultFS {
        success: true,
        source_path,
        destination_path: output_path.to_owned(),
        bytes_recovered: bytes,
        message,
    }
}

/// What is said of a record that gave no content: that its slot was taken
/// by another file, that the file is too large to lie in its record, or
/// that the record holds nothing of the file.
pub open spec fn resident_failure_message(name: Seq<char>, failure: ResidentFailure) -> Seq<char> {
    match failure {
        ResidentFailure::SlotReused => "MFT record reused: the slot of '"@ + name
            + "' now belongs to another file"@,
        ResidentFailure::TooLarge => "'"@ + name + "' is too large to lie inside its MFT record"@,
        _ => "No resident data of '"@ + name + "' found in its MFT record"@,
    }
}

/// Reports a record that gave no content.
pub fn resident_failure_result(
    file: &RecoverableFileFS,
    failure: ResidentFailure,
    output_path: &str,
) -> (r: FileRecoveryResultFS)
    ensures
        !r.success,
        r.bytes_recovered == 0,
        r.source_path@ == file.path@,
        r.destination_path@ == output_path@,
        r.message@ == resident_failure_message(file.name@, failure),
{
    let message = match failure {
        ResidentFailure::SlotReused => {
            let mut m = "MFT record reused: the slot of '".to_owned();
            m.append(file.name.as_str());
            m.append("' now belongs to another file");
            m
        },
        ResidentFailure::TooLarge => {
            let mut m = "'".to_owned();
            m.append(file.name.as_str());
            m.append("' is too large to lie inside its MFT record");
            m
        },
        _ => {
            let mut m = "No resident data of '".to_owned();
            m.append(file.name.as_str());
            m.append("' found in its MFT record");
            m
        },
    };
    FileRecoveryResultFS {
        success: false,
        source_path: file.path.clone(),
        destination_path: output_path.to_owned(),
        bytes_recovered: 0,
        message,
    }
}

/// What is said of a file that no way could recover.
pub open spec fn exhausted_message(name: Seq<char>) -> Seq<char> {
    "'"@ + name
        + "' cannot be recovered - file data has been overwritten or is no longer accessible on disk"@
}

/// Reports a file that no way could recover.
pub fn exhausted_result(file: &RecoverableFileFS, output_path: &str) -> (r: FileRecoveryResultFS)
    ensures
        !r.success,
        r.bytes_recovered == 0,
        r.source_path@ == file.path@,
        r.destination_path@ == output_path@,
        r.message@ == exhausted_message(file.name@),
{
    let mut message = "'".to_owned();
    message.append(file.name.as_str());
    message.append(
        "' cannot be recovered - file data has been overwritten or is no longer accessible on disk",
    );
    FileRecoveryResultFS {
        success: false,
        source_path: file.path.clone(),
        destination_path: output_path.to_owned(),
        bytes_recovered: 0,
        message,
    }
}

/// How a search of the volume ended: with a recovery where a best file
/// was kept, else with nothing.
pub fn carving_outcome(search: &CarveSearch) -> (r: Outcome)
    ensures
        r == if search@.best.is_some() {
            Outcome::Recovered
        } else {
            Outcome::Failed
        },
{
    if search.best.is_some() {
        Outcome::Recovered
    } else {
        Outcome::Failed
    }
}

/// What a recovery comes to when no way is left to try: the result of the
/// last attempt where that did not simply fail, else the report that no
/// way could recover the file.
pub fn pipeline_result(
    file: &RecoverableFileFS,
    output_path: &str,
    last: Option<(Outcome, FileRecoveryResultFS)>,
) -> (r: FileRecoveryResultFS)
    ensures
        match last {
            Some((outcome, result)) if outcome != Outcome::Failed => r == result,
            _ => {
                &&& !r.success
                &&& r.bytes_recovered == 0
                &&& r.source_path@ == file.path@
                &&& r.destination_path@ == output_path@
                &&& r.message@ == exhausted_message(file.name@)
            },
        },
{
    match last {
        Some((outcome, result)) => match outcome {
            Outcome::Failed => exhausted_result(file, output_path),
            _ => result,
        },
        None => exhausted_result(file, output_path),
    }
}

/// What is said of a recovery that the operator stopped.
pub open spec fn cancelled_message(name: Seq<char>) -> Seq<char> {
    "Recovery of '"@ + name + "' was cancelled. Nothing was written."@
}

/// Reports a recovery that the operator stopped: nothing is to be written.
pub fn cancelled_result(file: &RecoverableFileFS, output_path: &str) -> (r: FileRecoveryResultFS)
    ensures
        !r.success,
        r.bytes_recovered == 0,
        r.source_path@ == file.path@,
        r.destination_path@ == output_path@,
        r.message@ == cancelled_message(file.name@),
{
    let mut message = "Recovery of '".to_owned();
    message.append(file.name.as_str());
    message.append("' was cancelled. Nothing was written.");
    FileRecoveryResultFS {
        success: false,
        source_path: file.path.clone(),
        destination_path: output_path.to_owned(),
        bytes_recovered: 0,
        message,
    }
}

/// Writes out the words in which the outcome of a reassembly is told.
pub fn reassembly_text(name: &str, ext: &str, size: u64, state: &Reassembly, verdict: Verdict) -> (m:
    String)
    ensures
        m@ == reassembly_message(name@, ext@, size, state@, verdict),
{
    let len: usize = state.data.len();
    match verdict {
        Verdict::Complete => {
            let mut m = "Successfully recovered ".to_owned();
            let n = decimal_string(len as u64);
            m.append(n.as_str());
            m.append(" bytes");
            m
        },
        Verdict::Partial => {
            let mut m = "Partially recovered ".to_owned();
            let n = decimal_string(len as u64);
            m.append(n.as_str());
            m.append(" of ");
            let total = decimal_string(size);
            m.append(total.as_str());
            m.append(" bytes. ");
            let ok = decimal_string(state.successful_runs as u64);
            m.append(ok.as_str());
            m.append(" run(s) succeeded, ");
            let failed = decimal_string(state.failed_runs as u64);
            m.append(failed.as_str());
            m.append(" failed.");
            m
        },
        Verdict::Rejected(kind) => {
            let mut m = "Recovery failed for '".to_owned();
            m.append(name);
            m.append("': ");
            let reason = describe_corruption(kind, ext);
            m.append(reason.as_str());
            m.append(". The file's disk clusters have likely been overwritten by new data.");
            m
        },
        Verdict::Nothing => {
            let mut m = "Could not recover '".to_owned();
            m.append(name);
            m.append("'. All cluster reads failed - the file data may have been overwritten.");
            m
        },
    }
}

/// Reports the outcome of a reassembly. Bytes count as recovered only
/// where they are to be written.
pub fn reassembly_result(
    file: &RecoverableFileFS,
    ext: &str,
    output_path: &str,
    state: &Reassembly,
    verdict: Verdict,
) -> (r: FileRecoveryResultFS)
    ensures
        r.success == (verdict_outcome(verdict) == Outcome::Recovered),
        r.bytes_recovered == if verdict_outcome(verdict) == Outcome::Recovered {
            state.data@.len() as u64
        } else {
            0
        },
        r.source_path@ == file.path@,
        r.destination_path@ == output_path@,
        r.message@ == reassembly_message(file.name@, ext@, file.size, state@, verdict),
{
    let written: bool = match verdict {
        Verdict::Complete => true,
        Verdict::Partial => true,
        _ => false,
    };
    FileRecoveryResultFS {
        success: written,
        source_path: file.path.clone(),
        destination_path: output_path.to_owned(),
        bytes_recovered: if written {
            state.data.len() as u64
        } else {
            0
        },
        message: reassembly_text(file.name.as_str(), ext, file.size, state, verdict),
    }
}

/// The words in which the outcome of a search of the volume is told: the
/// size of the best file with the keywords that it holds, or that no file
/// was found, with the amount that was searched.
pub open spec fn carving_message(
    name: Seq<char>,
    ext: Seq<char>,
    search: CarveSearchView,
    keywords: nat,
    scanned: u64,
    candidates: u32,
) -> Seq<char> {
    match search.best {
        Some(data) => if search.best_score > 0 {
            "Recovered "@ + decimal_text(data.len()) + " bytes via file carving (keyword match: "@
                + decimal_text(search.best_score as nat) + "/"@ + decimal_text(keywords) + ")"@
        } else {
            "Recovered "@ + decimal_text(data.len())
                + " bytes via file carving (signature-based recovery)"@
        },
        None => "File carving could not find ."@ + ext + " file matching '"@ + name
            + "' on the volume ("@ + decimal_text((scanned / 0x10_0000) as nat) + " MB scanned, "@
            + decimal_text(candidates as nat)
            + " candidates checked). Data may have been overwritten."@,
    }
}

/// Reports the outcome of a search of the volume for a file: a recovery
/// where a best file was kept, whose bytes are to be written.
pub fn carving_result(
    file: &RecoverableFileFS,
    ext: &str,
    output_path: &str,
    search: &CarveSearch,
    keywords: usize,
    scan: &VolumeScan,
) -> (r: FileRecoveryResultFS)
    ensures
        r.success == search@.best.is_some(),
        r.bytes_recovered == match search@.best {
            Some(data) => data.len() as u64,
            None => 0,
        },
        r.source_path@ == file.path@,
        r.destination_path@ == output_path@,
        r.message@ == carving_message(
            file.name@,
            ext@,
            search@,
            keywords as nat,
            scan.scanned,
            scan.candidates,
        ),
{
    let message = match &search.best {
        Some(data) => {
            let mut m = "Recovered ".to_owned();
            let n = decimal_string(data.len() as u64);
            m.append(n.as_str());
            if search.best_score > 0 {
                m.append(" bytes via file carving (keyword match: ");
                let score = decimal_string(search.best_score as u64);
                m.append(score.as_str());
                m.append("/");
                let of = decimal_string(keywords as u64);
                m.append(of.as_str());
                m.append(")");
            } else {
                m.append(" bytes via file carving (signature-based recovery)");
            }
            m
        },
        None => {
            let mut m = "File carving could not find .".to_owned();
            m.append(ext);
            m.append(" file matching '");
            m.append(file.name.as_str());
            m.append("' on the volume (");
            let mb = decimal_string(scan.scanned / 0x10_0000);
            m.append(mb.as_str());
            m.append(" MB scanned, ");
            let count = decimal_string(scan.candidates as u64);
            m.append(count.as_str());
            m.append(" candidates checked). Data may have been overwritten.");
            m
        },
    };
    FileRecoveryResultFS {
        success: search.best.is_some(),
        source_path: file.path.clone(),
        destination_path: output_path.to_owned(),
        bytes_recovered: match &search.best {
            Some(data) => data.len() as u64,
            None => 0,
        },
        message,
    }
}

/// The carved bytes of a file that starts `offset_in_cluster` bytes into
/// the first piece that was read; `None` where the piece ends before.
pub fn start_carved(first_chunk: &[u8], offset_in_cluster: usize) -> (r: Option<Vec<u8>>)
    ensures
        match r {
            Some(data) => offset_in_cluster < first_chunk@.len() && data@ == first_chunk@.skip(
                offset_in_cluster as int,
            ),
            None => offset_in_cluster >= first_chunk@.len(),
        },
{
    if offset_in_cluster >= first_chunk.len() {
        return None;
    }
    let rest = &first_chunk[offset_in_cluster..first_chunk.len()];
    assert(rest@ =~= first_chunk@.skip(offset_in_cluster as int));
    Some(vstd::slice::slice_to_vec(rest))
}

/// The byte of the volume at which a header match lies: the buffer that
/// was searched starts `overlap` bytes in front of the byte `scan_offset`.
pub fn candidate_offset(scan_offset: u64, start_in_buffer: usize, overlap: usize) -> (r: Option<
    u64,
>)
    ensures
        r == if 0 <= scan_offset + start_in_buffer - overlap <= u64::MAX {
            Some((scan_offset + start_in_buffer - overlap) as u64)
        } else {
            None::<u64>
        },
{
    let position: u128 = scan_offset as u128 + start_in_buffer as u128;
    if position < overlap as u128 || position - overlap as u128 > u64::MAX as u128 {
        None
    } else {
        Some((position - overlap as u128) as u64)
    }
}

} // verus!
