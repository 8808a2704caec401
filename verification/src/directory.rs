//! The cached directory from logins to chat identities: how its entry in the
//! store is first filled, how it is renewed, and how each tick reads it.
//!
//! Nothing here touches the store or the directory service. Each function
//! takes what a call outside has returned and says what to do next.

use crate::codec::decode_directory;
use crate::codec::encode_directory;
use crate::codec::json_directory;
use crate::error::Failure;
use std::collections::HashMap;
use vstd::prelude::*;
use vstd::string::StrSliceExecFns;

verus! {

/// One write to the directory's entry in the store.
#[derive(Debug)]
pub enum StoreOp {
    Delete,
    Put(Vec<u8>),
}

/// A write as plain data.
pub enum StoreOpView {
    Delete,
    Put(Seq<u8>),
}

impl View for StoreOp {
    type V = StoreOpView;

    open spec fn view(&self) -> StoreOpView {
        match self {
            StoreOp::Delete => StoreOpView::Delete,
            StoreOp::Put(bytes) => StoreOpView::Put(bytes@),
        }
    }
}

/// The plain data of a list of writes.
pub open spec fn ops_view(ops: Seq<StoreOp>) -> Seq<StoreOpView> {
    ops.map_values(|op: StoreOp| op@)
}

/// What the store holds under the directory's key once `op` has been
/// carried out on an entry that was `entry`.
pub open spec fn apply(entry: Option<Seq<u8>>, op: StoreOpView) -> Option<Seq<u8>> {
    match op {
        StoreOpView::Delete => None,
        StoreOpView::Put(bytes) => Some(bytes),
    }
}

/// What the store holds under the directory's key once `ops` have been
/// carried out in order on an entry that was `entry`.
pub open spec fn entry_after(entry: Option<Seq<u8>>, ops: Seq<StoreOpView>) -> Option<Seq<u8>>
    decreases ops.len(),
{
    if ops.len() == 0 {
        entry
    } else {
        apply(entry_after(entry, ops.drop_last()), ops.last())
    }
}

/// Where the entry stands: not there, there, or being renewed. While it is
/// renewed, the state remembers whether an entry was there before.
#[derive(Clone, Copy, Debug, PartialEq, Eq, Structural)]
pub enum CacheState {
    Absent,
    Fresh,
    Refreshing { had_entry: bool },
}

/// How an attempt to get the directory and to write it down ended.
#[derive(Debug)]
pub enum Attempt {
    /// The directory came and was encoded to these bytes.
    Encoded(Vec<u8>),
    /// The directory service failed.
    FetchFailed,
    /// The directory came and could not be encoded.
    EncodeFailed(serde_json::Error),
}

impl Attempt {
    /// The bytes to store, where the attempt gave any.
    pub open spec fn bytes(&self) -> Option<Seq<u8>> {
        match self {
            Attempt::Encoded(bytes) => Some(bytes@),
            _ => None,
        }
    }
}

impl CacheState {
    /// Whether an entry is in the store in this state.
    pub open spec fn spec_has_entry(self) -> bool {
        match self {
            CacheState::Absent => false,
            CacheState::Fresh => true,
            CacheState::Refreshing { had_entry } => had_entry,
        }
    }

    /// The state once a renewal has begun.
    pub open spec fn spec_begin_refresh(self) -> CacheState {
        match self {
            CacheState::Absent => CacheState::Refreshing { had_entry: false },
            CacheState::Fresh => CacheState::Refreshing { had_entry: true },
            CacheState::Refreshing { had_entry } => CacheState::Refreshing { had_entry },
        }
    }

    /// The state once an attempt has ended: fresh where it gave bytes to
    /// store, else what it was before the attempt began.
    pub open spec fn spec_settle(self, stored: bool) -> CacheState {
        if stored || self.spec_has_entry() {
            CacheState::Fresh
        } else {
            CacheState::Absent
        }
    }

    /// The state that a first look into the store shows.
    pub fn observed(stored: &Option<Vec<u8>>) -> (state: CacheState)
        ensures
            state == (if stored is Some {
                CacheState::Fresh
            } else {
                CacheState::Absent
            }),
    {
        match stored {
            Some(_) => CacheState::Fresh,
            None => CacheState::Absent,
        }
    }

    /// Whether an entry is in the store in this state.
    #[verifier::when_used_as_spec(spec_has_entry)]
    pub fn has_entry(self) -> (yes: bool)
        ensures
            yes == self.spec_has_entry(),
    {
        match self {
            CacheState::Absent => false,
            CacheState::Fresh => true,
            CacheState::Refreshing { had_entry } => had_entry,
        }
    }

    /// Whether the directory must be fetched before the first tick: only
    /// where no entry is there and none is on its way.
    pub fn needs_cold_start(self) -> (yes: bool)
        ensures
            yes == (self == CacheState::Absent),
    {
        match self {
            CacheState::Absent => true,
            _ => false,
        }
    }

    /// The state once a renewal has begun.
    #[verifier::when_used_as_spec(spec_begin_refresh)]
    pub fn begin_refresh(self) -> (next: CacheState)
        ensures
            next == self.spec_begin_refresh(),
    {
        match self {
            CacheState::Absent => CacheState::Refreshing { had_entry: false },
            CacheState::Fresh => CacheState::Refreshing { had_entry: true },
            CacheState::Refreshing { had_entry } => CacheState::Refreshing { had_entry },
        }
    }

    /// The state once an attempt has ended.
    #[verifier::when_used_as_spec(spec_settle)]
    pub fn settle(self, stored: bool) -> (next: CacheState)
        ensures
            next == self.spec_settle(stored),
    {
        if stored || self.has_entry() {
            CacheState::Fresh
        } else {
            CacheState::Absent
        }
    }
}

/// What a write that the store refuses means for the one who asked for it.
#[derive(Clone, Copy, Debug, PartialEq, Eq, Structural)]
pub enum WriteFailure {
    /// The failure ends the program.
    Fatal,
    /// The failure is logged and the writes that are left are given up.
    Logged,
}

/// What to do with the store, and where the entry stands once it is done.
#[derive(Debug)]
pub struct Step {
    pub state: CacheState,
    pub ops: Vec<StoreOp>,
    pub on_write_failure: WriteFailure,
}

/// The writes that put `bytes` in the place of whatever the entry holds:
/// the entry is deleted, then written.
pub open spec fn replacing(bytes: Seq<u8>) -> Seq<StoreOpView> {
    seq![StoreOpView::Delete, StoreOpView::Put(bytes)]
}

/// Gets the directory ready for the store: the outcome of the fetch, and of
/// encoding what was fetched as JSON. Bytes that come of it stand for the
/// directory that was fetched.
pub fn attempt(fetched: Option<&HashMap<String, String>>) -> (outcome: Attempt)
    ensures
        fetched is None <==> outcome is FetchFailed,
        outcome matches Attempt::Encoded(bytes) ==> fetched matches Some(directory)
            && json_directory(bytes@) == Some(directory.deep_view()),
{
    match fetched {
        None => Attempt::FetchFailed,
        Some(directory) => match encode_directory(directory) {
            Ok(text) => Attempt::Encoded(text.as_str().as_bytes_vec()),
            Err(cause) => Attempt::EncodeFailed(cause),
        },
    }
}

/// What the fetch before the first tick leads to.
///
/// Bytes to store are written and the entry is fresh. A directory service
/// that failed changes nothing: the ticks start without an entry. A
/// directory that could not be encoded is an error.
pub fn cold_start(state: CacheState, outcome: Attempt) -> (step: Result<Step, Failure>)
    ensures
        match outcome {
            Attempt::Encoded(bytes) => step matches Ok(s) && s.state == CacheState::Fresh
                && ops_view(s.ops@) == seq![StoreOpView::Put(bytes@)] && s.on_write_failure
                == WriteFailure::Fatal,
            Attempt::FetchFailed => step matches Ok(s) && s.state == state.settle(false)
                && s.ops@.len() == 0 && s.on_write_failure == WriteFailure::Fatal,
            Attempt::EncodeFailed(_) => step matches Err(Failure::Json(_)),
        },
{
    match outcome {
        Attempt::Encoded(bytes) => {
            let mut ops: Vec<StoreOp> = Vec::new();
            ops.push(StoreOp::Put(bytes));
            assert(ops_view(ops@) =~= seq![StoreOpView::Put(bytes@)]);
            Ok(Step { state: state.settle(true), ops, on_write_failure: WriteFailure::Fatal })
        },
        Attempt::FetchFailed => Ok(
            Step {
                state: state.settle(false),
                ops: Vec::new(),
                on_write_failure: WriteFailure::Fatal,
            },
        ),
        Attempt::EncodeFailed(cause) => Err(Failure::Json(cause)),
    }
}

/// What a renewal in the background leads to.
///
/// Bytes to store take the place of the whole entry: it is deleted, then
/// written, and is fresh. Any failure changes nothing: the entry stays what
/// it was before the renewal began.
pub fn refresh(state: CacheState, outcome: Attempt) -> (step: Step)
    ensures
        step.state == state.settle(outcome.bytes() is Some),
        step.on_write_failure == WriteFailure::Logged,
        ops_view(step.ops@) == refresh_writes(outcome.bytes()),
{
    match outcome {
        Attempt::Encoded(bytes) => {
            let mut ops: Vec<StoreOp> = Vec::new();
            ops.push(StoreOp::Delete);
            ops.push(StoreOp::Put(bytes));
            assert(ops_view(ops@) =~= replacing(bytes@));
            Step { state: state.settle(true), ops, on_write_failure: WriteFailure::Logged }
        },
        _ => {
            let ops: Vec<StoreOp> = Vec::new();
            assert(ops_view(ops@) =~= Seq::empty());
            Step { state: state.settle(false), ops, on_write_failure: WriteFailure::Logged }
        },
    }
}

/// What a tick works with.
#[derive(Debug)]
pub struct WorkingState<M> {
    /// The members of the core team; none where the roster could not be had.
    pub core_devs: Vec<M>,
    /// The directory; empty where the store has none that can be read.
    pub github_to_matrix: HashMap<String, String>,
    /// Whether the store had no directory that could be read.
    pub directory_missing: bool,
}

/// The bytes of an entry of the store.
pub open spec fn entry_view(entry: Option<Vec<u8>>) -> Option<Seq<u8>> {
    match entry {
        Some(bytes) => Some(bytes@),
        None => None,
    }
}

/// The directory that an entry holds, where it is there and can be read.
pub open spec fn stored_directory(entry: Option<Seq<u8>>) -> Option<Map<Seq<char>, Seq<char>>> {
    match entry {
        Some(bytes) => json_directory(bytes),
        None => None,
    }
}

/// The directory that a tick works with: the one that the entry holds, and
/// an empty one where the entry holds none.
pub open spec fn directory_read(entry: Option<Seq<u8>>) -> Map<Seq<char>, Seq<char>> {
    match stored_directory(entry) {
        Some(directory) => directory,
        None => Map::empty(),
    }
}

/// What a tick works with, from what the roster service and the store
/// returned.
///
/// A store that could not be read ends the tick with that error. A roster
/// that could not be had counts as empty. An entry that is not there, or
/// that cannot be read as a directory, counts as an empty directory and is
/// marked as missing.
pub fn reconcile<M, E>(roster: Option<Vec<M>>, stored: Result<Option<Vec<u8>>, E>) -> (tick:
    Result<WorkingState<M>, E>)
    ensures
        match stored {
            Err(e) => tick == Err::<WorkingState<M>, E>(e),
            Ok(entry) => tick matches Ok(state) && state.core_devs@ == (match roster {
                Some(members) => members@,
                None => Seq::empty(),
            }) && state.directory_missing == stored_directory(entry_view(entry)) is None
                && state.github_to_matrix.deep_view() == directory_read(entry_view(entry)),
        },
{
    let entry = match stored {
        Ok(entry) => entry,
        Err(e) => {
            return Err(e);
        },
    };
    let core_devs = match roster {
        Some(members) => members,
        None => Vec::new(),
    };
    let decoded = match entry {
        Some(bytes) => match decode_directory(bytes.as_slice()) {
            Ok(directory) => Some(directory),
            Err(_) => None,
        },
        None => None,
    };
    match decoded {
        Some(github_to_matrix) => Ok(
            WorkingState { core_devs, github_to_matrix, directory_missing: false },
        ),
        None => {
            let github_to_matrix: HashMap<String, String> = HashMap::new();
            proof {
                lemma_empty_directory(github_to_matrix);
            }
            Ok(WorkingState { core_devs, github_to_matrix, directory_missing: true })
        },
    }
}

/// A map without keys holds no text either.
proof fn lemma_empty_directory(directory: HashMap<String, String>)
    requires
        directory@ == Map::<String, String>::empty(),
    ensures
        directory.deep_view() == Map::<Seq<char>, Seq<char>>::empty(),
{
    broadcast use vstd::std_specs::hash::lemma_hashmap_deepview_dom;

    assert(directory.deep_view().dom() =~= Set::empty());
    assert(directory.deep_view() =~= Map::<Seq<char>, Seq<char>>::empty());
}

/// The writes that a renewal leads to: the new bytes in the place of the
/// entry, or none where there are no new bytes.
pub open spec fn refresh_writes(bytes: Option<Seq<u8>>) -> Seq<StoreOpView> {
    match bytes {
        Some(b) => replacing(b),
        None => Seq::empty(),
    }
}

/// A renewal that gave bytes leaves exactly those bytes in the store,
/// whatever the entry held before, and one that failed leaves the entry as it
/// was. Either way the renewal is over, and the state tells truly whether an
/// entry is there.
pub proof fn lemma_refresh_replaces_or_keeps(
    state: CacheState,
    entry: Option<Seq<u8>>,
    bytes: Option<Seq<u8>>,
)
    requires
        state.has_entry() == entry is Some,
    ensures
        entry_after(entry, refresh_writes(bytes)) == (match bytes {
            Some(b) => Some(b),
            None => entry,
        }),
        state.begin_refresh().settle(bytes is Some).has_entry() == entry_after(
            entry,
            refresh_writes(bytes),
        ) is Some,
        state.begin_refresh().settle(bytes is Some) is Absent || state.begin_refresh().settle(
            bytes is Some,
        ) is Fresh,
{
    reveal_with_fuel(entry_after, 3);
}

/// The fetch before the first tick fills an entry that was not there, or,
/// where it failed, leaves it not there. Either way the state tells truly
/// whether an entry is there.
pub proof fn lemma_cold_start_fills_or_leaves(bytes: Option<Seq<u8>>)
    ensures
        entry_after(
            None,
            match bytes {
                Some(b) => seq![StoreOpView::Put(b)],
                None => Seq::empty(),
            },
        ) == bytes,
        CacheState::Absent.settle(bytes is Some).has_entry() == bytes is Some,
{
    reveal_with_fuel(entry_after, 2);
}

/// Once a renewal has stored the bytes of a directory, a tick reads that
/// directory and nothing else, whatever the entry held before.
pub proof fn lemma_tick_reads_the_newest_directory(
    entry: Option<Seq<u8>>,
    bytes: Seq<u8>,
    directory: Map<Seq<char>, Seq<char>>,
)
    requires
        json_directory(bytes) == Some(directory),
    ensures
        directory_read(entry_after(entry, refresh_writes(Some(bytes)))) == directory,
        directory_read(entry_after(None, seq![StoreOpView::Put(bytes)])) == directory,
{
    reveal_with_fuel(entry_after, 3);
}

/// While no fetch has ever gone well, every tick reads an empty directory.
pub proof fn lemma_tick_without_entry_reads_nothing()
    ensures
        directory_read(entry_after(None, refresh_writes(None))) == Map::<
            Seq<char>,
            Seq<char>,
        >::empty(),
        stored_directory(entry_after(None, refresh_writes(None))) is None,
{
}

} // verus!
