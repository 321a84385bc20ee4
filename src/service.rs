//! The generate-or-fetch protocol. A lookup decides; its caller does the
//! file-system work that each action asks for and reports back an event.
use crate::error::ThumbError;
use crate::listing::{is_vector, is_vector_path};
use crate::store::{cache_entry, cache_entry_name};
use vstd::prelude::*;

verus! {

/// Where a lookup stands.
#[derive(Clone, Copy, Debug, PartialEq, Eq, Structural)]
pub enum Stage {
    /// Waiting to learn whether the source is a regular file.
    CheckSource,
    /// Waiting for the source's modification time.
    ReadTime,
    /// Waiting to learn whether the cache entry exists.
    Probe,
    /// Waiting for the thumbnail to be generated and written to the entry.
    Fill,
    /// Finished.
    Done,
}

/// What the caller observed.
#[derive(Debug)]
pub enum Event {
    /// Whether the source path names an existing regular file.
    SourceChecked(bool),
    /// The source's modification time in milliseconds since the epoch.
    TimeRead(Result<u128, ThumbError>),
    /// Whether the cache entry file exists.
    Probed(bool),
    /// The outcome of generating the thumbnail and writing it to the entry.
    Filled(Result<(), ThumbError>),
}

/// Where the thumbnail to display is found.
#[derive(Clone, Copy, Debug, PartialEq, Eq, Structural)]
pub enum Found {
    /// The source itself (a vector image).
    Source,
    /// The lookup's cache entry.
    Cached,
}

/// What the caller is asked to do next.
#[derive(Debug)]
pub enum Action {
    /// Find out whether the source is a regular file.
    CheckSource,
    /// Read the source's modification time.
    ReadTime,
    /// Find out whether the cache entry exists.
    Probe,
    /// Generate the thumbnail of the source and write it to the cache entry.
    Fill,
    /// Stop with this outcome.
    Done(Result<Found, ThumbError>),
}

/// One `get_or_create` request in progress.
pub struct Lookup {
    pub source: String,
    pub max_dimension: u32,
    pub stage: Stage,
    /// The cache entry's file name, known once the modification time is.
    pub entry: String,
}

/// A lookup seen as mathematical values.
pub struct LookupView {
    pub source: Seq<char>,
    pub max_dimension: u32,
    pub stage: Stage,
    pub entry: Seq<char>,
}

impl View for Lookup {
    type V = LookupView;

    open spec fn view(&self) -> LookupView {
        LookupView {
            source: self.source@,
            max_dimension: self.max_dimension,
            stage: self.stage,
            entry: self.entry@,
        }
    }
}

/// The state that follows `s` on `event`, and the action asked for.
pub open spec fn transition(s: LookupView, event: Event) -> (LookupView, Action) {
    let done = LookupView { stage: Stage::Done, ..s };
    match (s.stage, event) {
        (Stage::CheckSource, Event::SourceChecked(is_file)) => {
            if !is_file {
                (done, Action::Done(Err(ThumbError::InvalidInput)))
            } else if is_vector(s.source) {
                (done, Action::Done(Ok(Found::Source)))
            } else {
                (LookupView { stage: Stage::ReadTime, ..s }, Action::ReadTime)
            }
        },
        (Stage::ReadTime, Event::TimeRead(t)) => match t {
            Ok(m) => (
                LookupView {
                    stage: Stage::Probe,
                    entry: cache_entry(s.source, m, s.max_dimension),
                    ..s
                },
                Action::Probe,
            ),
            Err(e) => (done, Action::Done(Err(e))),
        },
        (Stage::Probe, Event::Probed(present)) => {
            if present {
                (done, Action::Done(Ok(Found::Cached)))
            } else {
                (LookupView { stage: Stage::Fill, ..s }, Action::Fill)
            }
        },
        (Stage::Fill, Event::Filled(outcome)) => match outcome {
            Ok(()) => (done, Action::Done(Ok(Found::Cached))),
            Err(e) => (done, Action::Done(Err(e))),
        },
        _ => (done, Action::Done(Err(ThumbError::OutOfOrder))),
    }
}

/// A request for a thumbnail of `source` within `max_dimension` pixels,
/// before anything was observed.
pub open spec fn initial(source: Seq<char>, max_dimension: u32) -> LookupView {
    LookupView { source, max_dimension, stage: Stage::CheckSource, entry: Seq::empty() }
}

/// The state after `events`, one by one from `s`, and the actions asked for.
pub open spec fn run(s: LookupView, events: Seq<Event>) -> (LookupView, Seq<Action>)
    decreases events.len(),
{
    if events.len() == 0 {
        (s, seq![])
    } else {
        let (t, a) = transition(s, events[0]);
        let (u, rest) = run(t, events.drop_first());
        (u, seq![a] + rest)
    }
}

/// How many of `actions` ask for a thumbnail to be generated.
pub open spec fn fill_count(actions: Seq<Action>) -> nat {
    actions.filter(|a: Action| a matches Action::Fill).len()
}

/// A first request for a raster source misses, generates once and ends at
/// the cache entry; a second request for the same source, unchanged, and the
/// same size finds that entry present and ends at the same entry without
/// generating anything.
pub proof fn lemma_repeat_request_reuses_entry(
    source: Seq<char>,
    max_dimension: u32,
    modified_millis: u128,
)
    requires
        !is_vector(source),
    ensures
        ({
            let first = run(
                initial(source, max_dimension),
                seq![
                    Event::SourceChecked(true),
                    Event::TimeRead(Ok(modified_millis)),
                    Event::Probed(false),
                    Event::Filled(Ok(())),
                ],
            );
            let second = run(
                initial(source, max_dimension),
                seq![
                    Event::SourceChecked(true),
                    Event::TimeRead(Ok(modified_millis)),
                    Event::Probed(true),
                ],
            );
            &&& first.1.last() matches Action::Done(Ok(Found::Cached))
            &&& second.1.last() matches Action::Done(Ok(Found::Cached))
            &&& first.0.entry == cache_entry(source, modified_millis, max_dimension)
            &&& second.0.entry == first.0.entry
            &&& fill_count(first.1) == 1
            &&& fill_count(second.1) == 0
        }),
{
    reveal_with_fuel(run, 5);
    reveal_with_fuel(Seq::filter, 5);
    let first = run(
        initial(source, max_dimension),
        seq![
            Event::SourceChecked(true),
            Event::TimeRead(Ok(modified_millis)),
            Event::Probed(false),
            Event::Filled(Ok(())),
        ],
    );
    let second = run(
        initial(source, max_dimension),
        seq![
            Event::SourceChecked(true),
            Event::TimeRead(Ok(modified_millis)),
            Event::Probed(true),
        ],
    );
    assert(first.1 =~= seq![
        Action::ReadTime,
        Action::Probe,
        Action::Fill,
        Action::Done(Ok(Found::Cached)),
    ]);
    assert(second.1 =~= seq![Action::ReadTime, Action::Probe, Action::Done(Ok(Found::Cached))]);
}

/// A request for a vector source that exists ends at once at the source
/// itself: no time is read, no entry probed, nothing generated.
pub proof fn lemma_vector_source_bypasses_cache(source: Seq<char>, max_dimension: u32)
    requires
        is_vector(source),
    ensures
        run(initial(source, max_dimension), seq![Event::SourceChecked(true)]).1 == seq![
            Action::Done(Ok(Found::Source)),
        ],
        run(initial(source, max_dimension), seq![Event::SourceChecked(true)]).0.stage
            == Stage::Done,
{
    reveal_with_fuel(run, 2);
    assert(run(initial(source, max_dimension), seq![Event::SourceChecked(true)]).1 =~= seq![
        Action::Done(Ok(Found::Source)),
    ]);
}

impl Lookup {
    /// A new request for a thumbnail of `source` within `max_dimension`
    /// pixels; its first action is `CheckSource`.
    pub fn new(source: String, max_dimension: u32) -> (r: Lookup)
        ensures
            r@ == initial(source@, max_dimension),
    {
        Lookup { source, max_dimension, stage: Stage::CheckSource, entry: String::new() }
    }

    /// Takes in what the caller observed and says what to do next.
    pub fn advance(&mut self, event: Event) -> (r: Action)
        ensures
            (final(self)@, r) == transition(old(self)@, event),
    {
        match (self.stage, event) {
            (Stage::CheckSource, Event::SourceChecked(is_file)) => {
                if !is_file {
                    self.stage = Stage::Done;
                    Action::Done(Err(ThumbError::InvalidInput))
                } else if is_vector_path(self.source.as_str()) {
                    self.stage = Stage::Done;
                    Action::Done(Ok(Found::Source))
                } else {
                    self.stage = Stage::ReadTime;
                    Action::ReadTime
                }
            },
            (Stage::ReadTime, Event::TimeRead(t)) => match t {
                Ok(m) => {
                    self.entry = cache_entry_name(self.source.as_str(), m, self.max_dimension);
                    self.stage = Stage::Probe;
                    Action::Probe
                },
                Err(e) => {
                    self.stage = Stage::Done;
                    Action::Done(Err(e))
                },
            },
            (Stage::Probe, Event::Probed(present)) => {
                if present {
                    self.stage = Stage::Done;
                    Action::Done(Ok(Found::Cached))
                } else {
                    self.stage = Stage::Fill;
                    Action::Fill
                }
            },
            (Stage::Fill, Event::Filled(outcome)) => match outcome {
                Ok(()) => {
                    self.stage = Stage::Done;
                    Action::Done(Ok(Found::Cached))
                },
                Err(e) => {
                    self.stage = Stage::Done;
                    Action::Done(Err(e))
                },
            },
            _ => {
                self.stage = Stage::Done;
                Action::Done(Err(ThumbError::OutOfOrder))
            },
        }
    }
}

} // verus!
