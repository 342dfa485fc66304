//! The orchestrator of one transcription run.
//!
//! The engine owns the whole pipeline — probe, chunk, transcribe under a
//! concurrency cap, stitch, assemble the result — but performs no I/O of
//! its own. A driver loops over it: `poll` tells the driver which chunk to
//! submit next (with the backoff delay to respect), or to wait for
//! outstanding calls, or hands over the finished `TranscribeResult`;
//! `on_probe` and `on_chunk` feed the outcomes back in. Whatever the
//! drivers and the remote API do, every finished result upholds the
//! `TranscribeResult` invariant, a fatal failure stops all further
//! dispatch, and a successful result carries exactly the stitched text of
//! the dense chunk transcripts.

use vstd::prelude::*;

use crate::chunker::{is_chunk_plan, plan_chunks, ChunkSpan};
use crate::client::{backoff_ms, backoff_spec, classify_outcome, classify_spec, RemoteOutcome, RetryDecision};
use crate::errors::EngineError;
use crate::model::{TranscribeConfig, TranscribeResult};
use crate::stitcher::{dense, stitch, stitched, texts_of, ChunkTranscript};

verus! {

/// Tuning of one pipeline run. The bounds in `wf` keep every offset and
/// delay within `u64`.
#[derive(Clone, Copy, Debug)]
pub struct EngineParams {
    /// Longest chunk the remote API will be asked to transcribe, in
    /// milliseconds.
    pub chunk_ceiling_ms: u64,
    /// How far consecutive chunks overlap, in milliseconds.
    pub overlap_ms: u64,
    /// How many times one chunk's transient failures are retried before
    /// the run gives up.
    pub retry_ceiling: u32,
    /// Backoff delay before the first retry; it doubles from there.
    pub base_backoff_ms: u64,
    /// How many chunk calls may be in flight at once.
    pub max_concurrent: u64,
}

impl EngineParams {
    /// The bounds every run's parameters must satisfy.
    pub open spec fn wf(self) -> bool {
        &&& 0 < self.overlap_ms < self.chunk_ceiling_ms
        &&& self.base_backoff_ms <= 60_000
        &&& self.max_concurrent >= 1
        &&& self.retry_ceiling < u32::MAX
    }

    /// The defaults: one-minute chunks with five seconds of overlap, three
    /// retries starting half a second apart, four calls in flight.
    pub fn recommended() -> (p: EngineParams)
        ensures
            p.wf(),
            p.chunk_ceiling_ms == 60_000,
            p.overlap_ms == 5_000,
            p.retry_ceiling == 3,
            p.base_backoff_ms == 500,
            p.max_concurrent == 4,
    {
        EngineParams {
            chunk_ceiling_ms: 60_000,
            overlap_ms: 5_000,
            retry_ceiling: 3,
            base_backoff_ms: 500,
            max_concurrent: 4,
        }
    }
}

/// What probing the input file came back with.
#[derive(Clone, Copy, Debug, PartialEq, Eq, Structural)]
pub enum ProbeOutcome {
    /// The total duration of the audio, in milliseconds.
    Duration(u64),
    /// The path does not exist or is not a supported audio file.
    Unreadable,
    /// The file opened, but its duration could not be determined.
    Corrupt,
}

/// Where one chunk stands between planning and its transcript.
#[derive(Clone, Copy, Debug, PartialEq, Eq, Structural)]
pub enum ChunkState {
    /// Waiting to be dispatched, after this many transient failures.
    Pending { failures: u32 },
    /// Submitted to the remote API, after this many transient failures.
    InFlight { failures: u32 },
    /// Its transcript is stored.
    Done,
    /// Given up; the run's fatal error records why.
    Failed,
}

/// Where the whole run stands.
#[derive(Clone, Copy, Debug, PartialEq, Eq, Structural)]
pub enum Phase {
    /// Waiting for the probe outcome.
    Probing,
    /// Chunks planned; transcribing.
    Running,
    /// The result is assembled.
    Finished,
}

/// What the driver should do next.
#[derive(Debug)]
pub enum Step {
    /// Wait `delay_ms`, then call the remote API for chunk `index`; this
    /// is physical attempt number `attempt` for that chunk.
    Submit { index: u64, attempt: u32, delay_ms: u64 },
    /// Nothing to dispatch; an in-flight outcome is still owed.
    Wait,
    /// The run is over; this is its one result.
    Finished(TranscribeResult),
}

/// The orchestrator's state: one value of it handles one file end-to-end.
pub struct Engine {
    /// The run's configuration; read-only once the run starts.
    pub config: TranscribeConfig,
    /// The run's tuning.
    pub params: EngineParams,
    /// Where the run stands.
    pub phase: Phase,
    /// Total audio duration, once the probe reported it.
    pub duration_ms: Option<u64>,
    /// The planned chunks, once planned.
    pub plan: Vec<ChunkSpan>,
    /// Where each planned chunk stands.
    pub states: Vec<ChunkState>,
    /// The stored transcript of each finished chunk.
    pub texts: Vec<Option<ChunkTranscript>>,
    /// The first fatal error observed, if any; stops further dispatch.
    pub fatal: Option<EngineError>,
    /// The assembled result, once finished.
    pub outcome: Option<TranscribeResult>,
}

/// How many of these chunk states are in flight.
pub open spec fn chunk_in_flight_count(states: Seq<ChunkState>) -> int
    decreases states.len(),
{
    if states.len() == 0 {
        0
    } else {
        chunk_in_flight_count(states.drop_last()) + if states.last() is InFlight {
            1int
        } else {
            0int
        }
    }
}

impl Engine {
    /// The invariant every engine value upholds between calls.
    pub open spec fn wf(self) -> bool {
        &&& self.params.wf()
        &&& self.states@.len() == self.plan@.len()
        &&& self.texts@.len() == self.plan@.len()
        &&& (self.phase is Finished <==> self.outcome is Some)
        &&& (self.outcome matches Some(r) ==> r.wf())
        &&& (self.phase is Probing ==> self.plan@.len() == 0 && self.fatal is None
            && self.duration_ms is None)
        &&& (self.phase is Running ==> (self.duration_ms matches Some(d) && d > 0
            && is_chunk_plan(
            self.plan@,
            d as int,
            self.params.chunk_ceiling_ms as int,
            self.params.overlap_ms as int,
        ) && self.plan@.len() >= 1))
        &&& (forall|i: int|
            0 <= i < self.states@.len() ==> ((self.states@[i] is Done) <==> (self.texts@[i] is Some)))
        &&& (forall|i: int|
            0 <= i < self.texts@.len() ==> match #[trigger] self.texts@[i] {
                Some(t) => t.index == i as u64,
                None => true,
            })
        &&& (forall|i: int|
            0 <= i < self.states@.len() ==> (self.states@[i] is Failed ==> self.fatal is Some))
        &&& (forall|i: int|
            0 <= i < self.states@.len() ==> match #[trigger] self.states@[i] {
                ChunkState::Pending { failures } => failures <= self.params.retry_ceiling,
                ChunkState::InFlight { failures } => failures <= self.params.retry_ceiling,
                _ => true,
            })
    }

    /// Every chunk has its transcript stored.
    pub open spec fn all_done(self) -> bool {
        forall|i: int| 0 <= i < self.states@.len() ==> self.states@[i] is Done
    }

    /// Some chunk call is still out with the remote API.
    pub open spec fn any_in_flight(self) -> bool {
        exists|i: int| 0 <= i < self.states@.len() && self.states@[i] is InFlight
    }

    /// Some chunk is still waiting to be dispatched.
    pub open spec fn any_pending(self) -> bool {
        exists|i: int| 0 <= i < self.states@.len() && self.states@[i] is Pending
    }

    /// How many chunk calls are out with the remote API.
    pub open spec fn in_flight_count(self) -> int {
        chunk_in_flight_count(self.states@)
    }

    /// The stored transcripts, in chunk order; meaningful when `all_done`.
    pub open spec fn collected(self) -> Seq<ChunkTranscript> {
        self.texts@.map_values(|o: Option<ChunkTranscript>| o->0)
    }

    /// A run that has finished with this failure and this metadata.
    pub open spec fn finished_failed(
        self,
        err: EngineError,
        duration_ms: Option<u64>,
        chunks: Option<u64>,
    ) -> bool {
        &&& self.phase is Finished
        &&& self.outcome matches Some(r) && !r.success && r.error->0@ == err.message_spec()
            && r.duration_ms == duration_ms && r.chunks == chunks
    }

    /// Starts a run for `config`: the next thing owed is the probe outcome
    /// for `config.file_path`.
    pub fn new(config: TranscribeConfig, params: EngineParams) -> (e: Engine)
        requires
            params.wf(),
        ensures
            e.wf(),
            e.phase is Probing,
            e.config == config,
            e.params == params,
    {
        Engine {
            config,
            params,
            phase: Phase::Probing,
            duration_ms: None,
            plan: Vec::new(),
            states: Vec::new(),
            texts: Vec::new(),
            fatal: None,
            outcome: None,
        }
    }

    /// Consumes the probe outcome: plans the chunks on a duration, or
    /// finishes the run at once on a failed probe or empty audio. Failure
    /// results carry the duration only when the probe determined one, and
    /// never a chunk count. The bound on the duration keeps every chunk
    /// offset within `u64`.
    pub fn on_probe(&mut self, outcome: ProbeOutcome)
        requires
            old(self).wf(),
            old(self).phase is Probing,
            outcome matches ProbeOutcome::Duration(d) ==> d + old(self).params.chunk_ceiling_ms
                <= u64::MAX,
        ensures
            final(self).wf(),
            final(self).config == old(self).config,
            final(self).params == old(self).params,
            outcome == ProbeOutcome::Unreadable ==> final(self).finished_failed(
                EngineError::UnreadableFile,
                None,
                None,
            ),
            outcome == ProbeOutcome::Corrupt ==> final(self).finished_failed(
                EngineError::CorruptAudio,
                None,
                None,
            ),
            outcome == ProbeOutcome::Duration(0) ==> final(self).finished_failed(
                EngineError::EmptyAudio,
                Some(0),
                None,
            ),
            outcome matches ProbeOutcome::Duration(d) ==> d > 0 ==> {
                &&& final(self).phase is Running
                &&& final(self).duration_ms == Some(d)
                &&& final(self).fatal is None
                &&& is_chunk_plan(
                    final(self).plan@,
                    d as int,
                    old(self).params.chunk_ceiling_ms as int,
                    old(self).params.overlap_ms as int,
                )
                &&& forall|i: int|
                    0 <= i < final(self).states@.len() ==> final(self).states@[i]
                        == (ChunkState::Pending { failures: 0u32 })
            },
    {
        match outcome {
            ProbeOutcome::Unreadable => {
                self.phase = Phase::Finished;
                self.outcome = Some(TranscribeResult::failed(EngineError::UnreadableFile, None, None));
            },
            ProbeOutcome::Corrupt => {
                self.phase = Phase::Finished;
                self.outcome = Some(TranscribeResult::failed(EngineError::CorruptAudio, None, None));
            },
            ProbeOutcome::Duration(d) => {
                match plan_chunks(d, self.params.chunk_ceiling_ms, self.params.overlap_ms) {
                    Err(e) => {
                        self.duration_ms = Some(d);
                        self.phase = Phase::Finished;
                        self.outcome = Some(TranscribeResult::failed(e, Some(d), None));
                    },
                    Ok(plan) => {
                        let n = plan.len();
                        let mut states: Vec<ChunkState> = Vec::new();
                        let mut texts: Vec<Option<ChunkTranscript>> = Vec::new();
                        let mut i: usize = 0;
                        while i < n
                            invariant
                                0 <= i <= n,
                                states@.len() == i,
                                texts@.len() == i,
                                forall|j: int|
                                    0 <= j < i ==> states@[j] == (ChunkState::Pending {
                                        failures: 0u32,
                                    }),
                                forall|j: int| 0 <= j < i ==> texts@[j] is None,
                            decreases n - i,
                        {
                            states.push(ChunkState::Pending { failures: 0 });
                            texts.push(None);
                            i = i + 1;
                        }
                        proof {
                            crate::chunker::lemma_plan_dense(
                                plan@,
                                d as int,
                                self.params.chunk_ceiling_ms as int,
                                self.params.overlap_ms as int,
                            );
                        }
                        self.duration_ms = Some(d);
                        self.plan = plan;
                        self.states = states;
                        self.texts = texts;
                        self.phase = Phase::Running;
                    },
                }
            },
        }
    }

    /// Consumes the outcome of one chunk call. The chunk's next state is
    /// exactly what the client's retry policy (`classify_spec`) decides: a
    /// transcript is stored under the chunk's own index, a transient
    /// failure sends the chunk back to pending with one more failure on
    /// record while the ceiling allows, and a fatal decision marks the
    /// chunk failed and records the run's first fatal error.
    pub fn on_chunk(&mut self, index: usize, outcome: RemoteOutcome)
        requires
            old(self).wf(),
            old(self).phase is Running,
            index < old(self).states@.len(),
            old(self).states@[index as int] is InFlight,
        ensures
            final(self).wf(),
            final(self).phase is Running,
            final(self).config == old(self).config,
            final(self).params == old(self).params,
            final(self).duration_ms == old(self).duration_ms,
            final(self).plan == old(self).plan,
            final(self).outcome == old(self).outcome,
            forall|j: int|
                0 <= j < old(self).states@.len() && j != index ==> final(self).states@[j]
                    == old(self).states@[j] && final(self).texts@[j] == old(self).texts@[j],
            final(self).states@.len() == old(self).states@.len(),
            final(self).texts@.len() == old(self).texts@.len(),
            (old(self).states@[index as int] matches ChunkState::InFlight { failures } ==> {
                let decision = classify_spec(
                    outcome,
                    failures,
                    old(self).params.retry_ceiling,
                    old(self).params.base_backoff_ms,
                );
                &&& (decision is Accept ==> {
                    &&& final(self).states@[index as int] is Done
                    &&& outcome matches RemoteOutcome::Transcript { text, confidence_permille }
                        && final(self).texts@[index as int] == Some(
                        ChunkTranscript {
                            index: index as u64,
                            text,
                            confidence_permille,
                        },
                    )
                    &&& final(self).fatal == old(self).fatal
                })
                &&& (decision matches RetryDecision::Retry { attempt, .. } ==> {
                    &&& final(self).states@[index as int] == (ChunkState::Pending {
                        failures: attempt,
                    })
                    &&& final(self).fatal == old(self).fatal
                    &&& final(self).texts@[index as int] == old(self).texts@[index as int]
                })
                &&& (decision matches RetryDecision::GiveUp(e) ==> {
                    &&& final(self).states@[index as int] is Failed
                    &&& final(self).fatal == (if old(self).fatal is Some {
                        old(self).fatal
                    } else {
                        Some(e)
                    })
                    &&& final(self).texts@[index as int] == old(self).texts@[index as int]
                })
            }),
    {
        let failures = match self.states[index] {
            ChunkState::InFlight { failures } => failures,
            _ => 0,
        };
        let decision = classify_outcome(
            &outcome,
            failures,
            self.params.retry_ceiling,
            self.params.base_backoff_ms,
        );
        match decision {
            RetryDecision::Accept => {
                match outcome {
                    RemoteOutcome::Transcript { text, confidence_permille } => {
                        self.texts[index] = Some(
                            ChunkTranscript { index: index as u64, text, confidence_permille },
                        );
                        self.states[index] = ChunkState::Done;
                    },
                    _ => {
                        proof {
                            assert(false);
                        }
                    },
                }
            },
            RetryDecision::Retry { attempt, .. } => {
                self.states[index] = ChunkState::Pending { failures: attempt };
            },
            RetryDecision::GiveUp(e) => {
                self.states[index] = ChunkState::Failed;
                if self.fatal.is_none() {
                    self.fatal = Some(e);
                }
            },
        }
    }

    /// Tells the driver what to do next.
    ///
    /// While chunks are pending and nothing fatal was observed, up to
    /// `max_concurrent` of them are sent out, each with the backoff delay
    /// its failure count calls for. After a fatal error nothing new is
    /// dispatched; outstanding calls are waited out and their results
    /// discarded. The run finishes — and must finish — once every chunk is
    /// done (the stitched text of the dense transcripts, with duration and
    /// chunk count), or once a fatal error has no calls left in flight
    /// (that error's message, with the metadata that was known). A
    /// finished engine hands out its one result again.
    pub fn poll(&mut self) -> (s: Step)
        requires
            old(self).wf(),
            !(old(self).phase is Probing),
        ensures
            final(self).wf(),
            final(self).config == old(self).config,
            final(self).params == old(self).params,
            final(self).duration_ms == old(self).duration_ms,
            final(self).plan == old(self).plan,
            final(self).texts == old(self).texts,
            final(self).fatal == old(self).fatal,
            (match s {
                Step::Submit { index, attempt, delay_ms } => {
                    &&& old(self).phase is Running
                    &&& final(self).phase is Running
                    &&& old(self).fatal is None
                    &&& index < old(self).states@.len()
                    &&& old(self).states@[index as int] matches ChunkState::Pending { failures }
                        && attempt == failures + 1 && delay_ms == (if failures == 0 {
                        0
                    } else {
                        backoff_spec(old(self).params.base_backoff_ms as int, failures as int)
                    }) && final(self).states@ == old(self).states@.update(
                        index as int,
                        ChunkState::InFlight { failures },
                    )
                    &&& final(self).outcome == old(self).outcome
                },
                Step::Wait => {
                    &&& *final(self) == *old(self)
                    &&& old(self).any_in_flight()
                    &&& (old(self).fatal is None ==> !old(self).any_pending() || old(
                        self,
                    ).in_flight_count() >= old(self).params.max_concurrent as int)
                },
                Step::Finished(r) => {
                    &&& r.wf()
                    &&& final(self).phase is Finished
                    &&& final(self).states == old(self).states
                    &&& final(self).outcome == Some(r)
                    &&& (old(self).phase is Finished ==> *final(self) == *old(self) && old(
                        self,
                    ).outcome == Some(r))
                    &&& (old(self).phase is Running ==> r.duration_ms == old(self).duration_ms
                        && r.chunks == Some(old(self).plan@.len() as u64))
                    &&& (old(self).phase is Running ==> (old(self).fatal matches Some(e) ==> {
                        &&& !old(self).any_in_flight()
                        &&& !r.success
                        &&& r.error->0@ == e.message_spec()
                    }))
                    &&& ((old(self).phase is Running && old(self).fatal is None) ==> {
                        &&& old(self).all_done()
                        &&& r.success
                        &&& r.text->0@ == stitched(texts_of(old(self).collected()))
                    })
                },
            }),
            (old(self).phase is Running && old(self).fatal is None && old(self).all_done())
                ==> s is Finished,
            (old(self).phase is Running && old(self).fatal is Some && !old(self).any_in_flight())
                ==> s is Finished,
            old(self).phase is Finished ==> s is Finished,
    {
        match self.phase {
            Phase::Finished => {
                let r = match &self.outcome {
                    Some(r) => r.clone(),
                    None => {
                        proof {
                            assert(false);
                        }
                        TranscribeResult::failed(EngineError::MissingChunk, None, None)
                    },
                };
                Step::Finished(r)
            },
            Phase::Probing => {
                proof {
                    assert(false);
                }
                Step::Wait
            },
            Phase::Running => self.poll_running(),
        }
    }

    /// `poll` while the run is transcribing: scan the chunk states, then
    /// dispatch, wait, or finish.
    fn poll_running(&mut self) -> (s: Step)
        requires
            old(self).wf(),
            old(self).phase is Running,
        ensures
            final(self).wf(),
            final(self).config == old(self).config,
            final(self).params == old(self).params,
            final(self).duration_ms == old(self).duration_ms,
            final(self).plan == old(self).plan,
            final(self).texts == old(self).texts,
            final(self).fatal == old(self).fatal,
            (match s {
                Step::Submit { index, attempt, delay_ms } => {
                    &&& final(self).phase is Running
                    &&& old(self).fatal is None
                    &&& index < old(self).states@.len()
                    &&& old(self).states@[index as int] matches ChunkState::Pending { failures }
                        && attempt == failures + 1 && delay_ms == (if failures == 0 {
                        0
                    } else {
                        backoff_spec(old(self).params.base_backoff_ms as int, failures as int)
                    }) && final(self).states@ == old(self).states@.update(
                        index as int,
                        ChunkState::InFlight { failures },
                    )
                    &&& final(self).outcome == old(self).outcome
                },
                Step::Wait => {
                    &&& *final(self) == *old(self)
                    &&& old(self).any_in_flight()
                    &&& (old(self).fatal is None ==> !old(self).any_pending() || old(
                        self,
                    ).in_flight_count() >= old(self).params.max_concurrent as int)
                },
                Step::Finished(r) => {
                    &&& r.wf()
                    &&& final(self).phase is Finished
                    &&& final(self).states == old(self).states
                    &&& final(self).outcome == Some(r)
                    &&& r.duration_ms == old(self).duration_ms
                    &&& r.chunks == Some(old(self).plan@.len() as u64)
                    &&& (old(self).fatal matches Some(e) ==> {
                        &&& !old(self).any_in_flight()
                        &&& !r.success
                        &&& r.error->0@ == e.message_spec()
                    })
                    &&& (old(self).fatal is None ==> {
                        &&& old(self).all_done()
                        &&& r.success
                        &&& r.text->0@ == stitched(texts_of(old(self).collected()))
                    })
                },
            }),
            (old(self).fatal is None && old(self).all_done()) ==> s is Finished,
            (old(self).fatal is Some && !old(self).any_in_flight()) ==> s is Finished,
    {
        let n = self.states.len();
        let mut first_pending: Option<usize> = None;
        let mut in_flight: u64 = 0;
        let mut any_in_flight = false;
        let mut all_done = true;
        let mut i: usize = 0;
        while i < n
            invariant
                0 <= i <= n == self.states@.len(),
                first_pending matches Some(j) ==> j < i && self.states@[j as int] is Pending,
                first_pending is None ==> forall|j: int| 0 <= j < i ==> !(self.states@[j] is Pending),
                any_in_flight == exists|j: int| 0 <= j < i && self.states@[j] is InFlight,
                any_in_flight == (in_flight > 0),
                in_flight as int == chunk_in_flight_count(self.states@.take(i as int)),
                all_done == forall|j: int| 0 <= j < i ==> self.states@[j] is Done,
                in_flight <= i,
            decreases n - i,
        {
            match self.states[i] {
                ChunkState::Pending { .. } => {
                    if first_pending.is_none() {
                        first_pending = Some(i);
                    }
                    all_done = false;
                },
                ChunkState::InFlight { .. } => {
                    in_flight = in_flight + 1;
                    any_in_flight = true;
                    all_done = false;
                },
                ChunkState::Done => {},
                ChunkState::Failed => {
                    all_done = false;
                },
            }
            proof {
                assert(self.states@.take(i + 1).drop_last() =~= self.states@.take(i as int));
                assert(self.states@.take(i + 1).last() == self.states@[i as int]);
            }
            i = i + 1;
        }
        proof {
            assert(self.states@.take(n as int) =~= self.states@);
        }
        if self.fatal.is_some() {
            if any_in_flight {
                return Step::Wait;
            }
            let err = match &self.fatal {
                Some(e) => *e,
                None => EngineError::MissingChunk,
            };
            let duration_ms = self.duration_ms;
            let chunks = self.plan.len() as u64;
            let r = TranscribeResult::failed(err, duration_ms, Some(chunks));
            self.outcome = Some(r.clone());
            self.phase = Phase::Finished;
            return Step::Finished(r);
        }
        match first_pending {
            Some(index) => {
                if in_flight < self.params.max_concurrent {
                    let failures = match self.states[index] {
                        ChunkState::Pending { failures } => failures,
                        _ => 0,
                    };
                    self.states[index] = ChunkState::InFlight { failures };
                    let delay_ms = if failures == 0 {
                        0
                    } else {
                        backoff_ms(self.params.base_backoff_ms, failures)
                    };
                    Step::Submit { index: index as u64, attempt: failures + 1, delay_ms }
                } else {
                    assert(any_in_flight);
                    Step::Wait
                }
            },
            None => {
                if any_in_flight {
                    return Step::Wait;
                }
                proof {
                    assert forall|j: int| 0 <= j < self.states@.len() implies self.states@[j]
                        is Done by {
                        assert(!(self.states@[j] is Pending));
                        assert(!(self.states@[j] is InFlight));
                        assert(!(self.states@[j] is Failed));
                    }
                    assert(self.all_done());
                }
                let duration_ms = match self.duration_ms {
                    Some(d) => d,
                    None => 0,
                };
                let chunks = self.plan.len() as u64;
                let mut collected: Vec<ChunkTranscript> = Vec::new();
                let mut j: usize = 0;
                while j < n
                    invariant
                        0 <= j <= n == self.texts@.len(),
                        self.wf(),
                        self.all_done(),
                        collected@ == self.texts@.take(j as int).map_values(
                            |o: Option<ChunkTranscript>| o->0,
                        ),
                    decreases n - j,
                {
                    match &self.texts[j] {
                        Some(t) => collected.push(t.clone()),
                        None => {
                            proof {
                                assert(self.states@[j as int] is Done);
                                assert(false);
                            }
                        },
                    }
                    proof {
                        assert(collected@ =~= self.texts@.take(j + 1).map_values(
                            |o: Option<ChunkTranscript>| o->0,
                        ));
                    }
                    j = j + 1;
                }
                proof {
                    assert(self.texts@.take(n as int) =~= self.texts@);
                    assert(collected@ == self.collected());
                    assert(dense(collected@));
                }
                let text = match stitch(&collected) {
                    Ok(t) => t,
                    Err(_) => {
                        proof {
                            assert(false);
                        }
                        String::new()
                    },
                };
                let r = TranscribeResult::succeeded(text, duration_ms, chunks);
                self.outcome = Some(r.clone());
                self.phase = Phase::Finished;
                Step::Finished(r)
            },
        }
    }
}

/// The orchestrator's result invariant: whatever run an engine went
/// through, the result it delivers has `text` present exactly when it
/// succeeded and `error` present exactly when it failed.
pub proof fn lemma_run_result_invariant(e: Engine)
    requires
        e.wf(),
        e.outcome is Some,
    ensures
        e.outcome->0.wf(),
        e.outcome->0.success <==> e.outcome->0.text is Some,
        e.outcome->0.success <==> e.outcome->0.error is None,
{
}

} // verus!
