//! The pipeline orchestrator: the decisions of one transform request, from
//! the first look into the cache to the answer. The orchestrator does no
//! input or output. It says what is to be done next; its caller does that
//! and reports what came of it.

use vstd::prelude::*;

use crate::error::CustomError;
use crate::format::{Format, OutputConvention};
use crate::metrics::{steps_of, StageTiming, Step};
use crate::naming::{blake3_hex, calculate_hash, transformed_filename, transformed_name};
use crate::request::TransformRequest;
use crate::transform::{stages_run, Encoding, ExternalJob, Processed};

verus! {

/// Where a request stands: which report the orchestrator waits for.
#[derive(Debug, Clone, Copy, PartialEq, Eq, Structural)]
pub enum Stage {
    PreparingStore,
    LookingUpTransformed,
    LookingUpSource,
    Downloading,
    StoringSource,
    Processing,
    Encoding,
    StoringTransformed,
    Finished,
}

/// How a request that succeeded was served.
#[derive(Debug, Clone, Copy, PartialEq, Eq, Structural)]
pub enum Status {
    /// The blob was computed and stored by this request.
    Transformed,
    /// The blob was there already; nothing was computed.
    AlreadyTransformed,
}

/// The answer to a request that succeeded.
#[derive(Debug, Clone, PartialEq, Eq)]
pub struct Outcome {
    pub status: Status,
    /// The cache key of the source.
    pub hash: String,
    /// The name of the transformed blob.
    pub filename: String,
}

/// What reading the source blob gave.
#[derive(Debug, PartialEq, Eq)]
pub enum SourceRead {
    Found(Vec<u8>),
    /// There is no such blob.
    Missing,
    /// The blob could not be read for any other reason.
    Failed,
}

/// What storing a blob gave.
#[derive(Debug, Clone, Copy, PartialEq, Eq, Structural)]
pub enum StoreResult {
    Stored,
    CreateFailed,
    WriteFailed,
}

/// What a codec outside this library did with its output.
#[derive(Debug, PartialEq, Eq)]
pub enum Sunk {
    /// It returned the encoded bytes.
    Bytes(Vec<u8>),
    /// It wrote them to the destination itself.
    Written,
}

/// What the caller is to do next.
#[derive(Debug, PartialEq, Eq)]
pub enum Action {
    /// Make sure that the directory of the store exists.
    PrepareStore,
    /// See whether the transformed blob of this name exists.
    LookupTransformed { name: String },
    /// Read the source blob of this key.
    LookupSource { key: String },
    /// Fetch the source.
    Download { source: String },
    /// Store the bytes that the orchestrator holds under this key.
    StoreSource { key: String },
    /// Run `process_image` on these bytes, away from the request loop.
    Process { bytes: Vec<u8>, tallest_side: u32, format: Format },
    /// Run the codec of the job's format, with this name as destination.
    Encode { job: ExternalJob, destination: String },
    /// Store these bytes as the transformed blob of this name.
    StoreTransformed { name: String, bytes: Vec<u8> },
    /// Answer the request.
    Finish(Result<Outcome, CustomError>),
    /// The report did not answer what was asked; nothing has changed.
    Rejected,
}

/// What came of the last action.
#[derive(Debug, PartialEq, Eq)]
pub enum Event {
    StorePrepared { ok: bool },
    TransformedLookup { present: bool },
    SourceLookup(SourceRead),
    /// The body that was fetched, or `None` where the fetch failed.
    Downloaded { body: Option<Vec<u8>>, nanos: u128 },
    SourceStored(StoreResult),
    /// What `process_image` returned, or the failure of the worker.
    Processed(Result<Processed, CustomError>),
    Encoded { sunk: Result<Sunk, CustomError>, nanos: u128 },
    TransformedStored { result: StoreResult, nanos: u128 },
}

/// One request on its way through the pipeline.
pub struct Orchestrator {
    pub request: TransformRequest,
    pub key: String,
    pub filename: String,
    pub stage: Stage,
    /// The bytes of the source between their download and their processing.
    pub held: Option<Vec<u8>>,
    pub download_nanos: u128,
    /// The timings that `process_image` reported.
    pub timings: Option<Vec<StageTiming>>,
    /// The time of a codec that ran outside this library.
    pub encode_nanos: Option<u128>,
    pub save_nanos: u128,
}

impl Status {
    /// The word that answers a request.
    pub open spec fn label_of(self) -> Seq<char> {
        match self {
            Status::Transformed => "TRANSFORMED"@,
            Status::AlreadyTransformed => "ALREADY_TRANSFORMED"@,
        }
    }

    pub fn label(&self) -> (label: &'static str)
        ensures
            label@ == self.label_of(),
    {
        match self {
            Status::Transformed => "TRANSFORMED",
            Status::AlreadyTransformed => "ALREADY_TRANSFORMED",
        }
    }
}

impl Stage {
    /// The place of a stage in the order of the pipeline.
    pub open spec fn rank(self) -> nat {
        match self {
            Stage::PreparingStore => 0,
            Stage::LookingUpTransformed => 1,
            Stage::LookingUpSource => 2,
            Stage::Downloading => 3,
            Stage::StoringSource => 4,
            Stage::Processing => 5,
            Stage::Encoding => 6,
            Stage::StoringTransformed => 7,
            Stage::Finished => 8,
        }
    }
}

impl Orchestrator {
    /// The key and the name are those of the request, and source bytes are
    /// held exactly while they are being stored, and are not empty.
    pub open spec fn wf(self) -> bool {
        &&& self.key@ == blake3_hex(self.request.source@)
        &&& self.filename@ == transformed_name(
            self.key@,
            self.request.tallest_side as nat,
            self.request.format,
        )
        &&& self.stage == Stage::StoringSource ==> (self.held matches Some(bytes) && bytes@.len() > 0)
        &&& self.stage != Stage::StoringSource ==> self.held is None
        &&& self.stage.rank() <= Stage::Processing.rank() ==> self.timings is None
        &&& self.stage.rank() <= Stage::Encoding.rank() ==> self.encode_nanos is None
        &&& self.stage == Stage::Encoding || self.stage == Stage::StoringTransformed
            ==> self.timings is Some
    }

    /// The timings on record name the stages that ran so far: decode and
    /// resize while a codec outside is awaited; decode, resize and encode
    /// once the encoded bytes are there.
    pub open spec fn timed(self) -> bool {
        &&& self.stage == Stage::Encoding ==> (self.timings matches Some(timings) && steps_of(
            timings@,
        ) == seq![Step::Decoding, Step::Resizing])
        &&& self.stage == Stage::StoringTransformed ==> steps_of(self.metrics_of()) == seq![
            Step::Downloading,
            Step::Decoding,
            Step::Resizing,
            Step::Encoding,
            Step::Saving,
        ]
    }

    /// A request that has just begun.
    pub open spec fn fresh(self) -> bool {
        &&& self.stage == Stage::PreparingStore
        &&& self.held is None
        &&& self.download_nanos == 0
        &&& self.timings is None
        &&& self.encode_nanos is None
        &&& self.save_nanos == 0
    }

    /// The same request at another stage.
    pub open spec fn at(self, stage: Stage) -> Orchestrator {
        Orchestrator { stage, ..self }
    }

    /// The request is answered: it is finished and holds no bytes any more.
    pub open spec fn ends_with(self, result: Result<Outcome, CustomError>) -> (
        Orchestrator,
        Action,
    ) {
        (Orchestrator { stage: Stage::Finished, held: None, ..self }, Action::Finish(result))
    }

    /// The request is answered with an error.
    pub open spec fn fails_with(self, error: CustomError) -> (Orchestrator, Action) {
        self.ends_with(Err(error))
    }

    /// The answer to the request where it succeeds: its key and the name of
    /// its blob.
    pub open spec fn outcome(self, status: Status) -> Outcome {
        Outcome { status, hash: self.key, filename: self.filename }
    }

    /// The bytes of the source go to the worker, with the size and format
    /// of the request.
    pub open spec fn processes(self, bytes: Vec<u8>) -> (Orchestrator, Action) {
        (
            Orchestrator { stage: Stage::Processing, held: None, ..self },
            Action::Process {
                bytes,
                tallest_side: self.request.tallest_side,
                format: self.request.format,
            },
        )
    }

    /// The encoded bytes go to the store, under the name of the blob.
    pub open spec fn stores(self, bytes: Vec<u8>) -> (Orchestrator, Action) {
        (
            self.at(Stage::StoringTransformed),
            Action::StoreTransformed { name: self.filename, bytes },
        )
    }

    /// The timings of a request, one for each stage, in the order in which
    /// the stages run. A stage that was skipped took no time.
    pub open spec fn metrics_of(self) -> Seq<StageTiming> {
        seq![StageTiming { step: Step::Downloading, nanos: self.download_nanos }] + (
        match self.timings {
            Some(timings) => timings@,
            None => Seq::empty(),
        }) + (match self.encode_nanos {
            Some(nanos) => seq![StageTiming { step: Step::Encoding, nanos }],
            None => Seq::empty(),
        }) + seq![StageTiming { step: Step::Saving, nanos: self.save_nanos }]
    }
}

/// The decision table of the pipeline: the state after a report and the
/// action that follows it.
pub open spec fn step(m: Orchestrator, event: Event) -> (Orchestrator, Action) {
    match (m.stage, event) {
        (Stage::PreparingStore, Event::StorePrepared { ok }) => if ok {
            (m.at(Stage::LookingUpTransformed), Action::LookupTransformed { name: m.filename })
        } else {
            m.fails_with(CustomError::DirectoryCreationError)
        },
        (Stage::LookingUpTransformed, Event::TransformedLookup { present }) => if present {
            m.ends_with(Ok(m.outcome(Status::AlreadyTransformed)))
        } else {
            (m.at(Stage::LookingUpSource), Action::LookupSource { key: m.key })
        },
        (Stage::LookingUpSource, Event::SourceLookup(read)) => match read {
            SourceRead::Found(bytes) => if bytes@.len() == 0 {
                m.fails_with(CustomError::FileCorruptError)
            } else {
                m.processes(bytes)
            },
            SourceRead::Missing => (
                m.at(Stage::Downloading),
                Action::Download { source: m.request.source },
            ),
            SourceRead::Failed => m.fails_with(CustomError::FileReadError),
        },
        (Stage::Downloading, Event::Downloaded { body, nanos }) => match body {
            None => m.fails_with(CustomError::DownloadError),
            Some(bytes) => if bytes@.len() == 0 {
                m.fails_with(CustomError::BadRequest)
            } else {
                (
                    Orchestrator {
                        stage: Stage::StoringSource,
                        held: Some(bytes),
                        download_nanos: nanos,
                        ..m
                    },
                    Action::StoreSource { key: m.key },
                )
            },
        },
        (Stage::StoringSource, Event::SourceStored(result)) => match result {
            StoreResult::Stored => match m.held {
                Some(bytes) => m.processes(bytes),
                None => (m, Action::Rejected),
            },
            StoreResult::CreateFailed => m.fails_with(CustomError::FileCreationError),
            StoreResult::WriteFailed => m.fails_with(CustomError::FileWriteError),
        },
        (Stage::Processing, Event::Processed(result)) => match result {
            Err(error) => m.fails_with(error),
            Ok(processed) => {
                let timed = Orchestrator { timings: Some(processed.timings), ..m };
                match processed.output {
                    Encoding::Bytes(bytes) => timed.stores(bytes),
                    Encoding::Pending(job) => (
                        timed.at(Stage::Encoding),
                        Action::Encode { job, destination: m.filename },
                    ),
                }
            },
        },
        (Stage::Encoding, Event::Encoded { sunk, nanos }) => match sunk {
            Err(error) => m.fails_with(error),
            Ok(sunk) => {
                let timed = Orchestrator { encode_nanos: Some(nanos), ..m };
                match sunk {
                    Sunk::Bytes(bytes) => timed.stores(bytes),
                    Sunk::Written => if m.request.format.convention_of()
                        == OutputConvention::WritesToDestination {
                        timed.ends_with(Ok(m.outcome(Status::Transformed)))
                    } else {
                        (m, Action::Rejected)
                    },
                }
            },
        },
        (Stage::StoringTransformed, Event::TransformedStored { result, nanos }) => match result {
            StoreResult::Stored => Orchestrator { save_nanos: nanos, ..m }.ends_with(
                Ok(m.outcome(Status::Transformed)),
            ),
            StoreResult::CreateFailed => m.fails_with(CustomError::FileCreationError),
            StoreResult::WriteFailed => m.fails_with(CustomError::FileWriteError),
        },
        _ => (m, Action::Rejected),
    }
}

impl Orchestrator {
    /// Takes up a validated request: computes its key and the name of its
    /// blob. The first thing to do is to prepare the store.
    pub fn begin(request: TransformRequest) -> (started: (Orchestrator, Action))
        ensures
            started.0.request == request,
            started.0.wf(),
            started.0.fresh(),
            started.1 == Action::PrepareStore,
    {
        let key = calculate_hash(request.source.as_str());
        let filename = transformed_filename(key.as_str(), request.tallest_side, request.format);
        (
            Orchestrator {
                request,
                key,
                filename,
                stage: Stage::PreparingStore,
                held: None,
                download_nanos: 0,
                timings: None,
                encode_nanos: None,
                save_nanos: 0,
            },
            Action::PrepareStore,
        )
    }

    fn finish(self, result: Result<Outcome, CustomError>) -> (next: (Orchestrator, Action))
        ensures
            next == self.ends_with(result),
    {
        (Orchestrator { stage: Stage::Finished, held: None, ..self }, Action::Finish(result))
    }

    fn answer(&self, status: Status) -> (outcome: Outcome)
        ensures
            outcome == self.outcome(status),
    {
        Outcome { status, hash: self.key.clone(), filename: self.filename.clone() }
    }

    fn process(self, bytes: Vec<u8>) -> (next: (Orchestrator, Action))
        ensures
            next == self.processes(bytes),
    {
        let tallest_side = self.request.tallest_side;
        let format = self.request.format;
        (
            Orchestrator { stage: Stage::Processing, held: None, ..self },
            Action::Process { bytes, tallest_side, format },
        )
    }

    fn store(self, bytes: Vec<u8>) -> (next: (Orchestrator, Action))
        ensures
            next == self.stores(bytes),
    {
        let name = self.filename.clone();
        (
            Orchestrator { stage: Stage::StoringTransformed, ..self },
            Action::StoreTransformed { name, bytes },
        )
    }

    /// Takes the report of what came of the last action and decides what is
    /// to be done next, as the decision table says. A report that does not
    /// answer the last action is rejected and changes nothing.
    pub fn advance(self, event: Event) -> (next: (Orchestrator, Action))
        ensures
            next == step(self, event),
    {
        match (self.stage, event) {
            (Stage::PreparingStore, Event::StorePrepared { ok }) => {
                if ok {
                    let name = self.filename.clone();
                    (
                        Orchestrator { stage: Stage::LookingUpTransformed, ..self },
                        Action::LookupTransformed { name },
                    )
                } else {
                    self.finish(Err(CustomError::DirectoryCreationError))
                }
            },
            (Stage::LookingUpTransformed, Event::TransformedLookup { present }) => {
                if present {
                    let outcome = self.answer(Status::AlreadyTransformed);
                    self.finish(Ok(outcome))
                } else {
                    let key = self.key.clone();
                    (
                        Orchestrator { stage: Stage::LookingUpSource, ..self },
                        Action::LookupSource { key },
                    )
                }
            },
            (Stage::LookingUpSource, Event::SourceLookup(read)) => match read {
                SourceRead::Found(bytes) => {
                    if bytes.len() == 0 {
                        self.finish(Err(CustomError::FileCorruptError))
                    } else {
                        self.process(bytes)
                    }
                },
                SourceRead::Missing => {
                    let source = self.request.source.clone();
                    (Orchestrator { stage: Stage::Downloading, ..self }, Action::Download { source })
                },
                SourceRead::Failed => self.finish(Err(CustomError::FileReadError)),
            },
            (Stage::Downloading, Event::Downloaded { body, nanos }) => match body {
                None => self.finish(Err(CustomError::DownloadError)),
                Some(bytes) => {
                    if bytes.len() == 0 {
                        self.finish(Err(CustomError::BadRequest))
                    } else {
                        let key = self.key.clone();
                        (
                            Orchestrator {
                                stage: Stage::StoringSource,
                                held: Some(bytes),
                                download_nanos: nanos,
                                ..self
                            },
                            Action::StoreSource { key },
                        )
                    }
                },
            },
            (Stage::StoringSource, Event::SourceStored(result)) => match result {
                StoreResult::Stored => {
                    let Orchestrator {
                        request,
                        key,
                        filename,
                        stage,
                        held,
                        download_nanos,
                        timings,
                        encode_nanos,
                        save_nanos,
                    } = self;
                    match held {
                        Some(bytes) => {
                            let rest = Orchestrator {
                                request,
                                key,
                                filename,
                                stage,
                                held: None,
                                download_nanos,
                                timings,
                                encode_nanos,
                                save_nanos,
                            };
                            rest.process(bytes)
                        },
                        None => (
                            Orchestrator {
                                request,
                                key,
                                filename,
                                stage,
                                held: None,
                                download_nanos,
                                timings,
                                encode_nanos,
                                save_nanos,
                            },
                            Action::Rejected,
                        ),
                    }
                },
                StoreResult::CreateFailed => self.finish(Err(CustomError::FileCreationError)),
                StoreResult::WriteFailed => self.finish(Err(CustomError::FileWriteError)),
            },
            (Stage::Processing, Event::Processed(result)) => match result {
                Err(error) => self.finish(Err(error)),
                Ok(processed) => {
                    let Processed { output, timings } = processed;
                    let timed = Orchestrator { timings: Some(timings), ..self };
                    match output {
                        Encoding::Bytes(bytes) => timed.store(bytes),
                        Encoding::Pending(job) => {
                            let destination = timed.filename.clone();
                            (
                                Orchestrator { stage: Stage::Encoding, ..timed },
                                Action::Encode { job, destination },
                            )
                        },
                    }
                },
            },
            (Stage::Encoding, Event::Encoded { sunk, nanos }) => match sunk {
                Err(error) => self.finish(Err(error)),
                Ok(sunk) => match sunk {
                    Sunk::Bytes(bytes) => {
                        let timed = Orchestrator { encode_nanos: Some(nanos), ..self };
                        timed.store(bytes)
                    },
                    Sunk::Written => {
                        match self.request.format.output_convention() {
                            OutputConvention::WritesToDestination => {
                                let outcome = self.answer(Status::Transformed);
                                let timed = Orchestrator { encode_nanos: Some(nanos), ..self };
                                timed.finish(Ok(outcome))
                            },
                            OutputConvention::ReturnsBytes => (self, Action::Rejected),
                        }
                    },
                },
            },
            (Stage::StoringTransformed, Event::TransformedStored { result, nanos }) => match result {
                StoreResult::Stored => {
                    let outcome = self.answer(Status::Transformed);
                    let saved = Orchestrator { save_nanos: nanos, ..self };
                    saved.finish(Ok(outcome))
                },
                StoreResult::CreateFailed => self.finish(Err(CustomError::FileCreationError)),
                StoreResult::WriteFailed => self.finish(Err(CustomError::FileWriteError)),
            },
            _ => (self, Action::Rejected),
        }
    }
}

impl Orchestrator {
    /// The timings of the request so far, one for each stage in the order of
    /// execution.
    pub fn metrics(&self) -> (metrics: Vec<StageTiming>)
        ensures
            metrics@ == self.metrics_of(),
    {
        let mut metrics: Vec<StageTiming> = Vec::new();
        metrics.push(StageTiming { step: Step::Downloading, nanos: self.download_nanos });
        match &self.timings {
            Some(timings) => {
                let ghost head = metrics@;
                let mut index: usize = 0;
                while index < timings.len()
                    invariant
                        index <= timings.len(),
                        metrics@ == head + timings@.subrange(0, index as int),
                    decreases timings.len() - index,
                {
                    metrics.push(timings[index]);
                    index = index + 1;
                    assert(metrics@ =~= head + timings@.subrange(0, index as int));
                }
                assert(timings@.subrange(0, index as int) =~= timings@);
            },
            None => {
                assert(metrics@ =~= metrics@ + Seq::<StageTiming>::empty());
            },
        }
        match self.encode_nanos {
            Some(nanos) => {
                metrics.push(StageTiming { step: Step::Encoding, nanos });
            },
            None => {},
        }
        metrics.push(StageTiming { step: Step::Saving, nanos: self.save_nanos });
        assert(metrics@ =~= self.metrics_of());
        metrics
    }
}

/// A report of the worker carries the timings that `process_image` gives:
/// one for each stage that it ran.
pub open spec fn reports_stages_run(event: Event) -> bool {
    event matches Event::Processed(Ok(processed)) ==> steps_of(processed.timings@) == stages_run(
        processed.output,
    )
}

/// A step keeps the request, its key and the name of its blob, and keeps the
/// state well formed.
pub proof fn lemma_step_keeps_well_formed(m: Orchestrator, event: Event)
    requires
        m.wf(),
    ensures
        step(m, event).0.wf(),
        step(m, event).0.request == m.request,
        step(m, event).0.key == m.key,
        step(m, event).0.filename == m.filename,
{
}

/// The stages run in one order. A report that is accepted moves the request
/// to a later stage, a report that is rejected leaves it as it was, and a
/// request is answered exactly when it reaches the last stage.
pub proof fn lemma_stages_only_advance(m: Orchestrator, event: Event)
    ensures
        step(m, event).1 is Rejected ==> step(m, event).0 == m,
        !(step(m, event).1 is Rejected) ==> step(m, event).0.stage.rank() > m.stage.rank(),
        step(m, event).1 is Finish <==> step(m, event).0.stage == Stage::Finished && m.stage
            != Stage::Finished,
{
}

/// Every answer is final, an error as much as a result: once a request has
/// been answered, no report brings it back to work. Nothing is retried.
pub proof fn lemma_answers_are_final(m: Orchestrator, event: Event, later: Event)
    requires
        step(m, event).1 is Finish,
    ensures
        step(step(m, event).0, later) == (step(m, event).0, Action::Rejected),
{
}

/// Each action has its place. The source is fetched only after the store
/// said that it has no such blob; what is stored as the source is what was
/// fetched, and it is not empty; what is processed is what the store held
/// or what was fetched and stored; a codec outside is run, and a blob is
/// stored, only on what the stages before have made.
pub proof fn lemma_actions_follow_the_order(m: Orchestrator, event: Event)
    requires
        m.wf(),
    ensures
        step(m, event).1 is LookupTransformed ==> m.stage == Stage::PreparingStore,
        step(m, event).1 is LookupSource ==> m.stage == Stage::LookingUpTransformed,
        step(m, event).1 is Download ==> m.stage == Stage::LookingUpSource && event
            == Event::SourceLookup(SourceRead::Missing),
        step(m, event).1 is StoreSource ==> {
            &&& m.stage == Stage::Downloading
            &&& event matches Event::Downloaded { body: Some(bytes), .. }
            &&& bytes@.len() > 0
            &&& step(m, event).0.held == Some(bytes)
        },
        step(m, event).1 matches Action::Process { bytes, tallest_side, format } ==> {
            &&& bytes@.len() > 0
            &&& tallest_side == m.request.tallest_side
            &&& format == m.request.format
            &&& (m.stage == Stage::LookingUpSource && event == Event::SourceLookup(
                SourceRead::Found(bytes),
            )) || (m.stage == Stage::StoringSource && event == Event::SourceStored(
                StoreResult::Stored,
            ) && m.held == Some(bytes))
        },
        step(m, event).1 matches Action::Encode { job, destination } ==> {
            &&& m.stage == Stage::Processing
            &&& destination == m.filename
            &&& event matches Event::Processed(Ok(processed))
            &&& processed.output == Encoding::Pending(job)
        },
        step(m, event).1 matches Action::StoreTransformed { name, bytes } ==> {
            &&& name == m.filename
            &&& {
                ||| {
                    &&& event matches Event::Processed(Ok(processed))
                    &&& processed.output == Encoding::Bytes(bytes)
                    &&& m.stage == Stage::Processing
                }
                ||| {
                    &&& event matches Event::Encoded { sunk: Ok(sunk), .. }
                    &&& sunk == Sunk::Bytes(bytes)
                    &&& m.stage == Stage::Encoding
                }
            }
        },
{
}

/// A request is answered as transformed only after its blob was stored: by
/// the store, or by a codec that writes its destination itself. The answer
/// names the key and the blob of the request.
pub proof fn lemma_transformed_means_stored(m: Orchestrator, event: Event)
    requires
        step(m, event).1 matches Action::Finish(Ok(outcome)) && outcome.status
            == Status::Transformed,
    ensures
        step(m, event).1 == Action::Finish(Ok(m.outcome(Status::Transformed))),
        ({
            ||| {
                &&& event matches Event::TransformedStored { result: StoreResult::Stored, .. }
                &&& m.stage == Stage::StoringTransformed
            }
            ||| {
                &&& event matches Event::Encoded { sunk: Ok(Sunk::Written), .. }
                &&& m.stage == Stage::Encoding
                &&& m.request.format.convention_of() == OutputConvention::WritesToDestination
            }
        }),
{
}

/// A request whose blob exists is answered at once: after the store is
/// prepared and has said that the blob is there, the answer is that the
/// image was transformed already, with the key and the name of the request.
/// Nothing is fetched, read, processed, encoded or stored.
pub proof fn lemma_hit_answers_at_once(m: Orchestrator)
    requires
        m.stage == Stage::PreparingStore,
    ensures
        ({
            let (looking, lookup) = step(m, Event::StorePrepared { ok: true });
            let (done, answer) = step(looking, Event::TransformedLookup { present: true });
            &&& lookup == Action::LookupTransformed { name: m.filename }
            &&& answer == Action::Finish(Ok(m.outcome(Status::AlreadyTransformed)))
            &&& done.stage == Stage::Finished
        }),
{
}

/// Idempotence. Let a request be answered as transformed, and let the same
/// source, size and format be requested again while the blob of the first
/// request is still in the store. Then the second request looks up the very
/// name that the first one stored, and is answered at once that the image
/// was transformed already, with the same key and name.
pub proof fn lemma_repeated_request_is_a_hit(
    first: Orchestrator,
    last: Event,
    second: Orchestrator,
    blobs: Set<Seq<char>>,
)
    requires
        first.wf(),
        step(first, last).1 matches Action::Finish(Ok(outcome)) && outcome.status
            == Status::Transformed,
        blobs.contains(first.filename@),
        second.wf(),
        second.stage == Stage::PreparingStore,
        second.request.source@ == first.request.source@,
        second.request.tallest_side == first.request.tallest_side,
        second.request.format == first.request.format,
    ensures
        ({
            let (looking, lookup) = step(second, Event::StorePrepared { ok: true });
            &&& lookup matches Action::LookupTransformed { name }
            &&& name@ == first.filename@
            &&& ({
                let (done, answer) = step(
                    looking,
                    Event::TransformedLookup { present: blobs.contains(name@) },
                );
                &&& answer matches Action::Finish(Ok(outcome))
                &&& outcome.status == Status::AlreadyTransformed
                &&& outcome.hash@ == first.key@
                &&& outcome.filename@ == first.filename@
                &&& done.stage == Stage::Finished
            })
        }),
{
}

/// A source blob that holds no bytes is corruption. The request fails with
/// that error; it does not go on to fetch the source again.
pub proof fn lemma_empty_source_blob_is_corrupt(m: Orchestrator, bytes: Vec<u8>)
    requires
        m.stage == Stage::LookingUpSource,
        bytes@.len() == 0,
    ensures
        step(m, Event::SourceLookup(SourceRead::Found(bytes))) == m.fails_with(
            CustomError::FileCorruptError,
        ),
{
}

/// A fetch that gives no bytes is a bad request. The request fails with
/// that error and nothing is stored: no action to store follows, and the
/// orchestrator does not keep the body.
pub proof fn lemma_empty_download_is_a_bad_request(m: Orchestrator, bytes: Vec<u8>, nanos: u128)
    requires
        m.wf(),
        m.stage == Stage::Downloading,
        bytes@.len() == 0,
    ensures
        step(m, Event::Downloaded { body: Some(bytes), nanos }) == m.fails_with(
            CustomError::BadRequest,
        ),
        step(m, Event::Downloaded { body: Some(bytes), nanos }).0.held is None,
{
}

/// Where the worker reports the timings of the stages that it ran, the
/// timings on record stay in step with the stage of the request.
pub proof fn lemma_step_keeps_timed(m: Orchestrator, event: Event)
    requires
        m.wf(),
        m.timed(),
        reports_stages_run(event),
    ensures
        step(m, event).0.timed(),
{
    let next = step(m, event).0;
    if next.stage == Stage::StoringTransformed && m.stage != Stage::StoringTransformed {
        lemma_five_stages(next);
    }
}

/// The timings of a request whose encoded bytes are there name the five
/// stages in the order of execution.
proof fn lemma_five_stages(m: Orchestrator)
    requires
        m.timings matches Some(timings) && (match m.encode_nanos {
            Some(_) => steps_of(timings@) == seq![Step::Decoding, Step::Resizing],
            None => steps_of(timings@) == seq![Step::Decoding, Step::Resizing, Step::Encoding],
        }),
    ensures
        steps_of(m.metrics_of()) == seq![
            Step::Downloading,
            Step::Decoding,
            Step::Resizing,
            Step::Encoding,
            Step::Saving,
        ],
{
    let timings = m.timings->0@;
    let all = m.metrics_of();
    assert(steps_of(timings).len() == timings.len());
    assert(forall|i: int| 0 <= i < timings.len() ==> steps_of(timings)[i] == timings[i].step);
    assert(all.len() == 5);
    assert(all[1] == timings[0]);
    assert(all[2] == timings[1]);
    assert(steps_of(timings)[0] == timings[0].step);
    assert(steps_of(timings)[1] == timings[1].step);
    if m.encode_nanos is None {
        assert(all[3] == timings[2]);
        assert(steps_of(timings)[2] == timings[2].step);
    }
    assert(steps_of(all) =~= seq![
        Step::Downloading,
        Step::Decoding,
        Step::Resizing,
        Step::Encoding,
        Step::Saving,
    ]);
}

/// One entry for each stage, in the order of execution: a request that is
/// answered as transformed has timings for downloading, decoding, resizing,
/// encoding and saving, in that order.
pub proof fn lemma_transformed_has_all_timings(m: Orchestrator, event: Event)
    requires
        m.wf(),
        m.timed(),
        step(m, event).1 matches Action::Finish(Ok(outcome)) && outcome.status
            == Status::Transformed,
    ensures
        steps_of(step(m, event).0.metrics_of()) == seq![
            Step::Downloading,
            Step::Decoding,
            Step::Resizing,
            Step::Encoding,
            Step::Saving,
        ],
{
    let next = step(m, event).0;
    if m.stage == Stage::StoringTransformed {
        let before = m.metrics_of();
        let after = next.metrics_of();
        assert(after.len() == before.len());
        assert(steps_of(after) =~= steps_of(before)) by {
            assert(forall|i: int| 0 <= i < before.len() ==> after[i].step == before[i].step);
        }
    } else {
        lemma_five_stages(next);
    }
}

} // verus!
