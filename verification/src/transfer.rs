//! Fetching a file with the `upspin` program, one decision at a time.
//!
//! Nothing here starts a program or touches a file. The caller does that: it asks
//! [`UpspinPath::get`] what to do, does it, and comes back with what happened.

use vstd::prelude::*;
use crate::access::{output_grants_public_read, output_shows_public_read};
use crate::error::UpspinError;
use crate::path::{PathModel, UpspinPath};

verus! {

/// The program that does the work.
pub const PROGRAM: &'static str = "upspin";

/// Its first argument where it is to tell about a path.
pub const INFO: &'static str = "info";

/// Its first argument where it is to write a file's content to its standard output.
pub const GET: &'static str = "get";

/// One call of the `upspin` program.
#[derive(Debug, PartialEq, Eq)]
pub struct Invocation {
    /// The program to start.
    pub program: String,
    /// Its arguments, in order.
    pub arguments: Vec<String>,
}

impl Invocation {
    /// True when this is the call `upspin <verb> <name>`.
    pub open spec fn is_call(self, verb: Seq<char>, name: Seq<char>) -> bool {
        &&& self.program@ == PROGRAM@
        &&& self.arguments@.len() == 2
        &&& self.arguments@[0]@ == verb
        &&& self.arguments@[1]@ == name
    }
}

/// How one call of the `upspin` program ended.
#[derive(Debug, PartialEq, Eq)]
pub enum Run {
    /// The program could not be started; the text says why.
    NotStarted(String),
    /// The program ran to its end.
    Exited {
        /// Whether it reported success.
        success: bool,
        /// What it wrote to its standard output, where that was kept.
        output: Vec<u8>,
    },
}

impl Run {
    /// True when the program ran and reported success.
    pub open spec fn succeeded(self) -> bool {
        match self {
            Run::NotStarted(_) => false,
            Run::Exited { success, .. } => success,
        }
    }

    /// True when this run of the `info` query shows that everyone may read: the program
    /// reported success, and what it printed says so.
    pub open spec fn shows_public_read(self) -> bool {
        match self {
            Run::NotStarted(_) => false,
            Run::Exited { success, output } => success && output_shows_public_read(output@),
        }
    }
}

/// What has just happened during a download.
#[derive(Debug, PartialEq, Eq)]
pub enum Event {
    /// Nothing yet: the download begins.
    Start,
    /// The `info` query ended so.
    Queried(Run),
    /// The destination file was created, or emptied where it was there already.
    Created,
    /// The destination file could not be created; the text says why.
    CreateFailed(String),
    /// The `get` call, with its standard output going into the destination file, ended so.
    Fetched(Run),
}

/// What the caller is to do next during a download.
#[derive(Debug, PartialEq, Eq)]
pub enum Step {
    /// Make this call, keep what it prints, and come back with `Event::Queried`.
    Query(Invocation),
    /// Create the destination file, and come back with `Event::Created` or
    /// `Event::CreateFailed`.
    Create,
    /// Make this call with its standard output going into the destination file, and come
    /// back with `Event::Fetched`.
    Fetch(Invocation),
    /// Nothing more: the download ended so.
    Done(Result<(), UpspinError>),
}

/// True when `step` is what follows `event` in a download of `path`.
pub open spec fn follows(path: PathModel, event: Event, step: Step) -> bool {
    match event {
        Event::Start => step matches Step::Query(call) && call.is_call(INFO@, path.full_path()),
        Event::Queried(run) => if run.shows_public_read() {
            step is Create
        } else {
            step matches Step::Done(Err(UpspinError::NotPublic(name))) && name@
                == path.full_path()
        },
        Event::Created => step matches Step::Fetch(call) && call.is_call(GET@, path.full_path()),
        Event::CreateFailed(reason) => step matches Step::Done(Err(UpspinError::IOError(why)))
            && why@ == reason@,
        Event::Fetched(Run::NotStarted(reason)) => step matches Step::Done(
            Err(UpspinError::InvocationError(why)),
        ) && why@ == reason@,
        Event::Fetched(Run::Exited { success, output }) => if success {
            step matches Step::Done(Ok(_))
        } else {
            step matches Step::Done(Err(UpspinError::DownloadFailed))
        },
    }
}

/// True when `event` may come back from doing what `step` asks.
pub open spec fn answers(step: Step, event: Event) -> bool {
    match step {
        Step::Query(_) => event is Queried,
        Step::Create => event is Created || event is CreateFailed,
        Step::Fetch(_) => event is Fetched,
        Step::Done(_) => false,
    }
}

/// True when `events` and `steps` are a download of `path` as far as it has gone: it began
/// with `Event::Start`, each step is what follows the event of the same place, and each
/// later event came back from doing what the step before it asked.
pub open spec fn is_download(path: PathModel, events: Seq<Event>, steps: Seq<Step>) -> bool {
    &&& events.len() == steps.len()
    &&& events.len() > 0 ==> events[0] is Start
    &&& forall|i: int| 0 <= i < events.len() ==> follows(path, #[trigger] events[i], steps[i])
    &&& forall|i: int| 0 < i < events.len() ==> answers(steps[i - 1], #[trigger] events[i])
}

/// A download goes through at most four steps, of these kinds in this order: the `info`
/// query, the creation of the file, the `get` call, the end. It may end after the query or
/// after the creation, and nothing follows its end.
pub proof fn lemma_download_order(path: PathModel, events: Seq<Event>, steps: Seq<Step>)
    requires
        is_download(path, events, steps),
    ensures
        steps.len() <= 4,
        steps.len() > 0 ==> steps[0] is Query,
        steps.len() > 1 ==> steps[1] is Create || steps[1] is Done,
        steps.len() > 2 ==> steps[1] is Create && (steps[2] is Fetch || steps[2] is Done),
        steps.len() > 3 ==> steps[2] is Fetch && steps[3] is Done,
{
    if steps.len() > 1 {
        assert(follows(path, events[1], steps[1]));
    }
    if steps.len() > 2 {
        assert(follows(path, events[2], steps[2]));
    }
    if steps.len() > 3 {
        assert(follows(path, events[3], steps[3]));
    }
    if steps.len() > 4 {
        assert(answers(steps[3], events[4]));
    }
}

/// Where the `info` query does not show that everyone may read, the download ends at once
/// as not public: no file is created and nothing is fetched.
pub proof fn lemma_not_public_ends_download(
    path: PathModel,
    events: Seq<Event>,
    steps: Seq<Step>,
)
    requires
        is_download(path, events, steps),
        steps.len() > 1,
        events[1] matches Event::Queried(run) && !run.shows_public_read(),
    ensures
        steps.len() == 2,
        steps[1] matches Step::Done(Err(UpspinError::NotPublic(name))) && name@
            == path.full_path(),
        forall|i: int| 0 <= i < steps.len() ==> !(steps[i] is Create) && !(steps[i] is Fetch),
{
    lemma_download_order(path, events, steps);
}

/// The file is created only after the `info` query has shown that everyone may read.
pub proof fn lemma_creation_needs_public_read(
    path: PathModel,
    events: Seq<Event>,
    steps: Seq<Step>,
    i: int,
)
    requires
        is_download(path, events, steps),
        0 <= i < steps.len(),
        steps[i] is Create,
    ensures
        i == 1,
        events[1] matches Event::Queried(run) && run.shows_public_read(),
{
    lemma_download_order(path, events, steps);
}

/// Where the file cannot be created, the download ends at once with that error: the `get`
/// call is never made.
pub proof fn lemma_failed_creation_ends_download(
    path: PathModel,
    events: Seq<Event>,
    steps: Seq<Step>,
    i: int,
)
    requires
        is_download(path, events, steps),
        0 <= i < steps.len(),
        events[i] is CreateFailed,
    ensures
        i == 2,
        steps.len() == 3,
        steps[2] matches Step::Done(Err(UpspinError::IOError(why))) && why@
            == events[2]->CreateFailed_0@,
        forall|j: int| 0 <= j < steps.len() ==> !(steps[j] is Fetch),
{
    lemma_download_order(path, events, steps);
}

/// The `get` call is made only after the file has been created.
pub proof fn lemma_fetch_needs_created_file(
    path: PathModel,
    events: Seq<Event>,
    steps: Seq<Step>,
    i: int,
)
    requires
        is_download(path, events, steps),
        0 <= i < steps.len(),
        steps[i] is Fetch,
    ensures
        i == 2,
        events[2] is Created,
        events[1] matches Event::Queried(run) && run.shows_public_read(),
{
    lemma_download_order(path, events, steps);
    lemma_creation_needs_public_read(path, events, steps, 1);
}

impl UpspinPath {
    /// The call `upspin <verb> <full path>`.
    fn call(&self, verb: &str) -> (call: Invocation)
        ensures
            call.is_call(verb@, self@.full_path()),
    {
        let mut arguments: Vec<String> = Vec::new();
        arguments.push(verb.to_owned());
        arguments.push(self.full_path());
        Invocation { program: PROGRAM.to_owned(), arguments }
    }

    /// The call that asks who may read this path.
    pub fn info_call(&self) -> (call: Invocation)
        ensures
            call.is_call(INFO@, self@.full_path()),
    {
        self.call(INFO)
    }

    /// Checks if the file is publicly available, going by how the call of
    /// [`UpspinPath::info_call`] ended. A call that could not be started, that reported
    /// failure, or that printed something else than text shows nothing.
    pub fn is_public(&self, info: &Run) -> (b: bool)
        ensures
            b == info.shows_public_read(),
            !info.succeeded() ==> !b,
    {
        match info {
            Run::NotStarted(_) => false,
            Run::Exited { success, output } => *success && output_grants_public_read(
                output.as_slice(),
            ),
        }
    }

    /// Downloads the file from Upspin, step by step: given what has just happened, says
    /// what to do next. Only publicly available files are downloaded: the file is created
    /// only once the `info` query has shown that everyone may read, and the `get` call is
    /// made only once the file has been created.
    pub fn get(&self, event: Event) -> (step: Step)
        ensures
            follows(self@, event, step),
            step is Create ==> (event matches Event::Queried(run) && run.shows_public_read()),
            step is Fetch ==> event is Created,
    {
        match event {
            Event::Start => Step::Query(self.info_call()),
            Event::Queried(run) => {
                if self.is_public(&run) {
                    Step::Create
                } else {
                    Step::Done(Err(UpspinError::NotPublic(self.full_path())))
                }
            },
            Event::Created => Step::Fetch(self.call(GET)),
            Event::CreateFailed(reason) => Step::Done(Err(UpspinError::IOError(reason))),
            Event::Fetched(Run::NotStarted(reason)) => Step::Done(
                Err(UpspinError::InvocationError(reason)),
            ),
            Event::Fetched(Run::Exited { success, output }) => {
                if success {
                    Step::Done(Ok(()))
                } else {
                    Step::Done(Err(UpspinError::DownloadFailed))
                }
            },
        }
    }
}

} // verus!
