//! From a search to a download: what to do next at each point.
//!
//! The caller searches, shows lists, reads lines and downloads; what it does
//! in which order is decided here. It starts with [`Stage::begin`], does what
//! each [`Step`] says, and hands what came of it to [`Stage::advance`] as the
//! next [`Input`], until the step is [`Step::Exit`].

use crate::error::Error;
use crate::models::PackProject;
use crate::text::{read_number, read_number_in, reading, to_chars, trim_bounds, trimmed};
use vstd::prelude::*;

verus! {

/// How many packs a search asks for when the command line names no number.
pub const DEFAULT_MAX_RESULTS: u64 = 1;

/// The number that the argument `arg` gives, and `fallback` where there is no
/// argument or it does not read as a number.
pub fn number_or(arg: Option<&str>, fallback: u64) -> (n: u64)
    ensures
        n == match arg {
            Some(text) => match reading(text@, u64::MAX) {
                Some(given) => given,
                None => fallback,
            },
            None => fallback,
        },
{
    match arg {
        Some(text) => match read_number(text, u64::MAX) {
            Some(given) => given,
            None => fallback,
        },
        None => fallback,
    }
}

/// Why a typed line chooses nothing.
#[derive(Clone, Copy, Debug, PartialEq, Eq, Structural)]
pub enum Refusal {
    /// The line is no number.
    NotANumber,
    /// The line is a number, but the list has no entry of that number.
    OutOfRange,
}

/// The largest number that is read at the choice among the projects.
pub const PROJECT_NUMBER_LIMIT: u64 = u64::MAX;

/// The largest number that is read at the choice among the files of a
/// project.
pub const FILE_NUMBER_LIMIT: u64 = 0xffff_ffff;

/// What `line` chooses from a list of `count` entries numbered from one: the
/// place of the entry, counted from zero, if `line` is, white space around it
/// aside, the number of an entry. Numbers above `limit` are not read.
pub open spec fn spec_pick(line: Seq<char>, count: nat, limit: u64) -> Result<usize, Refusal> {
    match reading(trimmed(line), limit) {
        None => Err(Refusal::NotANumber),
        Some(n) => if 1 <= n <= count && n - 1 <= usize::MAX {
            Ok((n - 1) as usize)
        } else {
            Err(Refusal::OutOfRange)
        },
    }
}

/// What `line` chooses from a list of `count` entries numbered from one.
pub fn pick(line: &str, count: usize, limit: u64) -> (choice: Result<usize, Refusal>)
    ensures
        choice == spec_pick(line@, count as nat, limit),
{
    let chars = to_chars(line);
    let (start, end) = trim_bounds(&chars);
    match read_number_in(&chars, start, end, limit) {
        None => Err(Refusal::NotANumber),
        Some(n) => {
            if 1 <= n && n - 1 < count as u64 {
                Ok((n - 1) as usize)
            } else {
                Err(Refusal::OutOfRange)
            }
        },
    }
}

/// How a run ends.
#[derive(Clone, Copy, Debug, PartialEq, Eq, Structural)]
pub enum Outcome {
    /// The server pack is on disk.
    Downloaded,
    /// The search found nothing.
    NothingFound,
    /// The chosen version has no server pack, so there is nothing to fetch.
    NoServerPack,
    /// More lines were refused than the caller puts up with.
    GaveUp,
    /// The caller reported something that the run was not waiting for.
    OutOfTurn,
    /// An operation failed.
    Failed { error: Error },
}

impl Outcome {
    /// The exit status that goes with the outcome: zero where the run did
    /// what was asked or there was nothing to do, one otherwise.
    pub open spec fn spec_exit_code(self) -> i32 {
        match self {
            Outcome::Downloaded => 0,
            Outcome::NoServerPack => 0,
            _ => 1,
        }
    }

    /// The exit status that goes with the outcome.
    pub fn exit_code(&self) -> (code: i32)
        ensures
            code == self.spec_exit_code(),
    {
        match self {
            Outcome::Downloaded => 0,
            Outcome::NoServerPack => 0,
            _ => 1,
        }
    }
}

/// Where a run stands.
#[derive(Clone, Copy, Debug, PartialEq, Eq, Structural)]
pub enum Stage {
    /// The search is out.
    Searching,
    /// The projects are listed and a line is awaited; `refused` lines have
    /// been turned down so far.
    ChoosingProject { refused: u64 },
    /// The files of the project at `project` are listed and a line is
    /// awaited; `refused` lines have been turned down so far.
    ChoosingFile { project: usize, refused: u64 },
    /// The request for the download address is out.
    Resolving,
    /// The download is under way.
    Downloading,
    /// The run is over.
    Done { outcome: Outcome },
}

/// What the caller has to report.
#[derive(Clone, Copy, Debug)]
pub enum Input<'a> {
    /// The search was answered; what it found is the list of packs that goes
    /// with every call from now on.
    Found,
    /// The operator typed a line.
    Line { text: &'a str },
    /// The download address arrived.
    Resolved,
    /// The download succeeded.
    Downloaded,
    /// The operation that was under way failed.
    Failed { error: Error },
}

/// What the caller is to do next.
#[derive(Clone, Copy, Debug, PartialEq, Eq, Structural)]
pub enum Step {
    /// Send the search.
    Search,
    /// Show the projects, numbered from one, and read a line.
    ListProjects,
    /// Show the files of the project at `project`, numbered from one, and
    /// read a line.
    ListFiles { project: usize },
    /// Say that the line was refused, and read another.
    AskAgain { refusal: Refusal },
    /// Ask for the address from which the file `file_id` of the project
    /// `project_id` can be downloaded.
    Resolve { project_id: u64, file_id: u64 },
    /// Download from the address that arrived.
    Download,
    /// Stop, with the exit status of `outcome`.
    Exit { outcome: Outcome },
}

impl Stage {
    /// The stage and step in which a run ends with `outcome`.
    pub open spec fn ending(outcome: Outcome) -> (Stage, Step) {
        (Stage::Done { outcome }, Step::Exit { outcome })
    }

    /// What follows when a line is refused at a prompt that has turned down
    /// `refused` lines already: the run gives up if those were as many as
    /// `retry_limit` allows, and else asks again at `again`.
    pub open spec fn turning_down(
        again: Stage,
        refused: u64,
        refusal: Refusal,
        retry_limit: Option<u64>,
    ) -> (Stage, Step) {
        if retry_limit is Some && refused >= retry_limit->0 {
            Self::ending(Outcome::GaveUp)
        } else {
            (again, Step::AskAgain { refusal })
        }
    }

    /// One more than `refused`, as far as the numbers go.
    pub open spec fn one_more(refused: u64) -> u64 {
        if refused < u64::MAX {
            (refused + 1) as u64
        } else {
            refused
        }
    }

    /// The stage that follows `self` on `input`, and the step that goes with
    /// it, where `packs` is what the search has found and a prompt puts up
    /// with `retry_limit` refused lines (with any number, if there is no
    /// limit).
    ///
    /// A search that finds nothing ends the run; one that finds a single
    /// project goes on to its files; one that finds more asks which. A line
    /// that names an entry chooses it; any other line is refused. Numbers are
    /// read up to [`PROJECT_NUMBER_LIMIT`] for a project and up to
    /// [`FILE_NUMBER_LIMIT`] for a file. A chosen file without a server pack
    /// ends the run, and only a file with one is resolved and then
    /// downloaded. A failure ends the run, and so does an input that the
    /// stage does not wait for. A run that is over stays over.
    pub open spec fn next(
        self,
        packs: Seq<PackProject>,
        input: Input<'_>,
        retry_limit: Option<u64>,
    ) -> (Stage, Step) {
        match (self, input) {
            (Stage::Done { outcome }, _) => (self, Step::Exit { outcome }),
            (Stage::Searching, Input::Found) => if packs.len() == 0 {
                Self::ending(Outcome::NothingFound)
            } else if packs.len() == 1 {
                (Stage::ChoosingFile { project: 0, refused: 0 }, Step::ListFiles { project: 0 })
            } else {
                (Stage::ChoosingProject { refused: 0 }, Step::ListProjects)
            },
            (Stage::ChoosingProject { refused }, Input::Line { text }) => match spec_pick(
                text@,
                packs.len(),
                PROJECT_NUMBER_LIMIT,
            ) {
                Ok(project) => (
                    Stage::ChoosingFile { project, refused: 0 },
                    Step::ListFiles { project },
                ),
                Err(refusal) => Self::turning_down(
                    Stage::ChoosingProject { refused: Self::one_more(refused) },
                    refused,
                    refusal,
                    retry_limit,
                ),
            },
            (Stage::ChoosingFile { project, refused }, Input::Line { text }) => if project
                < packs.len() {
                match spec_pick(text@, packs[project as int].latest_files@.len(), FILE_NUMBER_LIMIT) {
                    Ok(file) => match packs[project as int].latest_files@[file as int].server_pack_file_id {
                        Some(file_id) => (
                            Stage::Resolving,
                            Step::Resolve { project_id: packs[project as int].id, file_id },
                        ),
                        None => Self::ending(Outcome::NoServerPack),
                    },
                    Err(refusal) => Self::turning_down(
                        Stage::ChoosingFile { project, refused: Self::one_more(refused) },
                        refused,
                        refusal,
                        retry_limit,
                    ),
                }
            } else {
                Self::ending(Outcome::OutOfTurn)
            },
            (Stage::Resolving, Input::Resolved) => (Stage::Downloading, Step::Download),
            (Stage::Downloading, Input::Downloaded) => Self::ending(Outcome::Downloaded),
            (Stage::Searching, Input::Failed { error }) => Self::ending(Outcome::Failed { error }),
            (Stage::Resolving, Input::Failed { error }) => Self::ending(Outcome::Failed { error }),
            (Stage::Downloading, Input::Failed { error }) => Self::ending(
                Outcome::Failed { error },
            ),
            _ => Self::ending(Outcome::OutOfTurn),
        }
    }

    /// A run at its start: the search is to be sent.
    pub fn begin() -> (r: (Stage, Step))
        ensures
            r == (Stage::Searching, Step::Search),
    {
        (Stage::Searching, Step::Search)
    }

    fn end(outcome: Outcome) -> (r: (Stage, Step))
        ensures
            r == Self::ending(outcome),
    {
        (Stage::Done { outcome }, Step::Exit { outcome })
    }

    fn turn_down(again: Stage, refused: u64, refusal: Refusal, retry_limit: Option<u64>) -> (r: (
        Stage,
        Step,
    ))
        ensures
            r == Self::turning_down(again, refused, refusal, retry_limit),
    {
        match retry_limit {
            Some(limit) if refused >= limit => Self::end(Outcome::GaveUp),
            _ => (again, Step::AskAgain { refusal }),
        }
    }

    fn count_one_more(refused: u64) -> (r: u64)
        ensures
            r == Self::one_more(refused),
    {
        if refused < u64::MAX {
            refused + 1
        } else {
            refused
        }
    }

    /// Takes `input` in and says what to do next.
    pub fn advance(
        self,
        packs: &Vec<PackProject>,
        input: Input<'_>,
        retry_limit: Option<u64>,
    ) -> (r: (Stage, Step))
        ensures
            r == self.next(packs@, input, retry_limit),
    {
        match (self, input) {
            (Stage::Done { outcome }, _) => (self, Step::Exit { outcome }),
            (Stage::Searching, Input::Found) => {
                if packs.len() == 0 {
                    Self::end(Outcome::NothingFound)
                } else if packs.len() == 1 {
                    (Stage::ChoosingFile { project: 0, refused: 0 }, Step::ListFiles { project: 0 })
                } else {
                    (Stage::ChoosingProject { refused: 0 }, Step::ListProjects)
                }
            },
            (Stage::ChoosingProject { refused }, Input::Line { text }) => {
                match pick(text, packs.len(), PROJECT_NUMBER_LIMIT) {
                    Ok(project) => (
                        Stage::ChoosingFile { project, refused: 0 },
                        Step::ListFiles { project },
                    ),
                    Err(refusal) => Self::turn_down(
                        Stage::ChoosingProject { refused: Self::count_one_more(refused) },
                        refused,
                        refusal,
                        retry_limit,
                    ),
                }
            },
            (Stage::ChoosingFile { project, refused }, Input::Line { text }) => {
                if project < packs.len() {
                    let pack = &packs[project];
                    match pick(text, pack.latest_files.len(), FILE_NUMBER_LIMIT) {
                        Ok(file) => match pack.latest_files[file].server_pack_file_id {
                            Some(file_id) => (
                                Stage::Resolving,
                                Step::Resolve { project_id: pack.id, file_id },
                            ),
                            None => Self::end(Outcome::NoServerPack),
                        },
                        Err(refusal) => Self::turn_down(
                            Stage::ChoosingFile { project, refused: Self::count_one_more(refused) },
                            refused,
                            refusal,
                            retry_limit,
                        ),
                    }
                } else {
                    Self::end(Outcome::OutOfTurn)
                }
            },
            (Stage::Resolving, Input::Resolved) => (Stage::Downloading, Step::Download),
            (Stage::Downloading, Input::Downloaded) => Self::end(Outcome::Downloaded),
            (Stage::Searching, Input::Failed { error }) => Self::end(Outcome::Failed { error }),
            (Stage::Resolving, Input::Failed { error }) => Self::end(Outcome::Failed { error }),
            (Stage::Downloading, Input::Failed { error }) => Self::end(Outcome::Failed { error }),
            _ => Self::end(Outcome::OutOfTurn),
        }
    }
    /// The stage reached from `self` when `inputs` come in, in order.
    pub open spec fn after(
        self,
        packs: Seq<PackProject>,
        inputs: Seq<Input<'_>>,
        retry_limit: Option<u64>,
    ) -> Stage
        decreases inputs.len(),
    {
        if inputs.len() == 0 {
            self
        } else {
            self.after(packs, inputs.drop_last(), retry_limit).next(
                packs,
                inputs.last(),
                retry_limit,
            ).0
        }
    }

    /// The steps with which `inputs` are answered, one for each.
    pub open spec fn answers(
        self,
        packs: Seq<PackProject>,
        inputs: Seq<Input<'_>>,
        retry_limit: Option<u64>,
    ) -> Seq<Step>
        decreases inputs.len(),
    {
        if inputs.len() == 0 {
            Seq::empty()
        } else {
            self.answers(packs, inputs.drop_last(), retry_limit).push(
                self.after(packs, inputs.drop_last(), retry_limit).next(
                    packs,
                    inputs.last(),
                    retry_limit,
                ).1,
            )
        }
    }

    /// What holds of a stage that a run has reached from its start, given
    /// the steps answered so far.
    spec fn consistent(self, packs: Seq<PackProject>, answered: Seq<Step>) -> bool {
        &&& self is Searching <==> answered.len() == 0
        &&& self is Resolving ==> answered.last() is Resolve
        &&& self is Downloading ==> answered.last() is Download
        &&& self matches Stage::Done { outcome } ==> answered.last() == (Step::Exit { outcome })
        &&& packs.len() == 0 ==> self is Searching || self is Done
        &&& forall|k: int|
            0 <= k < answered.len() ==> match #[trigger] answered[k] {
                Step::Search => false,
                Step::Resolve { project_id, file_id } => has_server_pack(packs, project_id, file_id)
                    && self.past_choice(),
                Step::Download => k > 0 && answered[k - 1] is Resolve,
                Step::Exit { outcome } => self == (Stage::Done { outcome }),
                _ => packs.len() > 0,
            }
    }

    /// Whether the run has left the choice of a file behind with a file to
    /// fetch.
    spec fn past_choice(self) -> bool {
        match self {
            Stage::Resolving => true,
            Stage::Downloading => true,
            Stage::Done { outcome } => outcome is Downloaded || outcome is Failed
                || outcome is OutOfTurn,
            _ => false,
        }
    }

    proof fn lemma_consistent(
        packs: Seq<PackProject>,
        inputs: Seq<Input<'_>>,
        retry_limit: Option<u64>,
    )
        ensures
            Stage::Searching.after(packs, inputs, retry_limit).consistent(
                packs,
                Stage::Searching.answers(packs, inputs, retry_limit),
            ),
            Stage::Searching.answers(packs, inputs, retry_limit).len() == inputs.len(),
        decreases inputs.len(),
    {
        if inputs.len() > 0 {
            let earlier = inputs.drop_last();
            Self::lemma_consistent(packs, earlier, retry_limit);
            law_resolve_needs_server_pack(
                Stage::Searching.after(packs, earlier, retry_limit),
                packs,
                inputs.last(),
                retry_limit,
            );
        }
    }
}

/// Whether the project `project_id` among `packs` has a file whose server
/// pack is the file `file_id`.
pub open spec fn has_server_pack(packs: Seq<PackProject>, project_id: u64, file_id: u64) -> bool {
    exists|project: int, file: int|
        0 <= project < packs.len() && 0 <= file < packs[project].latest_files@.len()
            && packs[project].id == project_id
            && #[trigger] packs[project].latest_files@[file].server_pack_file_id == Some(file_id)
}

/// A download address is asked for only where there is a server pack: if the
/// step that answers an input, at whatever stage, is to resolve a file of a
/// project, then the stage was the choice among the files of that project,
/// and the file is the server pack of one of them.
pub proof fn law_resolve_needs_server_pack(
    stage: Stage,
    packs: Seq<PackProject>,
    input: Input<'_>,
    retry_limit: Option<u64>,
)
    ensures
        stage.next(packs, input, retry_limit).1 matches Step::Resolve { project_id, file_id } ==> {
            &&& stage matches Stage::ChoosingFile { project, .. }
            &&& project < packs.len()
            &&& packs[project as int].id == project_id
            &&& has_server_pack(packs, project_id, file_id)
        },
{
    if let Step::Resolve { project_id, file_id } = stage.next(packs, input, retry_limit).1 {
        let project = stage->ChoosingFile_project;
        let text = input->Line_text;
        let files = packs[project as int].latest_files@;
        let file = spec_pick(text@, files.len(), FILE_NUMBER_LIMIT)->Ok_0;
        assert(files[file as int].server_pack_file_id == Some(file_id));
    }
}

/// A file without a server pack ends the run in peace: if the line typed at
/// the choice among the files of a project names a file that has no server
/// pack, the run is over with `NoServerPack`, whose exit status is zero, and
/// nothing is resolved or downloaded.
pub proof fn law_no_server_pack_ends_run(
    packs: Seq<PackProject>,
    project: usize,
    refused: u64,
    text: &str,
    file: usize,
    retry_limit: Option<u64>,
)
    requires
        project < packs.len(),
        spec_pick(text@, packs[project as int].latest_files@.len(), FILE_NUMBER_LIMIT) == Ok::<
            usize,
            Refusal,
        >(file),
        packs[project as int].latest_files@[file as int].server_pack_file_id is None,
    ensures
        (Stage::ChoosingFile { project, refused }).next(
            packs,
            Input::Line { text },
            retry_limit,
        ) == Stage::ending(Outcome::NoServerPack),
        Outcome::NoServerPack.spec_exit_code() == 0,
{
}

/// A run resolves only server packs that there are: if an answer of a run
/// from its start is to resolve a file of a project, that file is the server
/// pack of a file of that project among the packs.
pub proof fn law_run_resolves_server_packs_only(
    packs: Seq<PackProject>,
    inputs: Seq<Input<'_>>,
    retry_limit: Option<u64>,
    k: int,
)
    requires
        0 <= k < inputs.len(),
    ensures
        Stage::Searching.answers(packs, inputs, retry_limit)[k] matches Step::Resolve {
            project_id,
            file_id,
        } ==> has_server_pack(packs, project_id, file_id),
{
    Stage::lemma_consistent(packs, inputs, retry_limit);
}

/// A run downloads only what it has just resolved: if an answer of a run
/// from its start is to download, the answer before it was to resolve.
pub proof fn law_download_follows_resolve(
    packs: Seq<PackProject>,
    inputs: Seq<Input<'_>>,
    retry_limit: Option<u64>,
    k: int,
)
    requires
        0 <= k < inputs.len(),
        Stage::Searching.answers(packs, inputs, retry_limit)[k] is Download,
    ensures
        k > 0,
        Stage::Searching.answers(packs, inputs, retry_limit)[k - 1] is Resolve,
{
    Stage::lemma_consistent(packs, inputs, retry_limit);
}

/// An exit is final: once a run from its start has answered with an exit,
/// every later answer is that same exit.
pub proof fn law_exit_is_final(
    packs: Seq<PackProject>,
    inputs: Seq<Input<'_>>,
    retry_limit: Option<u64>,
    k: int,
    later: int,
)
    requires
        0 <= k <= later < inputs.len(),
        Stage::Searching.answers(packs, inputs, retry_limit)[k] is Exit,
    ensures
        Stage::Searching.answers(packs, inputs, retry_limit)[later] == Stage::Searching.answers(
            packs,
            inputs,
            retry_limit,
        )[k],
{
    lemma_over_stays_over(packs, inputs, retry_limit, k, later);
}

/// A run that ends because there was nothing to fetch has fetched nothing: if
/// a run from its start is over because nothing was found, because the chosen
/// file has no server pack, or because too many lines were refused, then none
/// of its answers was to resolve or to download.
pub proof fn law_quiet_end_fetches_nothing(
    packs: Seq<PackProject>,
    inputs: Seq<Input<'_>>,
    retry_limit: Option<u64>,
    k: int,
)
    requires
        0 <= k < inputs.len(),
        ({
            let end = Stage::Searching.after(packs, inputs, retry_limit);
            ||| end == (Stage::Done { outcome: Outcome::NothingFound })
            ||| end == (Stage::Done { outcome: Outcome::NoServerPack })
            ||| end == (Stage::Done { outcome: Outcome::GaveUp })
        }),
    ensures
        !(Stage::Searching.answers(packs, inputs, retry_limit)[k] is Resolve),
        !(Stage::Searching.answers(packs, inputs, retry_limit)[k] is Download),
{
    Stage::lemma_consistent(packs, inputs, retry_limit);
    let answered = Stage::Searching.answers(packs, inputs, retry_limit);
    if answered[k] is Download {
        assert(answered[k - 1] is Resolve);
    }
}

/// A search that finds nothing ends the run at once: with no packs, every
/// answer of a run is to exit, and where the search was answered the exit is
/// `NothingFound`, whose exit status is one.
pub proof fn law_nothing_found_ends_run(
    inputs: Seq<Input<'_>>,
    retry_limit: Option<u64>,
    k: int,
)
    requires
        0 <= k < inputs.len(),
    ensures
        Stage::Searching.answers(Seq::empty(), inputs, retry_limit)[k] is Exit,
        inputs[0] is Found ==> Stage::Searching.answers(Seq::empty(), inputs, retry_limit)[k] == (
        Step::Exit { outcome: Outcome::NothingFound }),
        Outcome::NothingFound.spec_exit_code() == 1,
{
    let packs = Seq::<PackProject>::empty();
    Stage::lemma_consistent(packs, inputs, retry_limit);
    lemma_answer_at(packs, inputs, retry_limit, 0);
    lemma_over_stays_over(packs, inputs, retry_limit, 0, k);
}

/// The answer to the input at `k` is what the stage reached before it says.
proof fn lemma_answer_at(
    packs: Seq<PackProject>,
    inputs: Seq<Input<'_>>,
    retry_limit: Option<u64>,
    k: int,
)
    requires
        0 <= k < inputs.len(),
    ensures
        Stage::Searching.answers(packs, inputs, retry_limit).len() == inputs.len(),
        Stage::Searching.answers(packs, inputs, retry_limit)[k] == Stage::Searching.after(
            packs,
            inputs.take(k),
            retry_limit,
        ).next(packs, inputs[k], retry_limit).1,
        Stage::Searching.after(packs, inputs.take(k + 1), retry_limit) == Stage::Searching.after(
            packs,
            inputs.take(k),
            retry_limit,
        ).next(packs, inputs[k], retry_limit).0,
    decreases inputs.len(),
{
    assert(inputs.take(k + 1).drop_last() =~= inputs.take(k));
    if k == inputs.len() - 1 {
        Stage::lemma_consistent(packs, inputs.drop_last(), retry_limit);
    } else {
        lemma_answer_at(packs, inputs.drop_last(), retry_limit, k);
        assert(inputs.drop_last().take(k) =~= inputs.take(k));
    }
}

/// Once a run has answered with an exit, every later answer is that exit.
proof fn lemma_over_stays_over(
    packs: Seq<PackProject>,
    inputs: Seq<Input<'_>>,
    retry_limit: Option<u64>,
    k: int,
    later: int,
)
    requires
        0 <= k <= later < inputs.len(),
        Stage::Searching.answers(packs, inputs, retry_limit)[k] is Exit,
    ensures
        Stage::Searching.answers(packs, inputs, retry_limit)[later] == Stage::Searching.answers(
            packs,
            inputs,
            retry_limit,
        )[k],
        Stage::Searching.after(packs, inputs.take(later + 1), retry_limit) is Done,
    decreases later - k,
{
    lemma_answer_at(packs, inputs, retry_limit, later);
    if later > k {
        lemma_over_stays_over(packs, inputs, retry_limit, k, later - 1);
        lemma_answer_at(packs, inputs, retry_limit, later - 1);
    }
}

} // verus!
