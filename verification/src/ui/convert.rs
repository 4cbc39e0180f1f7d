//! The interactive conversion flow: the questions asked one after the other,
//! where the flow stops, and the one point where files are touched.
//!
//! The caller asks what the action says, answers with what the user (or the
//! file system) replied, and gets the next action. Nothing is converted,
//! written or deleted before `ConvertAction::Run`, which only follows an
//! explicit "Yes" to the final confirmation.

use vstd::prelude::*;

use crate::formats::{
    category_of, get_category, get_targets_for_category, targets_of, without, MediaCategory,
};
use crate::text::lowercase_of;
use crate::ui::flow::{workers_for_choice, workers_for_choice_of};

verus! {

/// Where the conversion flow stands: the question it waits an answer for.
#[derive(Debug, Clone, Copy, PartialEq, Eq, Structural)]
pub enum ConvertStage {
    /// Which folder to convert in.
    ChooseFolder,
    /// Whether subfolders are included.
    ChooseDepth,
    /// The extensions found in the folder, in listing order.
    Scan,
    /// Which extension to convert from.
    ChooseSource,
    /// Which format to convert to.
    ChooseTarget,
    /// Whether originals are deleted after success.
    ChooseDeletion,
    /// How many files of the source extension there are.
    FindFiles,
    /// How many workers run in parallel.
    ChooseWorkers,
    /// The final yes or no.
    Confirm,
    /// The flow is over.
    Done,
}

/// What the caller observed for the last action.
pub enum ConvertAnswer {
    /// A folder was chosen (`true`) or the choice was cancelled.
    Folder(bool),
    /// The option picked in a menu, or `None` when the menu was cancelled.
    Choice(Option<usize>),
    /// The extensions found, in the order they were offered.
    Scanned(Vec<String>),
    /// The number of files of the source extension.
    Found(usize),
    /// The answer to the final question, `None` when it was cancelled.
    Confirmed(Option<bool>),
}

/// Why the flow stopped without converting.
#[derive(Debug, Clone, Copy, PartialEq, Eq, Structural)]
pub enum StopReason {
    /// A question was cancelled.
    Cancelled,
    /// The folder holds no files.
    NoFiles,
    /// The chosen extension is no known media format.
    UnknownFormat,
    /// The format has nothing to convert to.
    NoTargets,
    /// No file of the chosen extension was found.
    NoMatches,
    /// The final question was not answered "Yes".
    Declined,
}

/// What the caller does next.
pub enum ConvertAction {
    /// Ask whether subfolders are included.
    AskDepth,
    /// List the extensions of the folder (`recursive` as answered).
    Scan,
    /// Ask which extension to convert from.
    AskSource,
    /// Ask which of `targets` to convert to.
    AskTarget,
    /// Ask whether originals are deleted after success.
    AskDeletion,
    /// Find the files of `from_ext`.
    FindFiles,
    /// Ask for the number of workers.
    AskWorkers,
    /// Show the plan and ask for the final yes or no.
    AskConfirm,
    /// Convert the files found, as chosen.
    Run { to_ext: String, category: MediaCategory, delete_originals: bool, workers: usize },
    /// End the flow without touching any file.
    Stop(StopReason),
}

/// The state of one conversion flow.
pub struct ConvertFlow {
    pub stage: ConvertStage,
    /// The processors available, for the worker choices.
    pub cpus: usize,
    /// Subfolders are included.
    pub recursive: bool,
    /// The extensions offered as sources.
    pub sources: Vec<String>,
    pub from_ext: String,
    pub category: MediaCategory,
    /// The formats offered as targets.
    pub targets: Vec<&'static str>,
    pub to_ext: String,
    pub delete_originals: bool,
    /// The number of files to convert.
    pub file_count: usize,
    /// The option picked in the worker menu, and the workers it stands for.
    pub worker_choice: usize,
    pub workers: usize,
}

/// Whether `ans` answers the question asked at `f`'s stage; a menu answer
/// picks one of the options offered.
pub open spec fn answers(f: ConvertFlow, ans: ConvertAnswer) -> bool {
    match f.stage {
        ConvertStage::ChooseFolder => ans is Folder,
        ConvertStage::ChooseDepth => ans is Choice,
        ConvertStage::Scan => ans is Scanned,
        ConvertStage::ChooseSource => match ans {
            ConvertAnswer::Choice(Some(i)) => i < f.sources.len(),
            ConvertAnswer::Choice(None) => true,
            _ => false,
        },
        ConvertStage::ChooseTarget => match ans {
            ConvertAnswer::Choice(Some(i)) => i < f.targets.len(),
            ConvertAnswer::Choice(None) => true,
            _ => false,
        },
        ConvertStage::ChooseDeletion => ans is Choice,
        ConvertStage::FindFiles => ans is Found,
        ConvertStage::ChooseWorkers => ans is Choice,
        ConvertStage::Confirm => ans is Confirmed,
        ConvertStage::Done => false,
    }
}

/// The stage after which the target format is known.
pub open spec fn target_known(s: ConvertStage) -> bool {
    s is ChooseDeletion || s is FindFiles || s is ChooseWorkers || s is Confirm
}

/// At most how many answers remain before the flow is over.
pub open spec fn stage_rank(s: ConvertStage) -> nat {
    match s {
        ConvertStage::ChooseFolder => 9,
        ConvertStage::ChooseDepth => 8,
        ConvertStage::Scan => 7,
        ConvertStage::ChooseSource => 6,
        ConvertStage::ChooseTarget => 5,
        ConvertStage::ChooseDeletion => 4,
        ConvertStage::FindFiles => 3,
        ConvertStage::ChooseWorkers => 2,
        ConvertStage::Confirm => 1,
        ConvertStage::Done => 0,
    }
}

impl ConvertFlow {
    /// Once the source is chosen, its category is known and the targets are
    /// those of the category without the source; once the target is chosen it
    /// is one of them; the files were found before the workers are asked for,
    /// and the workers are those of the option picked.
    pub open spec fn wf(&self) -> bool {
        &&& (self.stage is ChooseTarget || target_known(self.stage)) ==> {
            &&& self.category != MediaCategory::Unknown
            &&& self.targets@ == without(targets_of(self.category), lowercase_of(self.from_ext@))
        }
        &&& target_known(self.stage) ==> exists|i: int|
            0 <= i < self.targets@.len() && (#[trigger] self.targets@[i])@ == self.to_ext@
        &&& (self.stage is ChooseWorkers || self.stage is Confirm) ==> self.file_count > 0
        &&& self.stage is Confirm ==> self.workers == workers_for_choice_of(
            self.category,
            self.worker_choice as nat,
            self.cpus as nat,
        )
    }
}

/// The flow ends with `reason`, touching nothing.
pub open spec fn stops(nf: ConvertFlow, a: ConvertAction, reason: StopReason) -> bool {
    a == ConvertAction::Stop(reason) && nf.stage == ConvertStage::Done
}

/// One step of the flow: from `f`, the answer `ans` leads to `nf` and action `a`.
/// Any cancelled question stops the flow; so do an empty folder, an unknown
/// source format, a format without targets and a source without files; only
/// "Yes" to the final question runs the conversion.
pub open spec fn convert_step(f: ConvertFlow, ans: ConvertAnswer, nf: ConvertFlow, a: ConvertAction) -> bool {
    match ans {
        ConvertAnswer::Folder(false) | ConvertAnswer::Choice(None) => stops(nf, a, StopReason::Cancelled),
        ConvertAnswer::Confirmed(Some(true)) => {
            &&& a matches ConvertAction::Run { to_ext, category, delete_originals, workers }
            &&& to_ext@ == f.to_ext@
            &&& category == f.category
            &&& delete_originals == f.delete_originals
            &&& workers == f.workers
            &&& nf == ConvertFlow { stage: ConvertStage::Done, ..f }
        },
        ConvertAnswer::Confirmed(_) => stops(nf, a, StopReason::Declined),
        ConvertAnswer::Folder(true) => a is AskDepth && nf == ConvertFlow {
            stage: ConvertStage::ChooseDepth,
            ..f
        },
        ConvertAnswer::Scanned(v) => if v.len() == 0 {
            stops(nf, a, StopReason::NoFiles)
        } else {
            a is AskSource && nf == ConvertFlow { stage: ConvertStage::ChooseSource, sources: v, ..f }
        },
        ConvertAnswer::Found(n) => if n == 0 {
            stops(nf, a, StopReason::NoMatches)
        } else {
            a is AskWorkers && nf == ConvertFlow {
                stage: ConvertStage::ChooseWorkers,
                file_count: n,
                ..f
            }
        },
        ConvertAnswer::Choice(Some(c)) => match f.stage {
            ConvertStage::ChooseDepth => a is Scan && nf == ConvertFlow {
                stage: ConvertStage::Scan,
                recursive: c == 1,
                ..f
            },
            ConvertStage::ChooseSource => {
                let from = f.sources@[c as int];
                let category = category_of(lowercase_of(from@));
                let targets = without(targets_of(category), lowercase_of(from@));
                if category == MediaCategory::Unknown {
                    stops(nf, a, StopReason::UnknownFormat)
                } else if targets.len() == 0 {
                    stops(nf, a, StopReason::NoTargets)
                } else {
                    &&& a is AskTarget
                    &&& nf == ConvertFlow {
                        stage: ConvertStage::ChooseTarget,
                        from_ext: nf.from_ext,
                        category,
                        targets: nf.targets,
                        ..f
                    }
                    &&& nf.from_ext@ == from@
                    &&& nf.targets@ == targets
                }
            },
            ConvertStage::ChooseTarget => {
                &&& a is AskDeletion
                &&& nf == ConvertFlow { stage: ConvertStage::ChooseDeletion, to_ext: nf.to_ext, ..f }
                &&& nf.to_ext@ == f.targets@[c as int]@
            },
            ConvertStage::ChooseDeletion => a is FindFiles && nf == ConvertFlow {
                stage: ConvertStage::FindFiles,
                delete_originals: c == 1,
                ..f
            },
            ConvertStage::ChooseWorkers => a is AskConfirm && nf == ConvertFlow {
                stage: ConvertStage::Confirm,
                worker_choice: c,
                workers: workers_for_choice_of(f.category, c as nat, f.cpus as nat) as usize,
                ..f
            },
            _ => false,
        },
    }
}

impl ConvertFlow {
    /// A flow on a machine with `cpus` processors; it begins by asking for the
    /// folder.
    pub fn new(cpus: usize) -> (r: ConvertFlow)
        ensures
            r.stage == ConvertStage::ChooseFolder,
            r.cpus == cpus,
            r.wf(),
    {
        ConvertFlow {
            stage: ConvertStage::ChooseFolder,
            cpus,
            recursive: false,
            sources: Vec::new(),
            from_ext: String::new(),
            category: MediaCategory::Unknown,
            targets: Vec::new(),
            to_ext: String::new(),
            delete_originals: false,
            file_count: 0,
            worker_choice: 0,
            workers: 0,
        }
    }

    /// Whether `ans` answers the question the flow waits on.
    pub fn accepts(&self, ans: &ConvertAnswer) -> (r: bool)
        ensures
            r == answers(*self, *ans),
    {
        match self.stage {
            ConvertStage::ChooseFolder => matches!(ans, ConvertAnswer::Folder(_)),
            ConvertStage::ChooseDepth => matches!(ans, ConvertAnswer::Choice(_)),
            ConvertStage::Scan => matches!(ans, ConvertAnswer::Scanned(_)),
            ConvertStage::ChooseSource => match ans {
                ConvertAnswer::Choice(Some(i)) => *i < self.sources.len(),
                ConvertAnswer::Choice(None) => true,
                _ => false,
            },
            ConvertStage::ChooseTarget => match ans {
                ConvertAnswer::Choice(Some(i)) => *i < self.targets.len(),
                ConvertAnswer::Choice(None) => true,
                _ => false,
            },
            ConvertStage::ChooseDeletion => matches!(ans, ConvertAnswer::Choice(_)),
            ConvertStage::FindFiles => matches!(ans, ConvertAnswer::Found(_)),
            ConvertStage::ChooseWorkers => matches!(ans, ConvertAnswer::Choice(_)),
            ConvertStage::Confirm => matches!(ans, ConvertAnswer::Confirmed(_)),
            ConvertStage::Done => false,
        }
    }

    /// Takes the answer to the last question and gives the next action.
    pub fn next(&mut self, ans: ConvertAnswer) -> (a: ConvertAction)
        requires
            old(self).wf(),
            answers(*old(self), ans),
        ensures
            convert_step(*old(self), ans, *final(self), a),
            final(self).wf(),
    {
        match ans {
            ConvertAnswer::Folder(false) | ConvertAnswer::Choice(None) => {
                self.stage = ConvertStage::Done;
                ConvertAction::Stop(StopReason::Cancelled)
            },
            ConvertAnswer::Confirmed(Some(true)) => {
                self.stage = ConvertStage::Done;
                ConvertAction::Run {
                    to_ext: self.to_ext.clone(),
                    category: self.category,
                    delete_originals: self.delete_originals,
                    workers: self.workers,
                }
            },
            ConvertAnswer::Confirmed(_) => {
                self.stage = ConvertStage::Done;
                ConvertAction::Stop(StopReason::Declined)
            },
            ConvertAnswer::Folder(true) => {
                self.stage = ConvertStage::ChooseDepth;
                ConvertAction::AskDepth
            },
            ConvertAnswer::Scanned(v) => {
                if v.len() == 0 {
                    self.stage = ConvertStage::Done;
                    ConvertAction::Stop(StopReason::NoFiles)
                } else {
                    self.stage = ConvertStage::ChooseSource;
                    self.sources = v;
                    ConvertAction::AskSource
                }
            },
            ConvertAnswer::Found(n) => {
                if n == 0 {
                    self.stage = ConvertStage::Done;
                    ConvertAction::Stop(StopReason::NoMatches)
                } else {
                    self.stage = ConvertStage::ChooseWorkers;
                    self.file_count = n;
                    ConvertAction::AskWorkers
                }
            },
            ConvertAnswer::Choice(Some(c)) => match self.stage {
                ConvertStage::ChooseDepth => {
                    self.stage = ConvertStage::Scan;
                    self.recursive = c == 1;
                    ConvertAction::Scan
                },
                ConvertStage::ChooseSource => {
                    let from = self.sources[c].clone();
                    let category = get_category(from.as_str());
                    if category == MediaCategory::Unknown {
                        self.stage = ConvertStage::Done;
                        return ConvertAction::Stop(StopReason::UnknownFormat);
                    }
                    let targets = get_targets_for_category(category, from.as_str());
                    if targets.len() == 0 {
                        self.stage = ConvertStage::Done;
                        return ConvertAction::Stop(StopReason::NoTargets);
                    }
                    self.stage = ConvertStage::ChooseTarget;
                    self.from_ext = from;
                    self.category = category;
                    self.targets = targets;
                    ConvertAction::AskTarget
                },
                ConvertStage::ChooseTarget => {
                    let t = String::from_str(self.targets[c]);
                    self.stage = ConvertStage::ChooseDeletion;
                    self.to_ext = t;
                    assert(self.targets@[c as int]@ == self.to_ext@);
                    ConvertAction::AskDeletion
                },
                ConvertStage::ChooseDeletion => {
                    self.stage = ConvertStage::FindFiles;
                    self.delete_originals = c == 1;
                    ConvertAction::FindFiles
                },
                _ => {
                    let w = workers_for_choice(self.category, c, self.cpus);
                    self.stage = ConvertStage::Confirm;
                    self.worker_choice = c;
                    self.workers = w;
                    ConvertAction::AskConfirm
                },
            },
        }
    }
}

/// Every cancelled question ends the flow, and nothing is converted.
pub proof fn law_cancel_stops(f: ConvertFlow, ans: ConvertAnswer, nf: ConvertFlow, a: ConvertAction)
    requires
        convert_step(f, ans, nf, a),
        ans matches ConvertAnswer::Choice(None) || ans matches ConvertAnswer::Folder(false)
            || ans matches ConvertAnswer::Confirmed(None),
    ensures
        a is Stop,
        nf.stage == ConvertStage::Done,
{
}

/// Files are only touched after an explicit "Yes" to the final question: the
/// conversion runs only from the confirmation stage, and every other answer
/// there stops the flow.
pub proof fn law_run_only_after_yes(f: ConvertFlow, ans: ConvertAnswer, nf: ConvertFlow, a: ConvertAction)
    requires
        answers(f, ans),
        convert_step(f, ans, nf, a),
    ensures
        a is Run ==> f.stage == ConvertStage::Confirm && ans matches ConvertAnswer::Confirmed(Some(true)),
        f.stage == ConvertStage::Confirm && !(ans matches ConvertAnswer::Confirmed(Some(true))) ==> a is Stop,
{
}

/// The conversion that runs is the one chosen: a known category, a target
/// offered for it (never the source format itself), at least one file, the
/// deletion answer given and the workers of the option picked.
pub proof fn law_run_carries_choices(f: ConvertFlow, ans: ConvertAnswer, nf: ConvertFlow, a: ConvertAction)
    requires
        f.wf(),
        answers(f, ans),
        convert_step(f, ans, nf, a),
        a is Run,
    ensures
        a matches ConvertAction::Run { to_ext, category, delete_originals, workers } && {
            &&& to_ext@ == f.to_ext@
            &&& category == f.category && category != MediaCategory::Unknown
            &&& delete_originals == f.delete_originals
            &&& workers == workers_for_choice_of(f.category, f.worker_choice as nat, f.cpus as nat)
            &&& exists|i: int|
                0 <= i < without(targets_of(category), lowercase_of(f.from_ext@)).len()
                    && (#[trigger] without(targets_of(category), lowercase_of(f.from_ext@))[i])@
                    == to_ext@
        },
        f.file_count > 0,
{
}

/// An unknown source format, or a source without files, stops the flow.
pub proof fn law_nothing_to_convert_stops(f: ConvertFlow, ans: ConvertAnswer, nf: ConvertFlow, a: ConvertAction)
    requires
        answers(f, ans),
        convert_step(f, ans, nf, a),
    ensures
        ans matches ConvertAnswer::Choice(Some(i)) ==> (f.stage == ConvertStage::ChooseSource
            && category_of(lowercase_of(f.sources@[i as int]@)) == MediaCategory::Unknown ==> a
            == ConvertAction::Stop(StopReason::UnknownFormat)),
        ans matches ConvertAnswer::Found(0) ==> a == ConvertAction::Stop(StopReason::NoMatches),
        ans matches ConvertAnswer::Scanned(v) && v.len() == 0 ==> a == ConvertAction::Stop(
            StopReason::NoFiles,
        ),
{
}

/// Every flow comes to an end: each answer either ends it or moves it to a
/// later question.
pub proof fn law_every_flow_ends(f: ConvertFlow, ans: ConvertAnswer, nf: ConvertFlow, a: ConvertAction)
    requires
        answers(f, ans),
        convert_step(f, ans, nf, a),
    ensures
        stage_rank(nf.stage) < stage_rank(f.stage),
        (a is Run || a is Stop) <==> nf.stage == ConvertStage::Done,
{
}

/// The target format is the option the user picked: answering option `c` of
/// the target menu makes the `c`-th offered format the target, which the run
/// then carries (`law_run_carries_choices`); the deletion question follows.
pub proof fn law_target_is_the_pick(f: ConvertFlow, c: usize, nf: ConvertFlow, a: ConvertAction)
    requires
        f.stage == ConvertStage::ChooseTarget,
        answers(f, ConvertAnswer::Choice(Some(c))),
        convert_step(f, ConvertAnswer::Choice(Some(c)), nf, a),
    ensures
        c < f.targets.len(),
        nf.to_ext@ == f.targets@[c as int]@,
        nf.stage == ConvertStage::ChooseDeletion,
        a is AskDeletion,
{
}

/// The other choices are kept as answered: the subfolder and deletion answers
/// are "Yes" exactly for the second option, and the source is the extension
/// picked from those found.
pub proof fn law_choices_are_the_picks(f: ConvertFlow, c: usize, nf: ConvertFlow, a: ConvertAction)
    requires
        answers(f, ConvertAnswer::Choice(Some(c))),
        convert_step(f, ConvertAnswer::Choice(Some(c)), nf, a),
    ensures
        f.stage == ConvertStage::ChooseDepth ==> nf.recursive == (c == 1),
        f.stage == ConvertStage::ChooseDeletion ==> nf.delete_originals == (c == 1),
        f.stage == ConvertStage::ChooseSource && a is AskTarget ==> nf.from_ext@ == f.sources@[c as int]@,
        f.stage == ConvertStage::ChooseWorkers ==> nf.worker_choice == c,
{
}

} // verus!
