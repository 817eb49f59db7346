//! The ordered fallback over the commands that may run the worker: they are
//! tried strictly in order, the first that starts wins, and only a failure to
//! start leads to the next.

use crate::text::{lemma_mentions_middle, mentions, texts};
use vstd::prelude::*;
use vstd::string::*;

verus! {

/// What the worker is asked to do.
#[derive(Clone, Copy, Debug, PartialEq, Eq, Structural)]
pub enum Action {
    PlaylistInfo,
    Title,
    Download,
}

impl Action {
    /// The word that names the action on the worker's command line.
    pub open spec fn verb(self) -> Seq<char> {
        match self {
            Action::PlaylistInfo => "get-playlist-info"@,
            Action::Title => "get-title"@,
            Action::Download => "download"@,
        }
    }

    /// The word that names the action on the worker's command line.
    pub fn word(self) -> (word: String)
        ensures
            word@ == self.verb(),
    {
        match self {
            Action::PlaylistInfo => String::from_str("get-playlist-info"),
            Action::Title => String::from_str("get-title"),
            Action::Download => String::from_str("download"),
        }
    }

    /// What stands between the command and the cause in the text of a
    /// failure to start.
    pub open spec fn start_note(self) -> Seq<char> {
        match self {
            Action::Title => " command for get-title: "@,
            _ => " command: "@,
        }
    }

    /// How the text begins that says that no command started.
    pub open spec fn exhausted_head(self) -> Seq<char> {
        match self {
            Action::Title => "All Python commands failed for get-title. Last error: "@,
            _ => "All Python commands failed. Last error: "@,
        }
    }
}

/// The text that says that `command` did not start, and why.
pub open spec fn start_failure_text(action: Action, command: Seq<char>, cause: Seq<char>) -> Seq<
    char,
> {
    "Failed to execute "@ + command + action.start_note() + cause
}

/// The text that says that no command started, with the last failure in it.
pub open spec fn exhausted_text(action: Action, last_error: Seq<char>) -> Seq<char> {
    action.exhausted_head() + last_error
        + ". Please ensure Python is installed and yt-dlp is available."@
}

/// A fallback in progress, as plain values.
pub struct PlanView {
    /// What the worker is asked to do.
    pub action: Action,
    /// The commands, in the order in which they are tried.
    pub candidates: Seq<Seq<char>>,
    /// How many of them were tried: those before this position.
    pub tried: nat,
    /// The position of the command that started, once one has.
    pub chosen: Option<nat>,
    /// The text of the latest failure to start; empty before the first.
    pub last_error: Seq<char>,
}

impl PlanView {
    /// Whether a command is waiting to be tried: none has started yet and
    /// some are left.
    pub open spec fn pending(self) -> bool {
        self.chosen is None && self.tried < self.candidates.len()
    }

    /// Whether every command was tried and none started.
    pub open spec fn exhausted(self) -> bool {
        self.chosen is None && self.tried >= self.candidates.len()
    }
}

/// The fallback over `candidates` before anything was tried.
pub open spec fn start(action: Action, candidates: Seq<Seq<char>>) -> PlanView {
    PlanView { action, candidates, tried: 0, chosen: None, last_error: Seq::empty() }
}

/// The fallback after the waiting command was tried: it started (`None`), or
/// it failed to start for the given cause. Where no command is waiting
/// nothing changes.
pub open spec fn attempt(plan: PlanView, failure: Option<Seq<char>>) -> PlanView {
    if !plan.pending() {
        plan
    } else {
        match failure {
            None => PlanView { chosen: Some(plan.tried), tried: plan.tried + 1, ..plan },
            Some(cause) => PlanView {
                last_error: start_failure_text(
                    plan.action,
                    plan.candidates[plan.tried as int],
                    cause,
                ),
                tried: plan.tried + 1,
                ..plan
            },
        }
    }
}

/// The fallback over the commands that may run the worker.
pub struct FallbackPlan {
    action: Action,
    candidates: Vec<String>,
    tried: usize,
    chosen: Option<usize>,
    last_error: String,
}

impl FallbackPlan {
    #[verifier::type_invariant]
    spec fn well_formed(&self) -> bool {
        &&& self.tried <= self.candidates@.len()
        &&& self.chosen matches Some(at) ==> at < self.tried
    }

    /// The fallback as plain values.
    pub closed spec fn view(&self) -> PlanView {
        PlanView {
            action: self.action,
            candidates: texts(self.candidates@),
            tried: self.tried as nat,
            chosen: match self.chosen {
                Some(at) => Some(at as nat),
                None => None,
            },
            last_error: self.last_error@,
        }
    }

    /// The commands themselves, in the order in which they are tried.
    pub closed spec fn commands(&self) -> Seq<String> {
        self.candidates@
    }

    /// The view holds the commands as plain values.
    pub proof fn lemma_commands(&self)
        ensures
            self@.candidates == texts(self.commands()),
    {
    }

    /// A fallback over `candidates`, of which none was tried yet.
    pub fn new(action: Action, candidates: Vec<String>) -> (plan: Self)
        ensures
            plan@ == start(action, texts(candidates@)),
            plan.commands() == candidates@,
    {
        FallbackPlan { action, candidates, tried: 0, chosen: None, last_error: String::new() }
    }

    /// The command to try now, if one is waiting.
    pub fn current(&self) -> (command: Option<&String>)
        ensures
            command is Some <==> self@.pending(),
            command matches Some(word) ==> *word == self.commands()[self@.tried as int] && word@
                == self@.candidates[self@.tried as int],
    {
        proof {
            use_type_invariant(self);
        }
        if self.chosen.is_none() && self.tried < self.candidates.len() {
            Some(&self.candidates[self.tried])
        } else {
            None
        }
    }

    /// Records that the waiting command started: it is chosen, and no other
    /// command will be tried.
    pub fn record_started(&mut self)
        ensures
            final(self)@ == attempt(old(self)@, None),
            final(self).commands() == old(self).commands(),
    {
        proof {
            use_type_invariant(&*self);
        }
        if self.chosen.is_none() && self.tried < self.candidates.len() {
            let at = self.tried;
            self.tried = at + 1;
            self.chosen = Some(at);
        }
    }

    /// Records that the waiting command failed to start, and why. The next
    /// command, if there is one, is now waiting.
    pub fn record_failure(&mut self, cause: &str)
        ensures
            final(self)@ == attempt(old(self)@, Some(cause@)),
            final(self).commands() == old(self).commands(),
    {
        proof {
            use_type_invariant(&*self);
        }
        if self.chosen.is_none() && self.tried < self.candidates.len() {
            let note = match self.action {
                Action::Title => " command for get-title: ",
                _ => " command: ",
            };
            let text = String::from_str("Failed to execute ").concat(
                self.candidates[self.tried].as_str(),
            ).concat(note).concat(cause);
            self.last_error = text;
            self.tried = self.tried + 1;
        }
    }

    /// The position of the command that started, once one has.
    pub fn chosen(&self) -> (at: Option<usize>)
        ensures
            at is Some <==> self@.chosen is Some,
            at matches Some(i) ==> self@.chosen == Some(i as nat) && i < self@.tried,
            self@.tried <= self@.candidates.len(),
    {
        proof {
            use_type_invariant(self);
        }
        self.chosen
    }

    /// The command that started, once one has.
    pub fn winner(&self) -> (command: Option<&String>)
        ensures
            command is Some <==> self@.chosen is Some,
            command matches Some(word) ==> self@.chosen matches Some(at) && at
                < self.commands().len() && *word == self.commands()[at as int] && word@
                == self@.candidates[at as int],
    {
        proof {
            use_type_invariant(self);
        }
        match self.chosen {
            Some(at) => Some(&self.candidates[at]),
            None => None,
        }
    }

    /// How many commands were tried so far.
    pub fn attempts(&self) -> (count: usize)
        ensures
            count == self@.tried,
            count <= self@.candidates.len(),
    {
        proof {
            use_type_invariant(self);
        }
        self.tried
    }

    /// The error of a fallback in which every command was tried and none
    /// started: a text with the latest failure in it. While a command is
    /// waiting, or after one has started, there is no such error.
    pub fn failure(&self) -> (error: Option<String>)
        ensures
            error is Some <==> self@.exhausted(),
            error matches Some(text) ==> text@ == exhausted_text(self@.action, self@.last_error),
    {
        proof {
            use_type_invariant(self);
        }
        if self.chosen.is_none() && self.tried >= self.candidates.len() {
            let head = match self.action {
                Action::Title => "All Python commands failed for get-title. Last error: ",
                _ => "All Python commands failed. Last error: ",
            };
            Some(
                String::from_str(head).concat(self.last_error.as_str()).concat(
                    ". Please ensure Python is installed and yt-dlp is available.",
                ),
            )
        } else {
            None
        }
    }
}

/// The fallback after the waiting commands were tried one after the other,
/// until one started or none was left. `outcomes[i]` says how trying the
/// command at position `i` ends: it starts (`None`) or fails to start for the
/// given cause.
pub open spec fn resolve(plan: PlanView, outcomes: Seq<Option<Seq<char>>>) -> PlanView
    decreases plan.candidates.len() - plan.tried,
{
    if plan.pending() && plan.tried < outcomes.len() {
        resolve(attempt(plan, outcomes[plan.tried as int]), outcomes)
    } else {
        plan
    }
}

proof fn lemma_resolve_from(plan: PlanView, outcomes: Seq<Option<Seq<char>>>, winner: int)
    requires
        plan.chosen is None,
        plan.tried <= plan.candidates.len(),
        outcomes.len() == plan.candidates.len(),
        plan.tried <= winner <= outcomes.len(),
        forall|j: int| 0 <= j < winner ==> (#[trigger] outcomes[j]) is Some,
        winner < outcomes.len() ==> outcomes[winner] is None,
        plan.tried > 0 ==> plan.last_error == start_failure_text(
            plan.action,
            plan.candidates[plan.tried - 1],
            outcomes[plan.tried - 1]->0,
        ),
    ensures
        resolve(plan, outcomes).action == plan.action,
        resolve(plan, outcomes).candidates == plan.candidates,
        winner < outcomes.len() ==> resolve(plan, outcomes).chosen == Some(winner as nat)
            && resolve(plan, outcomes).tried == winner + 1,
        winner == outcomes.len() ==> resolve(plan, outcomes).exhausted() && resolve(
            plan,
            outcomes,
        ).tried == outcomes.len(),
        winner == outcomes.len() && winner > 0 ==> resolve(plan, outcomes).last_error
            == start_failure_text(
            plan.action,
            plan.candidates[winner - 1],
            outcomes[winner - 1]->0,
        ),
    decreases plan.candidates.len() - plan.tried,
{
    if plan.pending() && plan.tried < outcomes.len() {
        let next = attempt(plan, outcomes[plan.tried as int]);
        if plan.tried < winner {
            assert(outcomes[plan.tried as int] is Some);
            lemma_resolve_from(next, outcomes, winner);
        } else {
            assert(!next.pending());
        }
    }
}

/// Of commands tried in order, the first that starts is the one used, and no
/// command after it is tried: where the command at position `winner` starts
/// and every one before it fails to start, the fallback ends with `winner`
/// chosen after `winner + 1` attempts.
pub proof fn law_first_to_start_wins(
    action: Action,
    candidates: Seq<Seq<char>>,
    outcomes: Seq<Option<Seq<char>>>,
    winner: int,
)
    requires
        outcomes.len() == candidates.len(),
        0 <= winner < outcomes.len(),
        outcomes[winner] is None,
        forall|j: int| 0 <= j < winner ==> (#[trigger] outcomes[j]) is Some,
    ensures
        resolve(start(action, candidates), outcomes).chosen == Some(winner as nat),
        resolve(start(action, candidates), outcomes).tried == winner + 1,
        !resolve(start(action, candidates), outcomes).pending(),
{
    lemma_resolve_from(start(action, candidates), outcomes, winner);
}

/// Where every command fails to start, every one was tried, none is chosen,
/// and the error mentions the cause for which the last one failed.
pub proof fn law_last_cause_is_reported(
    action: Action,
    candidates: Seq<Seq<char>>,
    outcomes: Seq<Option<Seq<char>>>,
)
    requires
        outcomes.len() == candidates.len(),
        candidates.len() > 0,
        forall|j: int| 0 <= j < outcomes.len() ==> (#[trigger] outcomes[j]) is Some,
    ensures
        resolve(start(action, candidates), outcomes).exhausted(),
        resolve(start(action, candidates), outcomes).tried == candidates.len(),
        resolve(start(action, candidates), outcomes).last_error == start_failure_text(
            action,
            candidates.last(),
            outcomes.last()->0,
        ),
        mentions(
            exhausted_text(action, resolve(start(action, candidates), outcomes).last_error),
            outcomes.last()->0,
        ),
{
    let end = resolve(start(action, candidates), outcomes);
    lemma_resolve_from(start(action, candidates), outcomes, outcomes.len() as int);
    let cause = outcomes.last()->0;
    let head = action.exhausted_head() + "Failed to execute "@ + candidates.last()
        + action.start_note();
    let tail = ". Please ensure Python is installed and yt-dlp is available."@;
    assert(exhausted_text(action, end.last_error) =~= head + cause + tail);
    lemma_mentions_middle(head, cause, tail);
}

/// Whether `outcome` is a way in which `begin` can end when it is asked to
/// start `command`: with some handle (`None`), or with an error of the given
/// text.
pub open spec fn agrees<H, F: Fn(&String) -> Result<H, String>>(
    begin: F,
    command: String,
    outcome: Option<Seq<char>>,
) -> bool {
    match outcome {
        None => exists|handle: H| call_ensures(begin, (&command,), Ok::<H, String>(handle)),
        Some(cause) => exists|text: String|
            text@ == cause && call_ensures(begin, (&command,), Err::<H, String>(text)),
    }
}

proof fn lemma_resolve_settled(plan: PlanView, outcomes: Seq<Option<Seq<char>>>)
    requires
        !plan.pending(),
    ensures
        resolve(plan, outcomes) == plan,
{
}

/// Tries the waiting commands of `plan` in order, each by one call of
/// `begin`, until one starts or none is left, and records every attempt in
/// `plan`. The handle that comes back is the one that `begin` gave for the
/// chosen command; every command before it was tried and failed to start,
/// and no command after it was tried.
pub fn try_in_order<H, F: Fn(&String) -> Result<H, String>>(plan: &mut FallbackPlan, begin: F) -> (started:
    Option<H>)
    requires
        forall|command: &String| call_requires(begin, (command,)),
    ensures
        final(plan).commands() == old(plan).commands(),
        !final(plan)@.pending(),
        exists|outcomes: Seq<Option<Seq<char>>>|
            {
                &&& outcomes.len() == old(plan).commands().len()
                &&& final(plan)@ == #[trigger] resolve(old(plan)@, outcomes)
                &&& forall|i: int|
                    old(plan)@.tried <= i < final(plan)@.tried ==> agrees(
                        begin,
                        old(plan).commands()[i],
                        #[trigger] outcomes[i],
                    )
            },
        started is Some <==> old(plan)@.pending() && final(plan)@.chosen is Some,
        started matches Some(handle) ==> call_ensures(
            begin,
            (&old(plan).commands()[final(plan)@.tried - 1],),
            Ok::<H, String>(handle),
        ),
{
    let ghost first = plan@;
    let ghost mut seen: Seq<Option<Seq<char>>> = Seq::new(
        plan.commands().len(),
        |i: int| None::<Seq<char>>,
    );
    proof {
        plan.lemma_commands();
        use_type_invariant(&*plan);
    }
    loop
        invariant
            plan.commands() == old(plan).commands(),
            plan@.candidates == first.candidates,
            plan@.action == first.action,
            first == old(plan)@,
            first.candidates.len() == plan.commands().len(),
            seen.len() == plan.commands().len(),
            first.tried <= plan@.tried <= plan.commands().len(),
            plan@.chosen == first.chosen,
            forall|i: int|
                first.tried <= i < plan@.tried ==> agrees(
                    begin,
                    plan.commands()[i],
                    #[trigger] seen[i],
                ),
            forall|outcomes: Seq<Option<Seq<char>>>|
                outcomes.len() == seen.len() && (forall|i: int|
                    first.tried <= i < plan@.tried ==> #[trigger] outcomes[i] == seen[i])
                    ==> #[trigger] resolve(first, outcomes) == resolve(plan@, outcomes),
            forall|command: &String| call_requires(begin, (command,)),
        decreases plan.commands().len() - plan@.tried,
    {
        let ghost before = plan@;
        let ghost at = plan@.tried as int;
        let attempted = match plan.current() {
            Some(command) => begin(command),
            None => {
                proof {
                    lemma_resolve_settled(plan@, seen);
                    assert(resolve(first, seen) == resolve(plan@, seen));
                }
                return None;
            },
        };
        match attempted {
            Ok(handle) => {
                plan.record_started();
                proof {
                    let ghost earlier = seen;
                    seen = seen.update(at, None);
                    assert(agrees(begin, plan.commands()[at], seen[at]));
                    assert forall|i: int| first.tried <= i < before.tried implies #[trigger] seen[i]
                        == earlier[i] by {}
                    assert(resolve(first, seen) == resolve(before, seen));
                    assert(resolve(before, seen) == resolve(plan@, seen));
                    lemma_resolve_settled(plan@, seen);
                    assert forall|i: int| first.tried <= i < plan@.tried implies agrees(
                        begin,
                        plan.commands()[i],
                        #[trigger] seen[i],
                    ) by {
                        if i < at {
                            assert(seen[i] == earlier[i]);
                        }
                    }
                    assert(plan@ == resolve(first, seen));
                }
                return Some(handle);
            },
            Err(cause) => {
                plan.record_failure(cause.as_str());
                proof {
                    let ghost earlier = seen;
                    seen = seen.update(at, Some(cause@));
                    assert(agrees(begin, plan.commands()[at], seen[at]));
                    assert forall|outcomes: Seq<Option<Seq<char>>>|
                        outcomes.len() == seen.len() && (forall|i: int|
                            first.tried <= i < plan@.tried ==> #[trigger] outcomes[i] == seen[i])
                        implies #[trigger] resolve(first, outcomes) == resolve(plan@, outcomes) by {
                        assert forall|i: int| first.tried <= i < before.tried implies #[trigger] outcomes[i]
                            == earlier[i] by {
                            assert(outcomes[i] == seen[i]);
                        }
                        assert(outcomes[at] == seen[at]);
                        assert(resolve(before, outcomes) == resolve(plan@, outcomes));
                    }
                }
            },
        }
    }
}

} // verus!
