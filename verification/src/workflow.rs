//! Phases and workflows: an ordered list of named, timed phases and whether
//! the list repeats.

use vstd::prelude::*;
use crate::catalog::{distinct, lemma_table_push, lemma_table_remove, lemma_table_update, lookup, table};
use crate::search::{first_index, lemma_first_index, lemma_first_index_is};
use crate::views::{opt_text, opt_view};
use crate::text::{chars_of, parse_u32, split, split_at_char, string_of, texts, to_u32, trim, trimmed};

verus! {

/// One named, timed segment of a workflow. `duration` is in minutes.
#[derive(Debug, PartialEq, Eq)]
pub struct Phase {
    pub name: String,
    pub duration: u32,
    pub description: Option<String>,
    pub color: Option<String>,
    pub icon: Option<String>,
}

/// What a [`Phase`] holds, as mathematical values.
pub ghost struct PhaseView {
    pub name: Seq<char>,
    pub duration: u32,
    pub description: Option<Seq<char>>,
    pub color: Option<Seq<char>>,
    pub icon: Option<Seq<char>>,
}

impl PhaseView {
    /// The length of the phase in seconds.
    pub open spec fn seconds(self) -> nat {
        (self.duration * 60) as nat
    }
}

impl View for Phase {
    type V = PhaseView;

    open spec fn view(&self) -> PhaseView {
        PhaseView {
            name: self.name@,
            duration: self.duration,
            description: opt_text(self.description),
            color: opt_text(self.color),
            icon: opt_text(self.icon),
        }
    }
}

impl Clone for Phase {
    fn clone(&self) -> (r: Self)
        ensures
            r == *self,
    {
        Phase {
            name: self.name.clone(),
            duration: self.duration,
            description: self.description.clone(),
            color: self.color.clone(),
            icon: self.icon.clone(),
        }
    }
}

impl Phase {
    /// A phase with a name and a length in minutes, and nothing else set.
    pub fn new(name: &str, duration: u32) -> (r: Self)
        ensures
            r@ == (PhaseView {
                name: name@,
                duration,
                description: None,
                color: None,
                icon: None,
            }),
    {
        Phase { name: name.to_owned(), duration, description: None, color: None, icon: None }
    }

    pub fn with_description(self, description: &str) -> (r: Self)
        ensures
            r@ == (PhaseView { description: Some(description@), ..self@ }),
    {
        let mut p = self;
        p.description = Some(description.to_owned());
        p
    }

    pub fn with_color(self, color: &str) -> (r: Self)
        ensures
            r@ == (PhaseView { color: Some(color@), ..self@ }),
    {
        let mut p = self;
        p.color = Some(color.to_owned());
        p
    }

    pub fn with_icon(self, icon: &str) -> (r: Self)
        ensures
            r@ == (PhaseView { icon: Some(icon@), ..self@ }),
    {
        let mut p = self;
        p.icon = Some(icon.to_owned());
        p
    }

    /// The length of the phase in seconds.
    pub fn seconds(&self) -> (s: u64)
        ensures
            s == self@.seconds(),
    {
        self.duration as u64 * 60
    }
}

/// The views of a list of phases, in order.
pub open spec fn phase_views(phases: Seq<Phase>) -> Seq<PhaseView> {
    phases.map_values(|p: Phase| p@)
}

/// An ordered list of phases plus a repeat flag.
#[derive(Debug, PartialEq, Eq)]
pub struct Workflow {
    pub name: String,
    pub phases: Vec<Phase>,
    pub description: Option<String>,
    pub repeatable: bool,
}

/// What a [`Workflow`] holds, as mathematical values.
pub ghost struct WorkflowView {
    pub name: Seq<char>,
    pub phases: Seq<PhaseView>,
    pub description: Option<Seq<char>>,
    pub repeatable: bool,
}

impl View for Workflow {
    type V = WorkflowView;

    open spec fn view(&self) -> WorkflowView {
        WorkflowView {
            name: self.name@,
            phases: phase_views(self.phases@),
            description: opt_text(self.description),
            repeatable: self.repeatable,
        }
    }
}

/// A copy of a list of phases.
pub fn clone_phases(phases: &Vec<Phase>) -> (r: Vec<Phase>)
    ensures
        r@ == phases@,
{
    let mut out: Vec<Phase> = Vec::new();
    let mut i: usize = 0;
    while i < phases.len()
        invariant
            i <= phases.len(),
            out@ == phases@.take(i as int),
        decreases phases.len() - i,
    {
        out.push(phases[i].clone());
        i += 1;
        assert(out@ =~= phases@.take(i as int));
    }
    assert(phases@.take(i as int) =~= phases@);
    out
}

impl Clone for Workflow {
    fn clone(&self) -> (r: Self)
        ensures
            r@ == self@,
            r.phases@ == self.phases@,
    {
        Workflow {
            name: self.name.clone(),
            phases: clone_phases(&self.phases),
            description: self.description.clone(),
            repeatable: self.repeatable,
        }
    }
}

/// The two phases of the standard Pomodoro cycle.
pub open spec fn pomodoro_phases() -> Seq<PhaseView> {
    seq![
        PhaseView {
            name: "Work"@,
            duration: 25,
            description: Some("Focus on work"@),
            color: Some("#ff5555"@),
            icon: Some("\u{1f528}"@),
        },
        PhaseView {
            name: "Break"@,
            duration: 5,
            description: Some("Take a short break"@),
            color: Some("#50fa7b"@),
            icon: Some("\u{2615}"@),
        },
    ]
}

impl Default for Workflow {
    /// The standard Pomodoro cycle: 25 minutes of work, 5 of break, repeated.
    fn default() -> (r: Self)
        ensures
            r@ == (WorkflowView {
                name: "Default Pomodoro"@,
                phases: pomodoro_phases(),
                description: Some("Standard Pomodoro technique workflow"@),
                repeatable: true,
            }),
    {
        let mut phases: Vec<Phase> = Vec::new();
        phases.push(
            Phase::new("Work", 25).with_description("Focus on work").with_color(
                "#ff5555",
            ).with_icon("\u{1f528}"),
        );
        phases.push(
            Phase::new("Break", 5).with_description("Take a short break").with_color(
                "#50fa7b",
            ).with_icon("\u{2615}"),
        );
        let r = Workflow {
            name: "Default Pomodoro".to_owned(),
            phases,
            description: Some("Standard Pomodoro technique workflow".to_owned()),
            repeatable: true,
        };
        assert(r@.phases =~= pomodoro_phases());
        r
    }
}

impl Workflow {
    /// A repeating workflow with a name and no phases yet.
    pub fn new(name: &str) -> (r: Self)
        ensures
            r@ == (WorkflowView {
                name: name@,
                phases: Seq::empty(),
                description: None,
                repeatable: true,
            }),
    {
        let r = Workflow {
            name: name.to_owned(),
            phases: Vec::new(),
            description: None,
            repeatable: true,
        };
        assert(r@.phases =~= Seq::empty());
        r
    }

    pub fn with_phases(self, phases: Vec<Phase>) -> (r: Self)
        ensures
            r@ == (WorkflowView { phases: phase_views(phases@), ..self@ }),
            r.phases@ == phases@,
    {
        let mut w = self;
        w.phases = phases;
        w
    }

    pub fn with_description(self, description: &str) -> (r: Self)
        ensures
            r@ == (WorkflowView { description: Some(description@), ..self@ }),
            r.phases@ == self.phases@,
    {
        let mut w = self;
        w.description = Some(description.to_owned());
        w
    }

    pub fn with_repeatable(self, repeatable: bool) -> (r: Self)
        ensures
            r@ == (WorkflowView { repeatable, ..self@ }),
            r.phases@ == self.phases@,
    {
        let mut w = self;
        w.repeatable = repeatable;
        w
    }

    /// Appends a phase to the end of the list.
    pub fn add_phase(&mut self, phase: Phase)
        ensures
            final(self)@ == (WorkflowView {
                phases: old(self)@.phases.push(phase@),
                ..old(self)@
            }),
    {
        self.phases.push(phase);
        assert(self@.phases =~= old(self)@.phases.push(phase@));
    }
}

// ---------------------------------------------------------------------------
// Phases written as text: `name:minutes`, separated by commas.
// ---------------------------------------------------------------------------

/// The refusal of a phase that is not a name, a colon and a duration.
pub const INVALID_PHASE_FORMAT: &'static str = "Invalid phase format, use 'name:duration'";

/// The refusal of a duration that is not a number of minutes.
pub const INVALID_DURATION: &'static str = "Invalid duration, must be a positive integer";

/// The refusal of a workflow without phases.
pub const NO_PHASES: &'static str = "No phases provided";

/// The phase that `part` writes: a name and a number of minutes with a colon
/// between them, white space round each left out. The minutes are decimal
/// digits, with or without a plus sign, and fit in 32 bits.
pub open spec fn parse_phase(part: Seq<char>) -> Result<PhaseView, Seq<char>> {
    let fields = split(trim(part), ':');
    if fields.len() != 2 {
        Err(INVALID_PHASE_FORMAT@)
    } else {
        match parse_u32(trim(fields[1])) {
            Some(minutes) => Ok(
                PhaseView {
                    name: trim(fields[0]),
                    duration: minutes,
                    description: None,
                    color: None,
                    icon: None,
                },
            ),
            None => Err(INVALID_DURATION@),
        }
    }
}

/// The phases that `parts` write, or the refusal of the first part that
/// writes none.
pub open spec fn parse_parts(parts: Seq<Seq<char>>) -> Result<Seq<PhaseView>, Seq<char>>
    decreases parts.len(),
{
    if parts.len() == 0 {
        Ok(Seq::empty())
    } else {
        match parse_parts(parts.drop_last()) {
            Ok(phases) => match parse_phase(parts.last()) {
                Ok(phase) => Ok(phases.push(phase)),
                Err(e) => Err(e),
            },
            Err(e) => Err(e),
        }
    }
}

/// The phases that `s` writes, separated by commas.
pub open spec fn parse_phases(s: Seq<char>) -> Result<Seq<PhaseView>, Seq<char>> {
    parse_parts(split(s, ','))
}

/// The view of a parsed phase or its refusal.
pub open spec fn phase_result_view(r: Result<Phase, &'static str>) -> Result<PhaseView, Seq<char>> {
    match r {
        Ok(p) => Ok(p@),
        Err(e) => Err(e@),
    }
}

/// The view of a parsed list of phases or its refusal.
pub open spec fn phases_result_view(r: Result<Vec<Phase>, &'static str>) -> Result<
    Seq<PhaseView>,
    Seq<char>,
> {
    match r {
        Ok(v) => Ok(phase_views(v@)),
        Err(e) => Err(e@),
    }
}

/// Reads one phase, written as `name:minutes`.
pub fn parse_one_phase(part: &Vec<char>) -> (r: Result<Phase, &'static str>)
    ensures
        phase_result_view(r) == parse_phase(part@),
{
    let fields = split_at_char(&trimmed(part), ':');
    if fields.len() != 2 {
        return Err(INVALID_PHASE_FORMAT);
    }
    assert(texts(fields@)[0] == fields@[0]@);
    assert(texts(fields@)[1] == fields@[1]@);
    let name = trimmed(&fields[0]);
    match to_u32(&trimmed(&fields[1])) {
        Some(duration) => Ok(
            Phase { name: string_of(&name), duration, description: None, color: None, icon: None },
        ),
        None => Err(INVALID_DURATION),
    }
}

impl Workflow {
    /// Reads a list of phases written as `name:minutes,name:minutes,...`.
    /// The first part that does not read as a phase refuses the whole list.
    pub fn parse_phases(phases_str: &str) -> (r: Result<Vec<Phase>, &'static str>)
        ensures
            phases_result_view(r) == parse_phases(phases_str@),
            r matches Ok(v) ==> v.len() >= 1,
    {
        let parts = split_at_char(&chars_of(phases_str), ',');
        let ghost all = texts(parts@);
        let mut phases: Vec<Phase> = Vec::new();
        let mut i: usize = 0;
        proof {
            assert(all.take(0) =~= Seq::empty());
            assert(phase_views(phases@) =~= Seq::empty());
        }
        while i < parts.len()
            invariant
                i <= parts.len(),
                all == texts(parts@),
                all == split(phases_str@, ','),
                phases.len() == i,
                parse_parts(all.take(i as int)) == Ok::<Seq<PhaseView>, Seq<char>>(
                    phase_views(phases@),
                ),
            decreases parts.len() - i,
        {
            proof {
                assert(all.take(i + 1).drop_last() =~= all.take(i as int));
                assert(all.take(i + 1).last() == parts@[i as int]@);
            }
            match parse_one_phase(&parts[i]) {
                Ok(phase) => {
                    proof {
                        assert(phase_views(phases@.push(phase)) =~= phase_views(phases@).push(
                            phase@,
                        ));
                    }
                    phases.push(phase);
                },
                Err(e) => {
                    proof {
                        assert(parse_parts(all.take(i + 1)) == Err::<Seq<PhaseView>, Seq<char>>(
                            e@,
                        ));
                        lemma_parse_parts_refused(all, i + 1);
                    }
                    return Err(e);
                },
            }
            i += 1;
        }
        assert(all.take(i as int) =~= all);
        Ok(phases)
    }
}

/// A refusal among the first parts refuses the whole list.
pub proof fn lemma_parse_parts_refused(parts: Seq<Seq<char>>, k: int)
    requires
        0 <= k <= parts.len(),
        parse_parts(parts.take(k)) is Err,
    ensures
        parse_parts(parts) == parse_parts(parts.take(k)),
    decreases parts.len() - k,
{
    if k == parts.len() {
        assert(parts.take(k) =~= parts);
    } else {
        assert(parts.drop_last().take(k) =~= parts.take(k));
        lemma_parse_parts_refused(parts.drop_last(), k);
    }
}

// ---------------------------------------------------------------------------
// The catalog of workflows.
// ---------------------------------------------------------------------------

/// The refusal to add a workflow under a name that is taken.
pub const WORKFLOW_EXISTS: &'static str = "Workflow with this name already exists";

/// The refusal to remove or replace a workflow that is not there.
pub const WORKFLOW_MISSING: &'static str = "Workflow with this name does not exist";

/// The views of a list of workflows, in order.
pub open spec fn workflow_views(workflows: Seq<Workflow>) -> Seq<WorkflowView> {
    workflows.map_values(|w: Workflow| w@)
}

/// The texts of a list of strings, in order.
pub open spec fn string_views(strings: Seq<String>) -> Seq<Seq<char>> {
    strings.map_values(|s: String| s@)
}

/// Every workflow of the list has a phase.
pub open spec fn all_have_phases(workflows: Seq<WorkflowView>) -> bool {
    forall|i: int| 0 <= i < workflows.len() ==> (#[trigger] workflows[i]).phases.len() > 0
}

/// The longer cycle that a new catalog holds beside the standard one.
pub open spec fn long_session() -> WorkflowView {
    WorkflowView {
        name: "Long Work Session"@,
        phases: seq![
            PhaseView {
                name: "Work"@,
                duration: 50,
                description: Some("Focus on work"@),
                color: Some("#ff5555"@),
                icon: Some("\u{1f528}"@),
            },
            PhaseView {
                name: "Break"@,
                duration: 10,
                description: Some("Take a break"@),
                color: Some("#50fa7b"@),
                icon: Some("\u{2615}"@),
            },
        ],
        description: Some("Longer work sessions with longer breaks"@),
        repeatable: true,
    }
}

/// The standard cycle, as [`Workflow::default`] gives it.
pub open spec fn default_pomodoro() -> WorkflowView {
    WorkflowView {
        name: "Default Pomodoro"@,
        phases: pomodoro_phases(),
        description: Some("Standard Pomodoro technique workflow"@),
        repeatable: true,
    }
}

/// A copy of a list of workflows.
pub fn clone_workflows(workflows: &Vec<Workflow>) -> (r: Vec<Workflow>)
    ensures
        workflow_views(r@) == workflow_views(workflows@),
{
    let mut out: Vec<Workflow> = Vec::new();
    let mut i: usize = 0;
    while i < workflows.len()
        invariant
            i <= workflows.len(),
            workflow_views(out@) == workflow_views(workflows@).take(i as int),
        decreases workflows.len() - i,
    {
        let copy = workflows[i].clone();
        assert(workflow_views(out@.push(copy)) =~= workflow_views(out@).push(copy@));
        assert(workflow_views(workflows@).take(i + 1) =~= workflow_views(workflows@).take(
            i as int,
        ).push(workflows@[i as int]@));
        out.push(copy);
        i += 1;
    }
    assert(workflow_views(workflows@).take(i as int) =~= workflow_views(workflows@));
    out
}

/// A copy of a list of strings.
pub fn clone_strings(strings: &Vec<String>) -> (r: Vec<String>)
    ensures
        r@ == strings@,
{
    let mut out: Vec<String> = Vec::new();
    let mut i: usize = 0;
    while i < strings.len()
        invariant
            i <= strings.len(),
            out@ == strings@.take(i as int),
        decreases strings.len() - i,
    {
        out.push(strings[i].clone());
        i += 1;
        assert(out@ =~= strings@.take(i as int));
    }
    assert(strings@.take(i as int) =~= strings@);
    out
}

/// The catalog of workflows: each under a name, no name twice, in the order
/// they were added. Every workflow in it has at least one phase.
#[derive(Debug)]
pub struct WorkflowManager {
    names: Vec<String>,
    workflows: Vec<Workflow>,
}

impl View for WorkflowManager {
    type V = Map<Seq<char>, WorkflowView>;

    /// The workflow under each name.
    open spec fn view(&self) -> Map<Seq<char>, WorkflowView> {
        table(self.keys(), self.listed())
    }
}

impl WorkflowManager {
    /// The names in the catalog, in the order they were added.
    pub closed spec fn keys(&self) -> Seq<Seq<char>> {
        string_views(self.names@)
    }

    /// The workflows in the catalog, each at the place of its name.
    pub closed spec fn listed(&self) -> Seq<WorkflowView> {
        workflow_views(self.workflows@)
    }

    #[verifier::type_invariant]
    spec fn well_formed(self) -> bool {
        &&& self.keys().len() == self.listed().len()
        &&& distinct(self.keys())
        &&& all_have_phases(self.listed())
    }

    /// A catalog without workflows.
    pub fn empty() -> (r: Self)
        ensures
            r.keys() == Seq::<Seq<char>>::empty(),
            r.listed() == Seq::<WorkflowView>::empty(),
    {
        let r = WorkflowManager { names: Vec::new(), workflows: Vec::new() };
        assert(r.keys() =~= Seq::<Seq<char>>::empty());
        assert(r.listed() =~= Seq::<WorkflowView>::empty());
        r
    }

    /// A catalog with the two stock workflows, "Default Pomodoro" and "Long
    /// Work Session", each under its own name.
    pub fn new() -> (r: Self)
        ensures
            r.keys() == seq!["Default Pomodoro"@, "Long Work Session"@],
            r.listed() == seq![default_pomodoro(), long_session()],
    {
        let mut long_phases: Vec<Phase> = Vec::new();
        long_phases.push(
            Phase::new("Work", 50).with_description("Focus on work").with_color(
                "#ff5555",
            ).with_icon("\u{1f528}"),
        );
        long_phases.push(
            Phase::new("Break", 10).with_description("Take a break").with_color(
                "#50fa7b",
            ).with_icon("\u{2615}"),
        );
        let long = Workflow::new("Long Work Session").with_phases(long_phases).with_description(
            "Longer work sessions with longer breaks",
        ).with_repeatable(true);
        assert(long@.phases =~= long_session().phases);
        let mut names: Vec<String> = Vec::new();
        names.push("Default Pomodoro".to_owned());
        names.push("Long Work Session".to_owned());
        let mut workflows: Vec<Workflow> = Vec::new();
        workflows.push(Workflow::default());
        workflows.push(long);
        proof {
            reveal_strlit("Default Pomodoro");
            reveal_strlit("Long Work Session");
            let keys = string_views(names@);
            assert(keys[0].len() == 16 && keys[1].len() == 17);
            assert(keys =~= seq!["Default Pomodoro"@, "Long Work Session"@]);
            let listed = workflow_views(workflows@);
            assert(listed =~= seq![default_pomodoro(), long_session()]);
            assert(listed[0].phases.len() == 2 && listed[1].phases.len() == 2);
        }
        WorkflowManager { names, workflows }
    }

    /// Moves the two lists out and leaves empty ones in their place.
    fn take(&mut self) -> (lists: (Vec<String>, Vec<Workflow>))
        ensures
            lists.0 == old(self).names,
            lists.1 == old(self).workflows,
    {
        let mut other = WorkflowManager::empty();
        core::mem::swap(self, &mut other);
        (other.names, other.workflows)
    }

    /// The place of `name`, if it is in the catalog.
    fn find(&self, name: &String) -> (r: Option<usize>)
        ensures
            match r {
                Some(i) => i < self.names.len() && first_index(self.keys(), name@) == Some(
                    i as int,
                ),
                None => first_index(self.keys(), name@) is None,
            },
    {
        let ghost keys = self.keys();
        let mut i: usize = 0;
        while i < self.names.len()
            invariant
                i <= self.names.len(),
                keys == self.keys(),
                keys.len() == self.names.len(),
                forall|j: int| 0 <= j < i ==> #[trigger] keys[j] != name@,
            decreases self.names.len() - i,
        {
            assert(keys[i as int] == self.names@[i as int]@);
            if self.names[i] == *name {
                proof {
                    lemma_first_index_is(keys, name@, i as int);
                }
                return Some(i);
            }
            i += 1;
        }
        proof {
            lemma_first_index(keys, name@);
        }
        None
    }

    /// Puts `workflow` under `name`: in the place of the workflow that is
    /// under that name, or at the end where there is none. A workflow without
    /// phases is refused.
    pub fn insert(&mut self, name: String, workflow: Workflow) -> (r: Result<(), &'static str>)
        ensures
            workflow@.phases.len() == 0 ==> r == Err::<(), &'static str>(NO_PHASES) && final(self).keys() == old(self).keys() && final(self).listed() == old(self).listed(),
            workflow@.phases.len() > 0 ==> r == Ok::<(), &'static str>(()) && final(self)@ == old(self)@.insert(name@, workflow@),
            workflow@.phases.len() > 0 ==> (match first_index(old(self).keys(), name@) {
                Some(i) => final(self).keys() == old(self).keys() && final(self).listed() == old(self).listed().update(i, workflow@),
                None => final(self).keys() == old(self).keys().push(name@) && final(self).listed()
                    == old(self).listed().push(workflow@),
            }),
    {
        proof {
            use_type_invariant(&*self);
        }
        if workflow.phases.len() == 0 {
            return Err(NO_PHASES);
        }
        let ghost keys = self.keys();
        let ghost listed = self.listed();
        let found = self.find(&name);
        let (mut names, mut workflows) = self.take();
        match found {
            Some(i) => {
                workflows.set(i, workflow);
                proof {
                    lemma_table_update(keys, listed, i as int, workflow@);
                    lemma_first_index(keys, name@);
                    assert(workflow_views(workflows@) =~= listed.update(i as int, workflow@));
                }
            },
            None => {
                names.push(name);
                workflows.push(workflow);
                proof {
                    lemma_table_push(keys, listed, name@, workflow@);
                    assert(string_views(names@) =~= keys.push(name@));
                    assert(workflow_views(workflows@) =~= listed.push(workflow@));
                }
            },
        }
        *self = WorkflowManager { names, workflows };
        Ok(())
    }

    /// Adds a workflow under its own name, unless the name is taken or the
    /// workflow has no phases.
    pub fn add_workflow(&mut self, workflow: Workflow) -> (r: Result<(), &'static str>)
        ensures
            r == (if old(self)@.dom().contains(workflow@.name) {
                Err::<(), &'static str>(WORKFLOW_EXISTS)
            } else if workflow@.phases.len() == 0 {
                Err(NO_PHASES)
            } else {
                Ok(())
            }),
            r is Err ==> final(self).keys() == old(self).keys() && final(self).listed() == old(self).listed(),
            r is Ok ==> final(self).keys() == old(self).keys().push(workflow@.name) && final(self).listed() == old(self).listed().push(workflow@) && final(self)@ == old(self)@.insert(
                workflow@.name,
                workflow@,
            ),
    {
        if self.find(&workflow.name).is_some() {
            return Err(WORKFLOW_EXISTS);
        }
        let name = workflow.name.clone();
        self.insert(name, workflow)
    }

    /// A copy of the workflow under `name`, if there is one.
    pub fn get_workflow(&self, name: &str) -> (r: Option<Workflow>)
        ensures
            opt_view(r) == lookup(self@, name@),
            r matches Some(w) ==> w@.phases.len() > 0,
    {
        proof {
            use_type_invariant(self);
        }
        let key = name.to_owned();
        match self.find(&key) {
            Some(i) => {
                assert(self.listed()[i as int] == self.workflows@[i as int]@);
                Some(self.workflows[i].clone())
            },
            None => None,
        }
    }

    /// Takes the workflow under `name` out of the catalog, if there is one.
    pub fn remove_workflow(&mut self, name: &str) -> (r: Result<(), &'static str>)
        ensures
            !old(self)@.dom().contains(name@) ==> r == Err::<(), &'static str>(WORKFLOW_MISSING)
                && final(self).keys() == old(self).keys() && final(self).listed() == old(self).listed(),
            old(self)@.dom().contains(name@) ==> r is Ok && final(self)@ == old(self)@.remove(name@)
                && final(self).keys() == old(self).keys().remove(
                first_index(old(self).keys(), name@)->0,
            ) && final(self).listed() == old(self).listed().remove(
                first_index(old(self).keys(), name@)->0,
            ),
    {
        proof {
            use_type_invariant(&*self);
        }
        let key = name.to_owned();
        match self.find(&key) {
            Some(i) => {
                let ghost keys = self.keys();
                let ghost listed = self.listed();
                let (mut names, mut workflows) = self.take();
                names.remove(i);
                workflows.remove(i);
                proof {
                    lemma_table_remove(keys, listed, i as int);
                    assert(string_views(names@) =~= keys.remove(i as int));
                    assert(workflow_views(workflows@) =~= listed.remove(i as int));
                }
                *self = WorkflowManager { names, workflows };
                Ok(())
            },
            None => Err(WORKFLOW_MISSING),
        }
    }

    /// Copies of all workflows, in the order they were added.
    pub fn list_workflows(&self) -> (r: Vec<Workflow>)
        ensures
            workflow_views(r@) == self.listed(),
            all_have_phases(self.listed()),
    {
        proof {
            use_type_invariant(self);
        }
        clone_workflows(&self.workflows)
    }

    /// Copies of all names, in the order they were added: the name at each
    /// place is that of the workflow at the same place of `list_workflows`.
    pub fn list_names(&self) -> (r: Vec<String>)
        ensures
            string_views(r@) == self.keys(),
            self.keys().len() == self.listed().len(),
            distinct(self.keys()),
    {
        proof {
            use_type_invariant(self);
        }
        clone_strings(&self.names)
    }

    /// Puts `workflow` in the place of the workflow under its own name, if
    /// there is one and `workflow` has a phase.
    pub fn update_workflow(&mut self, workflow: Workflow) -> (r: Result<(), &'static str>)
        ensures
            r == (if !old(self)@.dom().contains(workflow@.name) {
                Err::<(), &'static str>(WORKFLOW_MISSING)
            } else if workflow@.phases.len() == 0 {
                Err(NO_PHASES)
            } else {
                Ok(())
            }),
            r is Err ==> final(self).keys() == old(self).keys() && final(self).listed() == old(self).listed(),
            r is Ok ==> final(self).keys() == old(self).keys() && final(self).listed() == old(self).listed().update(first_index(old(self).keys(), workflow@.name)->0, workflow@)
                && final(self)@ == old(self)@.insert(workflow@.name, workflow@),
    {
        if self.find(&workflow.name).is_none() {
            return Err(WORKFLOW_MISSING);
        }
        let name = workflow.name.clone();
        self.insert(name, workflow)
    }
}

} // verus!
