//! Statuses: the activity label a timer run is carried out under.

use vstd::prelude::*;
use crate::catalog::{distinct, lemma_table_push, lemma_table_remove, lemma_table_update, lookup, table};
use crate::search::{first_index, lemma_first_index, lemma_first_index_is};
use crate::views::opt_view;
use crate::views::opt_text;

verus! {

/// A user-facing activity label. The engine carries it and never reads it.
#[derive(Debug, PartialEq, Eq, Hash)]
pub struct Status {
    pub name: String,
    pub description: Option<String>,
    pub color: Option<String>,
    pub icon: Option<String>,
}

/// What a [`Status`] holds, as mathematical values.
pub ghost struct StatusView {
    pub name: Seq<char>,
    pub description: Option<Seq<char>>,
    pub color: Option<Seq<char>>,
    pub icon: Option<Seq<char>>,
}

impl View for Status {
    type V = StatusView;

    open spec fn view(&self) -> StatusView {
        StatusView {
            name: self.name@,
            description: opt_text(self.description),
            color: opt_text(self.color),
            icon: opt_text(self.icon),
        }
    }
}

impl Clone for Status {
    fn clone(&self) -> (r: Self)
        ensures
            r == *self,
    {
        Status {
            name: self.name.clone(),
            description: self.description.clone(),
            color: self.color.clone(),
            icon: self.icon.clone(),
        }
    }
}

/// The status that is used when none is named: "work".
pub open spec fn work_status() -> StatusView {
    StatusView {
        name: "work"@,
        description: Some("Working on tasks"@),
        color: Some("#ff5555"@),
        icon: Some("\u{1f528}"@),
    }
}

impl Default for Status {
    fn default() -> (r: Self)
        ensures
            r@ == work_status(),
    {
        Status::new("work").with_description("Working on tasks").with_color("#ff5555").with_icon(
            "\u{1f528}",
        )
    }
}

impl Status {
    /// A status with a name and nothing else set.
    pub fn new(name: &str) -> (r: Self)
        ensures
            r@ == (StatusView { name: name@, description: None, color: None, icon: None }),
    {
        Status { name: name.to_owned(), description: None, color: None, icon: None }
    }

    pub fn with_description(self, description: &str) -> (r: Self)
        ensures
            r@ == (StatusView { description: Some(description@), ..self@ }),
    {
        let mut s = self;
        s.description = Some(description.to_owned());
        s
    }

    pub fn with_color(self, color: &str) -> (r: Self)
        ensures
            r@ == (StatusView { color: Some(color@), ..self@ }),
    {
        let mut s = self;
        s.color = Some(color.to_owned());
        s
    }

    pub fn with_icon(self, icon: &str) -> (r: Self)
        ensures
            r@ == (StatusView { icon: Some(icon@), ..self@ }),
    {
        let mut s = self;
        s.icon = Some(icon.to_owned());
        s
    }
}

/// The refusal to add a status under a name that is taken.
pub const STATUS_EXISTS: &'static str = "Status with this name already exists";

/// The refusal to remove or replace a status that is not there.
pub const STATUS_MISSING: &'static str = "Status with this name does not exist";

/// The names of a list of statuses, in order.
pub open spec fn status_names(statuses: Seq<StatusView>) -> Seq<Seq<char>> {
    statuses.map_values(|s: StatusView| s.name)
}

/// The views of a list of statuses, in order.
pub open spec fn status_views(statuses: Seq<Status>) -> Seq<StatusView> {
    statuses.map_values(|s: Status| s@)
}

/// The statuses that a new catalog holds.
pub open spec fn default_statuses() -> Seq<StatusView> {
    seq![
        work_status(),
        StatusView {
            name: "study"@,
            description: Some("Studying or learning"@),
            color: Some("#f1fa8c"@),
            icon: Some("\u{1f4da}"@),
        },
        StatusView {
            name: "chilling"@,
            description: Some("Taking a break"@),
            color: Some("#8be9fd"@),
            icon: Some("\u{2615}"@),
        },
    ]
}

/// A copy of a list of statuses.
pub fn clone_statuses(statuses: &Vec<Status>) -> (r: Vec<Status>)
    ensures
        r@ == statuses@,
{
    let mut out: Vec<Status> = Vec::new();
    let mut i: usize = 0;
    while i < statuses.len()
        invariant
            i <= statuses.len(),
            out@ == statuses@.take(i as int),
        decreases statuses.len() - i,
    {
        out.push(statuses[i].clone());
        i += 1;
        assert(out@ =~= statuses@.take(i as int));
    }
    assert(statuses@.take(i as int) =~= statuses@);
    out
}

/// The catalog of statuses: each under its name, no name twice, in the
/// order they were added.
#[derive(Debug)]
pub struct StatusManager {
    statuses: Vec<Status>,
}

impl View for StatusManager {
    type V = Map<Seq<char>, StatusView>;

    /// The status under each name.
    open spec fn view(&self) -> Map<Seq<char>, StatusView> {
        table(status_names(self.listed()), self.listed())
    }
}

impl StatusManager {
    /// The statuses in the catalog, in the order they were added.
    pub closed spec fn listed(&self) -> Seq<StatusView> {
        status_views(self.statuses@)
    }

    #[verifier::type_invariant]
    spec fn names_distinct(self) -> bool {
        distinct(status_names(self.listed()))
    }

    /// A catalog with the three statuses "work", "study" and "chilling".
    pub fn new() -> (r: Self)
        ensures
            r.listed() == default_statuses(),
    {
        let mut statuses: Vec<Status> = Vec::new();
        statuses.push(Status::default());
        statuses.push(
            Status::new("study").with_description("Studying or learning").with_color(
                "#f1fa8c",
            ).with_icon("\u{1f4da}"),
        );
        statuses.push(
            Status::new("chilling").with_description("Taking a break").with_color(
                "#8be9fd",
            ).with_icon("\u{2615}"),
        );
        proof {
            reveal_strlit("work");
            reveal_strlit("study");
            reveal_strlit("chilling");
            let names = status_names(status_views(statuses@));
            assert(names[0] == "work"@);
            assert(names[1] == "study"@);
            assert(names[2] == "chilling"@);
            assert(names[0].len() == 4 && names[1].len() == 5 && names[2].len() == 8);
            assert(status_views(statuses@) =~= default_statuses());
        }
        StatusManager { statuses }
    }

    /// Moves the list out and leaves an empty one in its place.
    fn take(&mut self) -> (list: Vec<Status>)
        ensures
            list == old(self).statuses,
            final(self).statuses@.len() == 0,
    {
        let mut list: Vec<Status> = Vec::new();
        core::mem::swap(&mut self.statuses, &mut list);
        list
    }

    /// The place of the status called `name`, if there is one.
    fn find(&self, name: &String) -> (r: Option<usize>)
        ensures
            match r {
                Some(i) => i < self.statuses.len() && first_index(
                    status_names(self.listed()),
                    name@,
                ) == Some(i as int),
                None => first_index(status_names(self.listed()), name@) is None,
            },
    {
        let ghost names = status_names(self.listed());
        let mut i: usize = 0;
        while i < self.statuses.len()
            invariant
                i <= self.statuses.len(),
                names == status_names(self.listed()),
                names.len() == self.statuses.len(),
                forall|j: int| 0 <= j < i ==> #[trigger] names[j] != name@,
            decreases self.statuses.len() - i,
        {
            assert(names[i as int] == self.statuses@[i as int]@.name);
            if self.statuses[i].name == *name {
                proof {
                    lemma_first_index_is(names, name@, i as int);
                }
                return Some(i);
            }
            i += 1;
        }
        proof {
            lemma_first_index(names, name@);
        }
        None
    }

    /// Adds a status under its name, unless the name is taken.
    pub fn add_status(&mut self, status: Status) -> (r: Result<(), &'static str>)
        ensures
            old(self)@.dom().contains(status@.name) ==> r == Err::<(), &'static str>(STATUS_EXISTS)
                && final(self).listed() == old(self).listed(),
            !old(self)@.dom().contains(status@.name) ==> r is Ok && final(self).listed() == old(self).listed().push(status@) && final(self)@ == old(self)@.insert(status@.name, status@),
    {
        proof {
            use_type_invariant(&*self);
        }
        if self.find(&status.name).is_some() {
            return Err(STATUS_EXISTS);
        }
        let ghost before = self.listed();
        let mut list = self.take();
        list.push(status);
        proof {
            lemma_table_push(status_names(before), before, status@.name, status@);
            assert(status_views(list@) =~= before.push(status@));
            assert(status_names(before.push(status@)) =~= status_names(before).push(status@.name));
        }
        self.statuses = list;
        Ok(())
    }

    /// A copy of the status called `name`, if there is one.
    pub fn get_status(&self, name: &str) -> (r: Option<Status>)
        ensures
            opt_view(r) == lookup(self@, name@),
    {
        let key = name.to_owned();
        match self.find(&key) {
            Some(i) => Some(self.statuses[i].clone()),
            None => None,
        }
    }

    /// Takes the status called `name` out of the catalog, if there is one.
    pub fn remove_status(&mut self, name: &str) -> (r: Result<(), &'static str>)
        ensures
            !old(self)@.dom().contains(name@) ==> r == Err::<(), &'static str>(STATUS_MISSING)
                && final(self).listed() == old(self).listed(),
            old(self)@.dom().contains(name@) ==> r is Ok && final(self)@ == old(self)@.remove(name@)
                && final(self).listed() == old(self).listed().remove(
                first_index(status_names(old(self).listed()), name@)->0,
            ),
    {
        proof {
            use_type_invariant(&*self);
        }
        let key = name.to_owned();
        match self.find(&key) {
            Some(i) => {
                let ghost before = self.listed();
                let mut list = self.take();
                list.remove(i);
                proof {
                    lemma_table_remove(status_names(before), before, i as int);
                    assert(status_views(list@) =~= before.remove(i as int));
                    assert(status_names(before.remove(i as int)) =~= status_names(before).remove(
                        i as int,
                    ));
                }
                self.statuses = list;
                Ok(())
            },
            None => Err(STATUS_MISSING),
        }
    }

    /// Copies of all statuses, in the order they were added.
    pub fn list_statuses(&self) -> (r: Vec<Status>)
        ensures
            status_views(r@) == self.listed(),
            distinct(status_names(self.listed())),
    {
        proof {
            use_type_invariant(self);
        }
        clone_statuses(&self.statuses)
    }

    /// Puts `status` in the place of the status of the same name, if there
    /// is one.
    pub fn update_status(&mut self, status: Status) -> (r: Result<(), &'static str>)
        ensures
            !old(self)@.dom().contains(status@.name) ==> r == Err::<(), &'static str>(
                STATUS_MISSING,
            ) && final(self).listed() == old(self).listed(),
            old(self)@.dom().contains(status@.name) ==> r is Ok && final(self)@ == old(self)@.insert(status@.name, status@) && final(self).listed() == old(self).listed().update(
                first_index(status_names(old(self).listed()), status@.name)->0,
                status@,
            ),
    {
        proof {
            use_type_invariant(&*self);
        }
        match self.find(&status.name) {
            Some(i) => {
                let ghost before = self.listed();
                let mut list = self.take();
                list.set(i, status);
                proof {
                    lemma_table_update(status_names(before), before, i as int, status@);
                    assert(status_views(list@) =~= before.update(i as int, status@));
                    assert(status_names(before.update(i as int, status@)) =~= status_names(before));
                }
                self.statuses = list;
                Ok(())
            },
            None => Err(STATUS_MISSING),
        }
    }
}

} // verus!
