//! Records of the backend, reduced to the plain values the dashboard reads.

use vstd::prelude::*;
use vstd::std_specs::convert::FromSpecImpl;
use vstd::string::*;
use crate::interval::Interval;

verus! {

/// Role of a user account.
#[derive(Debug, Clone, Copy, PartialEq, Eq, Structural)]
pub enum Role {
    /// An ordinary account; wire code 0.
    User,
    /// An administrator; wire code 1.
    Admin,
}

impl Role {
    /// The role that a wire code stands for: 1 is `Admin`, anything else `User`.
    pub open spec fn of_code(code: i32) -> Role {
        if code == 1 {
            Role::Admin
        } else {
            Role::User
        }
    }

    /// The wire code of a role.
    pub open spec fn code(self) -> i32 {
        match self {
            Role::User => 0i32,
            Role::Admin => 1i32,
        }
    }

    /// The display name of a role.
    pub open spec fn name_spec(self) -> Seq<char> {
        match self {
            Role::User => "User"@,
            Role::Admin => "Admin"@,
        }
    }

    /// The display name of a role.
    pub fn name(&self) -> (r: &'static str)
        ensures
            r@ == self.name_spec(),
    {
        match self {
            Role::User => "User",
            Role::Admin => "Admin",
        }
    }
}

impl From<i32> for Role {
    fn from(value: i32) -> (r: Role) {
        if value == 1 {
            Role::Admin
        } else {
            Role::User
        }
    }
}

impl FromSpecImpl<i32> for Role {
    open spec fn obeys_from_spec() -> bool {
        true
    }

    open spec fn from_spec(value: i32) -> Role {
        Role::of_code(value)
    }
}

impl From<Role> for i32 {
    fn from(role: Role) -> (r: i32) {
        match role {
            Role::User => 0i32,
            Role::Admin => 1i32,
        }
    }
}

impl FromSpecImpl<Role> for i32 {
    open spec fn obeys_from_spec() -> bool {
        true
    }

    open spec fn from_spec(role: Role) -> i32 {
        role.code()
    }
}

/// Encoding a role and decoding the code gives the role back.
pub proof fn lemma_role_code_round_trip(role: Role)
    ensures
        Role::of_code(role.code()) == role,
{
}

/// The text of an optional name, or `fallback` where there is none.
pub open spec fn name_or(name: Option<String>, fallback: Seq<char>) -> Seq<char> {
    match name {
        Some(s) => s@,
        None => fallback,
    }
}

/// A client. Identifiers are the 128 bits of the backend's UUIDs.
#[derive(Debug, Clone)]
pub struct ClientDto {
    pub id: u128,
    pub name: Option<String>,
    pub address: Option<String>,
    pub projects_total: i32,
    pub projects_completed: i32,
}

impl ClientDto {
    /// The name to show: the client's name, or a fixed text where it has
    /// none.
    pub fn display_name(&self) -> (r: &str)
        ensures
            r@ == name_or(self.name, "Unnamed Client"@),
    {
        match &self.name {
            Some(s) => s.as_str(),
            None => "Unnamed Client",
        }
    }
}

/// A project. Dates are day numbers.
#[derive(Debug, Clone)]
pub struct ProjectDto {
    pub id: u128,
    pub client_id: u128,
    pub name: Option<String>,
    pub start_date: i32,
    pub planned_end_date: i32,
    pub actual_end_date: Option<i32>,
    pub manager_id: u128,
}

impl ProjectDto {
    /// Whether the project is late on the day `today`: it is not completed
    /// and its planned end has passed.
    pub open spec fn overdue_at(self, today: int) -> bool {
        self.actual_end_date is None && today > self.planned_end_date
    }

    /// The name to show: the project's name, or a fixed text where it has
    /// none.
    pub fn display_name(&self) -> (r: &str)
        ensures
            r@ == name_or(self.name, "Unnamed Project"@),
    {
        match &self.name {
            Some(s) => s.as_str(),
            None => "Unnamed Project",
        }
    }

    /// The planned length in days: the days from the start to the planned
    /// end.
    pub fn duration_days(&self) -> (r: i64)
        ensures
            r == self.planned_end_date - self.start_date,
    {
        self.planned_end_date as i64 - self.start_date as i64
    }

    /// Whether an actual end date is recorded.
    pub fn is_completed(&self) -> (r: bool)
        ensures
            r == (self.actual_end_date is Some),
    {
        self.actual_end_date.is_some()
    }

    /// Whether the project is late on the day `today`.
    pub fn is_overdue(&self, today: i32) -> (r: bool)
        ensures
            r == self.overdue_at(today as int),
    {
        if self.is_completed() {
            return false;
        }
        today > self.planned_end_date
    }

    /// The interval that the timeline shows for the project.
    pub fn to_interval(&self) -> (r: Interval)
        ensures
            r.id == self.id,
            r.start == self.start_date,
            r.end == self.planned_end_date,
            r.actual_end == self.actual_end_date,
            r.label@ == name_or(self.name, "Unnamed Project"@),
    {
        Interval {
            id: self.id,
            start: self.start_date,
            end: self.planned_end_date,
            actual_end: self.actual_end_date,
            label: String::from_str(self.display_name()),
        }
    }
}

/// The intervals that the timeline shows for a list of projects, in the
/// order of the list.
pub fn intervals_of(projects: &Vec<ProjectDto>) -> (r: Vec<Interval>)
    ensures
        r@.len() == projects@.len(),
        forall|i: int|
            0 <= i < r@.len() ==> {
                &&& (#[trigger] r@[i]).id == projects@[i].id
                &&& r@[i].start == projects@[i].start_date
                &&& r@[i].end == projects@[i].planned_end_date
                &&& r@[i].actual_end == projects@[i].actual_end_date
                &&& r@[i].label@ == name_or(projects@[i].name, "Unnamed Project"@)
            },
{
    let mut out: Vec<Interval> = Vec::new();
    let mut i: usize = 0;
    while i < projects.len()
        invariant
            i <= projects@.len(),
            out@.len() == i,
            forall|k: int|
                0 <= k < i ==> {
                    &&& (#[trigger] out@[k]).id == projects@[k].id
                    &&& out@[k].start == projects@[k].start_date
                    &&& out@[k].end == projects@[k].planned_end_date
                    &&& out@[k].actual_end == projects@[k].actual_end_date
                    &&& out@[k].label@ == name_or(projects@[k].name, "Unnamed Project"@)
                },
        decreases projects@.len() - i,
    {
        out.push(projects[i].to_interval());
        i = i + 1;
    }
    out
}

/// A user account.
#[derive(Debug, Clone)]
pub struct UserDto {
    pub id: u128,
    pub name: Option<String>,
    pub login: Option<String>,
    pub role: Role,
}

impl UserDto {
    /// The name to show: the user's name, or a fixed text where it has none.
    pub fn display_name(&self) -> (r: &str)
        ensures
            r@ == name_or(self.name, "Unnamed User"@),
    {
        match &self.name {
            Some(s) => s.as_str(),
            None => "Unnamed User",
        }
    }
}

/// One page of a listing, as the backend reports it.
#[derive(Debug, Clone)]
pub struct PaginatedResult<T> {
    pub items: Option<Vec<T>>,
    pub page: i32,
    pub page_size: i32,
    pub total_count: i32,
    pub total_pages: i32,
    pub has_previous: bool,
    pub has_next: bool,
}

impl<T> PaginatedResult<T> {
    /// The records of the page; none where the backend sent no list.
    pub open spec fn items_spec(self) -> Seq<T> {
        match self.items {
            Some(v) => v@,
            None => Seq::empty(),
        }
    }

    /// The records of the page as a slice, empty where the list is absent.
    pub fn items(&self) -> (r: &[T])
        ensures
            r@ == self.items_spec(),
    {
        match &self.items {
            Some(v) => v.as_slice(),
            None => &[],
        }
    }
}

/// Error body that the backend sends with a failed request.
#[derive(Debug, Clone)]
pub struct ProblemDetails {
    pub problem_type: Option<String>,
    pub title: Option<String>,
    pub status: Option<i32>,
    pub detail: Option<String>,
    pub instance: Option<String>,
}

} // verus!
