//! Commands that the dashboard sends to its data worker.

use vstd::prelude::*;
use vstd::string::*;
use crate::calendar::{push_signed, signed_digits};
use crate::models::{ClientDto, PaginatedResult, ProjectDto, UserDto};

verus! {

/// A request from the dashboard to the worker that talks to the backend.
#[derive(Debug, Clone, Copy, PartialEq, Eq, Structural)]
pub enum ApiCommand {
    /// Reload projects, clients and users.
    RefreshAll,
    /// Reload projects only.
    RefreshProjects,
    /// Reload clients only.
    RefreshClients,
    /// Reload users only.
    RefreshUsers,
    /// Probe whether the backend answers.
    CheckConnection,
    /// Stop the worker.
    Shutdown,
}

/// What the worker reports back to the dashboard.
#[derive(Debug, Clone)]
pub enum ApiMessage {
    /// The projects have been loaded.
    ProjectsLoaded(Vec<ProjectDto>),
    /// The clients have been loaded.
    ClientsLoaded(Vec<ClientDto>),
    /// The users have been loaded.
    UsersLoaded(Vec<UserDto>),
    /// A request has failed; the text says how.
    Error(String),
    /// Whether the backend answers.
    ConnectionStatus(bool),
}

/// The page that a listing starts with.
pub const FIRST_PAGE: i32 = 1;

/// The number of records asked for with each page.
pub const PAGE_SIZE: i32 = 100;

/// A listing of the backend.
#[derive(Debug, Clone, Copy, PartialEq, Eq, Structural)]
pub enum Endpoint {
    Projects,
    Clients,
    Users,
}

impl Endpoint {
    /// The path of the listing below the base address.
    pub open spec fn path_spec(self) -> Seq<char> {
        match self {
            Endpoint::Projects => "/projects"@,
            Endpoint::Clients => "/clients"@,
            Endpoint::Users => "/users"@,
        }
    }

    /// The path of the listing below the base address.
    pub fn path(&self) -> (r: &'static str)
        ensures
            r@ == self.path_spec(),
    {
        match self {
            Endpoint::Projects => "/projects",
            Endpoint::Clients => "/clients",
            Endpoint::Users => "/users",
        }
    }
}

/// The address of one page of a listing.
pub open spec fn page_url_text(base: Seq<char>, endpoint: Endpoint, page: int, page_size: int) -> Seq<
    char,
> {
    base + endpoint.path_spec() + "?page="@ + signed_digits(page) + "&pageSize="@ + signed_digits(
        page_size,
    )
}

/// The address of one page of a listing: the base address, the path of the
/// listing, and the page and the page size as query.
pub fn page_url(base: &str, endpoint: Endpoint, page: i32, page_size: i32) -> (r: String)
    ensures
        r@ == page_url_text(base@, endpoint, page as int, page_size as int),
{
    let mut url = String::from_str(base);
    url.append(endpoint.path());
    url.append("?page=");
    push_signed(&mut url, page);
    url.append("&pageSize=");
    push_signed(&mut url, page_size);
    assert(url@ =~= page_url_text(base@, endpoint, page as int, page_size as int));
    url
}

/// The records of a listing gathered so far, and the page to ask for next.
#[derive(Debug)]
pub struct PageWalk<T> {
    pub items: Vec<T>,
    pub page: i32,
}

impl<T> PageWalk<T> {
    /// The page to ask for after `page` has arrived: the following one where
    /// the backend has more, none where it has not or the page number has
    /// reached its limit.
    pub open spec fn next_page(page: i32, has_next: bool) -> Option<i32> {
        if has_next && page < i32::MAX {
            Some((page + 1) as i32)
        } else {
            None
        }
    }

    /// A walk that has gathered nothing and asks for the first page.
    pub fn new() -> (r: PageWalk<T>)
        ensures
            r.items@.len() == 0,
            r.page == FIRST_PAGE,
    {
        PageWalk { items: Vec::new(), page: FIRST_PAGE }
    }

    /// Takes in the page that was asked for. Its records are added behind
    /// those gathered before; the result is the page to ask for next, or
    /// `None` when the listing is complete.
    pub fn absorb(&mut self, result: PaginatedResult<T>) -> (next: Option<i32>)
        ensures
            final(self).items@ == old(self).items@ + result.items_spec(),
            next == Self::next_page(old(self).page, result.has_next),
            final(self).page == match next {
                Some(p) => p,
                None => old(self).page,
            },
    {
        let has_next = result.has_next;
        match result.items {
            Some(mut v) => {
                self.items.append(&mut v);
            },
            None => {
                assert(self.items@ =~= old(self).items@ + Seq::<T>::empty());
            },
        }
        if has_next && self.page < i32::MAX {
            self.page = self.page + 1;
            Some(self.page)
        } else {
            None
        }
    }
}

} // verus!
