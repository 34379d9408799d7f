//! Users: how one is looked up and how a page of them is asked for.

use crate::dtos::{page_offset, FilterUserDto, RequestQueryDto, UserListResponseDto};
use crate::error::{ErrorMessage, HttpError, BAD_REQUEST};
use crate::ids::{hyphenated, parse_uuid, parsed_uuid};
use crate::models::User;
use crate::validation::paging_violations;
use vstd::prelude::*;
use vstd::string::StringExecFns;

verus! {

/// By what a user is looked up.
#[derive(Debug, PartialEq, Eq)]
pub enum UserKey {
    Id(u128),
    FirstName(String),
    Email(String),
}

/// By what a user is looked up, given what the caller knows: by identity
/// if that is known, else by first name, else by e-mail address; not at
/// all where nothing is known.
pub fn user_key(user_id: Option<u128>, first_name: Option<&str>, email: Option<&str>) -> (key:
    Option<UserKey>)
    ensures
        match key {
            Some(UserKey::Id(id)) => user_id == Some(id),
            Some(UserKey::FirstName(name)) => {
                &&& user_id is None
                &&& first_name matches Some(n)
                &&& name@ == n@
            },
            Some(UserKey::Email(address)) => {
                &&& user_id is None
                &&& first_name is None
                &&& email matches Some(a)
                &&& address@ == a@
            },
            None => user_id is None && first_name is None && email is None,
        },
{
    if let Some(id) = user_id {
        return Some(UserKey::Id(id));
    }
    if let Some(name) = first_name {
        return Some(UserKey::FirstName(String::from_str(name)));
    }
    if let Some(address) = email {
        return Some(UserKey::Email(String::from_str(address)));
    }
    None
}

/// Reads the identity of the user that a request asks for.
pub fn get_user(user_id: &str) -> (r: Result<u128, HttpError>)
    ensures
        match r {
            Ok(id) => parsed_uuid(user_id@) == Some(id),
            Err(e) => parsed_uuid(user_id@) is None && e.rejects(ErrorMessage::InvalidUserId),
        },
{
    match parse_uuid(user_id) {
        Some(id) => Ok(id),
        None => Err(HttpError::rejection(ErrorMessage::InvalidUserId)),
    }
}

/// The user has both instants that the store assigns.
pub open spec fn stamped(user: User) -> bool {
    user.created_at is Some && user.updated_at is Some
}

/// What `shown` shows is the user without the password.
pub open spec fn shows(shown: FilterUserDto, user: User) -> bool {
    &&& shown.id@ == hyphenated(user.id)
    &&& parsed_uuid(shown.id@) == Some(user.id)
    &&& shown.first_name == user.first_name
    &&& shown.last_name == user.last_name
    &&& shown.email == user.email
    &&& shown.role@ == user.role.name()
    &&& shown.address == user.address
    &&& shown.city == user.city
    &&& shown.district == user.district
    &&& shown.contact_number == user.contact_number
    &&& Some(shown.created_at) == user.created_at
    &&& Some(shown.updated_at) == user.updated_at
}

/// The answer to a request for one user, once the store was asked.
pub fn user_found(found: &Option<User>) -> (r: Result<FilterUserDto, HttpError>)
    requires
        *found matches Some(user) ==> stamped(user),
    ensures
        match r {
            Ok(shown) => *found matches Some(user) && shows(shown, user),
            Err(e) => *found is None && e.rejects(ErrorMessage::UserNotFound),
        },
{
    match found {
        Some(user) => Ok(FilterUserDto::filter_user(user)),
        None => Err(HttpError::rejection(ErrorMessage::UserNotFound)),
    }
}

/// A page of a list: the page, the entries on a page and the entries
/// before the page.
#[derive(Clone, Copy, Debug, PartialEq, Eq, Structural)]
pub struct Page {
    pub page: u32,
    pub limit: usize,
    pub offset: u32,
}

/// The page asked for, where the query leaves none open: the first.
pub open spec fn page_asked(params: RequestQueryDto) -> usize {
    match params.page {
        Some(p) => p,
        None => 1,
    }
}

/// The entries on a page, where the query leaves none open: 20.
pub open spec fn limit_asked(params: RequestQueryDto) -> usize {
    match params.limit {
        Some(l) => l,
        None => 20,
    }
}

/// Whether the entries before the page asked for can be counted in 32
/// bits.
pub open spec fn page_in_range(params: RequestQueryDto) -> bool {
    page_asked(params) <= u32::MAX && (page_asked(params) - 1) * limit_asked(params) <= u32::MAX
}

/// Reads the paging of a request for a list of users. A query that breaks
/// a rule of paging is turned down with the first rule that it breaks, and
/// one whose page is out of range with that.
pub fn get_users(params: &RequestQueryDto) -> (r: Result<Page, HttpError>)
    ensures
        match r {
            Ok(page) => {
                &&& paging_violations(params.page, params.limit).len() == 0
                &&& page_in_range(*params)
                &&& page == (Page {
                    page: page_asked(*params) as u32,
                    limit: limit_asked(*params),
                    offset: ((page_asked(*params) - 1) * limit_asked(*params)) as u32,
                })
            },
            Err(e) => if paging_violations(params.page, params.limit).len() > 0 {
                e.carries(paging_violations(params.page, params.limit)[0].text(), BAD_REQUEST)
            } else {
                !page_in_range(*params) && e.carries("Page out of range"@, BAD_REQUEST)
            },
        },
{
    let found = params.validate();
    if found.len() > 0 {
        return Err(HttpError::bad_request(found[0].message()));
    }
    let page: usize = params.page_or_default();
    let limit: usize = params.limit_or_default();
    if page > u32::MAX as usize {
        return Err(HttpError::bad_request("Page out of range"));
    }
    match page_offset(page as u32, limit) {
        Some(offset) => Ok(Page { page: page as u32, limit, offset }),
        None => Err(HttpError::bad_request("Page out of range")),
    }
}

/// The answer that lists a page of users with the number of all users.
pub fn users_listed(users: &Vec<User>, total: i64) -> (answer: UserListResponseDto)
    requires
        forall|k: int| 0 <= k < users@.len() ==> stamped(#[trigger] users@[k]),
    ensures
        answer.status@ == "success"@,
        answer.results == total,
        answer.users@.len() == users@.len(),
        forall|k: int| 0 <= k < users@.len() ==> shows(#[trigger] answer.users@[k], users@[k]),
{
    let mut shown: Vec<FilterUserDto> = Vec::new();
    let mut i: usize = 0;
    while i < users.len()
        invariant
            0 <= i <= users.len(),
            shown@.len() == i,
            forall|k: int| 0 <= k < users@.len() ==> stamped(#[trigger] users@[k]),
            forall|k: int| 0 <= k < i ==> shows(#[trigger] shown@[k], users@[k]),
        decreases users.len() - i,
    {
        shown.push(FilterUserDto::filter_user(&users[i]));
        i = i + 1;
    }
    UserListResponseDto { status: String::from_str("success"), users: shown, results: total }
}

} // verus!
