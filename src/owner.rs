use vstd::prelude::*;
use vstd::string::*;

use crate::error::ParseError;
use crate::numeral::{parse_u32_radix, unsigned_numeral};

verus! {

/// Relies on `users::get_user_by_uid`: the id of the user the system's
/// database holds under that id, if any. Nothing is known of the answer.
#[verifier::external_body]
fn user_by_id(uid: u32) -> Option<u32> {
    users::get_user_by_uid(uid).map(|u| u.uid())
}

/// Relies on `users::get_user_by_name`: the id of the user the system's
/// database holds under that name, if any. Nothing is known of the answer.
/// A decimal id is looked up by id instead, never by name.
#[verifier::external_body]
fn user_by_name(name: &str) -> Option<u32>
    requires
        unsigned_numeral(name@, 10) is None,
{
    users::get_user_by_name(name).map(|u| u.uid())
}

/// Relies on `users::get_group_by_gid`: the id of the group the system's
/// database holds under that id, if any. Nothing is known of the answer.
#[verifier::external_body]
fn group_by_id(gid: u32) -> Option<u32> {
    users::get_group_by_gid(gid).map(|g| g.gid())
}

/// Relies on `users::get_group_by_name`: the id of the group the system's
/// database holds under that name, if any. Nothing is known of the answer.
/// A decimal id is looked up by id instead, never by name.
#[verifier::external_body]
fn group_by_name(name: &str) -> Option<u32>
    requires
        unsigned_numeral(name@, 10) is None,
{
    users::get_group_by_name(name).map(|g| g.gid())
}

/// `i` is the position of the first `:` in `s`.
pub open spec fn first_colon(s: Seq<char>, i: int) -> bool {
    0 <= i < s.len() && s[i] == ':' && forall|j: int| 0 <= j < i ==> s[j] != ':'
}

/// The user and group names an owner token holds. The token is split at its
/// first `:`; `name`, `name:` name a user alone, `:group` a group alone,
/// `name:group` both.
pub open spec fn owner_tokens(s: Seq<char>) -> (Option<Seq<char>>, Option<Seq<char>>) {
    if exists|i: int| first_colon(s, i) {
        let i = choose|i: int| first_colon(s, i);
        let user = s.subrange(0, i);
        let group = s.subrange(i + 1, s.len() as int);
        if group.len() == 0 {
            (Some(user), None)
        } else if user.len() == 0 {
            (None, Some(group))
        } else {
            (Some(user), Some(group))
        }
    } else {
        (Some(s), None)
    }
}

pub open spec fn text_view(t: Option<&str>) -> Option<Seq<char>> {
    match t {
        Some(x) => Some(x@),
        None => None,
    }
}

/// Splits an owner token into its user and group names.
pub fn split_owner(s: &str) -> (r: (Option<&str>, Option<&str>))
    ensures
        (text_view(r.0), text_view(r.1)) == owner_tokens(s@),
{
    let n = s.unicode_len();
    let mut i: usize = 0;
    while i < n
        invariant
            n == s@.len(),
            i <= n,
            forall|j: int| 0 <= j < i ==> s@[j] != ':',
        decreases n - i,
    {
        if s.get_char(i) == ':' {
            assert(first_colon(s@, i as int));
            assert forall|k: int| first_colon(s@, k) implies k == i by {
                if k < i {
                } else if k > i {
                    assert(s@[i as int] != ':');
                }
            }
            let user = s.substring_char(0, i);
            let group = s.substring_char(i + 1, n);
            if group.unicode_len() == 0 {
                return (Some(user), None);
            } else if user.unicode_len() == 0 {
                return (None, Some(group));
            } else {
                return (Some(user), Some(group));
            }
        }
        i = i + 1;
    }
    assert(!exists|k: int| first_colon(s@, k));
    (Some(s), None)
}

/// How a user or group token is looked up.
#[derive(Clone, Copy, Debug, PartialEq, Eq, Structural)]
pub enum LookupKey {
    /// The token is a decimal number: look this id up.
    Id(u32),
    /// Any other token: look it up as a name.
    Name,
}

/// The key a token is looked up by: its value where it is a decimal `u32`
/// (an optional `+` then digits), else the token as a name.
pub open spec fn key_of(token: Seq<char>) -> LookupKey {
    match unsigned_numeral(token, 10) {
        Some(id) => LookupKey::Id(id),
        None => LookupKey::Name,
    }
}

/// Picks the key a user or group token is looked up by.
pub fn lookup_key(token: &str) -> (r: LookupKey)
    ensures
        r == key_of(token@),
{
    match parse_u32_radix(token, 10) {
        Some(id) => LookupKey::Id(id),
        None => LookupKey::Name,
    }
}

/// Looks a user up by the key of its token: by id where the token is a
/// decimal number, else by name.
pub fn resolve_user(token: &str) -> Option<u32> {
    match lookup_key(token) {
        LookupKey::Id(id) => user_by_id(id),
        LookupKey::Name => user_by_name(token),
    }
}

/// Looks a group up by the key of its token: by id where the token is a
/// decimal number, else by name.
pub fn resolve_group(token: &str) -> Option<u32> {
    match lookup_key(token) {
        LookupKey::Id(id) => group_by_id(id),
        LookupKey::Name => group_by_name(token),
    }
}

/// A test on the owning user and group ids of an entry.
#[derive(Clone, Copy, Debug, PartialEq, Eq, Structural)]
pub enum OwnerFilter {
    User(u32),
    Group(u32),
    UserGroup(u32, u32),
}

impl OwnerFilter {
    pub open spec fn accepts(self, uid: u32, gid: u32) -> bool {
        match self {
            OwnerFilter::User(u) => u == uid,
            OwnerFilter::Group(g) => g == gid,
            OwnerFilter::UserGroup(u, g) => u == uid && g == gid,
        }
    }

    pub fn matches(&self, uid: u32, gid: u32) -> (r: bool)
        ensures
            r == self.accepts(uid, gid),
    {
        match self {
            OwnerFilter::User(u) => *u == uid,
            OwnerFilter::Group(g) => *g == gid,
            OwnerFilter::UserGroup(u, g) => *u == uid && *g == gid,
        }
    }

    /// The filter made from the outcomes of the lookups: `None` where the
    /// token names no user (or no group), `Some(None)` where the lookup found
    /// nothing, `Some(Some(id))` where it found that id. A failed user lookup
    /// is reported before a failed group lookup.
    pub open spec fn resolved(user: Option<Option<u32>>, group: Option<Option<u32>>) -> Result<
        OwnerFilter,
        ParseError,
    > {
        match (user, group) {
            (Some(None), _) => Err(ParseError::InvalidUser),
            (_, Some(None)) => Err(ParseError::InvalidGroup),
            (Some(Some(u)), Some(Some(g))) => Ok(OwnerFilter::UserGroup(u, g)),
            (Some(Some(u)), None) => Ok(OwnerFilter::User(u)),
            (None, Some(Some(g))) => Ok(OwnerFilter::Group(g)),
            (None, None) => Err(ParseError::InvalidUser),
        }
    }

    /// Builds the filter from the outcomes of the user and group lookups.
    pub fn from_lookups(user: Option<Option<u32>>, group: Option<Option<u32>>) -> (r: Result<
        OwnerFilter,
        ParseError,
    >)
        ensures
            r == OwnerFilter::resolved(user, group),
    {
        match (user, group) {
            (Some(None), _) => Err(ParseError::InvalidUser),
            (_, Some(None)) => Err(ParseError::InvalidGroup),
            (Some(Some(u)), Some(Some(g))) => Ok(OwnerFilter::UserGroup(u, g)),
            (Some(Some(u)), None) => Ok(OwnerFilter::User(u)),
            (None, Some(Some(g))) => Ok(OwnerFilter::Group(g)),
            (None, None) => Err(ParseError::InvalidUser),
        }
    }

    /// Reads an owner token (`alice`, `alice:`, `:staff`, `alice:staff`, or
    /// numeric ids), resolving each name against the system's database. The
    /// result is the filter built from the names the token holds and whatever
    /// the lookups answered; the group is not looked up once the user lookup
    /// failed.
    pub fn parse(s: &str) -> (r: Result<OwnerFilter, ParseError>)
        ensures
            exists|user: Option<Option<u32>>, group: Option<Option<u32>>|
                {
                    &&& user is Some == owner_tokens(s@).0 is Some
                    &&& group is Some == owner_tokens(s@).1 is Some
                    &&& r == OwnerFilter::resolved(user, group)
                },
            match owner_tokens(s@) {
                (Some(_), None) => r matches Ok(OwnerFilter::User(_)) || r == Err::<
                    OwnerFilter,
                    ParseError,
                >(ParseError::InvalidUser),
                (None, Some(_)) => r matches Ok(OwnerFilter::Group(_)) || r == Err::<
                    OwnerFilter,
                    ParseError,
                >(ParseError::InvalidGroup),
                _ => r matches Ok(OwnerFilter::UserGroup(_, _)) || r == Err::<
                    OwnerFilter,
                    ParseError,
                >(ParseError::InvalidUser) || r == Err::<OwnerFilter, ParseError>(
                    ParseError::InvalidGroup,
                ),
            },
    {
        let (user, group) = split_owner(s);
        let uid = match user {
            Some(u) => Some(resolve_user(u)),
            None => None,
        };
        let gid = match (uid, group) {
            (Some(None), Some(_)) => Some(None),
            (_, Some(g)) => Some(resolve_group(g)),
            (_, None) => None,
        };
        let r = OwnerFilter::from_lookups(uid, gid);
        r
    }
}

impl std::str::FromStr for OwnerFilter {
    type Err = ParseError;

    fn from_str(s: &str) -> (r: Result<OwnerFilter, ParseError>)
        ensures
            exists|user: Option<Option<u32>>, group: Option<Option<u32>>|
                {
                    &&& user is Some == owner_tokens(s@).0 is Some
                    &&& group is Some == owner_tokens(s@).1 is Some
                    &&& r == OwnerFilter::resolved(user, group)
                },
            match owner_tokens(s@) {
                (Some(_), None) => r matches Ok(OwnerFilter::User(_)) || r == Err::<
                    OwnerFilter,
                    ParseError,
                >(ParseError::InvalidUser),
                (None, Some(_)) => r matches Ok(OwnerFilter::Group(_)) || r == Err::<
                    OwnerFilter,
                    ParseError,
                >(ParseError::InvalidGroup),
                _ => r matches Ok(OwnerFilter::UserGroup(_, _)) || r == Err::<
                    OwnerFilter,
                    ParseError,
                >(ParseError::InvalidUser) || r == Err::<OwnerFilter, ParseError>(
                    ParseError::InvalidGroup,
                ),
            },
    {
        OwnerFilter::parse(s)
    }
}

} // verus!
