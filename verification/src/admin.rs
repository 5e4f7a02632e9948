//! Records of the administration console.

use crate::text::{
    contains, is_prefix, lowercase_text, occurs_in, starts_with, str_eq, to_lowercase, trim,
    trimmed_text,
};
use vstd::prelude::*;

verus! {

/// What a user may do.
#[derive(Clone, Copy, Debug, PartialEq, Eq, Structural)]
pub enum UserRole {
    User,
    Admin,
}

impl UserRole {
    pub open spec fn text(self) -> Seq<char> {
        match self {
            UserRole::Admin => "admin"@,
            UserRole::User => "user"@,
        }
    }

    /// The role that `name` names: an administrator's for `admin`, a
    /// user's for anything else.
    pub open spec fn from_text(name: Seq<char>) -> UserRole {
        if name == "admin"@ {
            UserRole::Admin
        } else {
            UserRole::User
        }
    }

    pub fn parse(name: &str) -> (role: UserRole)
        ensures
            role == UserRole::from_text(name@),
    {
        if str_eq(name, "admin") {
            UserRole::Admin
        } else {
            UserRole::User
        }
    }

    pub fn as_str(&self) -> (name: &'static str)
        ensures
            name@ == self.text(),
    {
        match self {
            UserRole::Admin => "admin",
            UserRole::User => "user",
        }
    }

    /// A role is read back from its own name.
    pub proof fn lemma_text_round_trip(role: UserRole)
        ensures
            UserRole::from_text(role.text()) == role,
    {
        reveal_strlit("admin");
        reveal_strlit("user");
        assert("admin"@.len() == 5);
        assert("user"@.len() == 4);
    }
}

impl From<String> for UserRole {
    fn from(name: String) -> (role: UserRole) {
        UserRole::parse(name.as_str())
    }
}

impl vstd::std_specs::convert::FromSpecImpl<String> for UserRole {
    open spec fn obeys_from_spec() -> bool {
        true
    }

    open spec fn from_spec(name: String) -> UserRole {
        UserRole::from_text(name@)
    }
}

impl From<UserRole> for String {
    fn from(role: UserRole) -> (name: String)
        ensures
            name@ == role.text(),
    {
        role.as_str().to_string()
    }
}

impl vstd::std_specs::convert::FromSpecImpl<UserRole> for String {
    /// A string is told by its characters only: what comes of a role is
    /// laid down by the `ensures` of `from`, not by a function of the role.
    open spec fn obeys_from_spec() -> bool {
        false
    }

    open spec fn from_spec(role: UserRole) -> String {
        arbitrary()
    }
}

#[derive(Clone, Debug, PartialEq, Eq)]
pub struct UpdateUserEmailRequest {
    pub user_id: i32,
    pub new_email: String,
    pub reason: Option<String>,
}

#[derive(Clone, Debug, PartialEq, Eq)]
pub struct ExecuteSqlRequest {
    pub sql_query: String,
}

#[derive(Clone, Debug, PartialEq, Eq)]
pub struct DeletePluginRequest {
    pub plugin_id: String,
    pub reason: Option<String>,
}

#[derive(Clone, Debug, PartialEq, Eq)]
pub struct BanUserRequest {
    pub user_id: i32,
    pub reason: Option<String>,
    /// For how many days; forever where none is given.
    pub ban_duration_days: Option<i32>,
}

#[derive(Clone, Debug, PartialEq, Eq)]
pub struct UnbanUserRequest {
    pub user_id: i32,
    pub reason: Option<String>,
}

/// What the console makes of a statement.
#[derive(Clone, Copy, Debug, PartialEq, Eq, Structural)]
pub enum SqlKind {
    /// It would destroy data, or touch users' passwords: it is not run.
    Forbidden,
    /// It reads: its rows are returned.
    Select,
    /// Anything else: it is run, and the count of rows it touched returned.
    Other,
}

/// Whether a statement, in lower case, holds one of the operations that
/// the console never runs.
pub open spec fn is_dangerous(lower: Seq<char>) -> bool {
    occurs_in(lower, "drop table"@) || occurs_in(lower, "drop database"@) || occurs_in(
        lower,
        "truncate"@,
    ) || occurs_in(lower, "delete from users"@) || occurs_in(
        lower,
        "update users set password_hash"@,
    )
}

/// What the console makes of `query`: whatever holds a dangerous
/// operation is forbidden; of the rest, what begins with `select` once
/// white space is set aside reads, and anything else writes. Upper and
/// lower case count alike.
pub open spec fn sql_kind(query: Seq<char>) -> SqlKind {
    let lower = lowercase_text(query);
    if is_dangerous(lower) {
        SqlKind::Forbidden
    } else if is_prefix(trimmed_text(lower), "select"@) {
        SqlKind::Select
    } else {
        SqlKind::Other
    }
}

/// Says what the console makes of `query`.
pub fn classify_sql(query: &str) -> (kind: SqlKind)
    ensures
        kind == sql_kind(query@),
{
    let lower = to_lowercase(query);
    let text = lower.as_str();
    if contains(text, "drop table") || contains(text, "drop database") || contains(text, "truncate")
        || contains(text, "delete from users") || contains(
        text,
        "update users set password_hash",
    ) {
        SqlKind::Forbidden
    } else if starts_with(trim(text), "select") {
        SqlKind::Select
    } else {
        SqlKind::Other
    }
}

/// Which page of a listing is asked for, and how long a page is.
#[derive(Clone, Copy, Debug, PartialEq, Eq, Structural)]
pub struct AdminPaginationQuery {
    pub page: Option<i32>,
    pub limit: Option<i32>,
}

impl AdminPaginationQuery {
    /// The page asked for: the first where none is named, and never one
    /// before the first.
    pub open spec fn page_number(&self) -> int {
        match self.page {
            Some(p) => if p < 1 {
                1
            } else {
                p as int
            },
            None => 1,
        }
    }

    /// The length of a page: ten where none is named, and never under one
    /// nor over a hundred.
    pub open spec fn page_length(&self) -> int {
        match self.limit {
            Some(l) => if l < 1 {
                1
            } else if l > 100 {
                100
            } else {
                l as int
            },
            None => 10,
        }
    }

    /// How many entries lie before the page asked for.
    pub open spec fn offset(&self) -> int {
        (self.page_number() - 1) * self.page_length()
    }

    pub fn resolved_page(&self) -> (page: i32)
        ensures
            page == self.page_number(),
    {
        match self.page {
            Some(p) => if p < 1 {
                1
            } else {
                p
            },
            None => 1,
        }
    }

    pub fn resolved_limit(&self) -> (limit: i32)
        ensures
            limit == self.page_length(),
    {
        match self.limit {
            Some(l) => if l < 1 {
                1
            } else if l > 100 {
                100
            } else {
                l
            },
            None => 10,
        }
    }

    pub fn resolved_offset(&self) -> (offset: i64)
        ensures
            offset == self.offset(),
    {
        let page: i64 = self.resolved_page() as i64;
        let limit: i64 = self.resolved_limit() as i64;
        assert(0 <= (page - 1) * limit <= 0x7fff_ffff * 100) by (nonlinear_arith)
            requires
                1 <= page <= 0x7fff_ffff,
                1 <= limit <= 100,
        ;
        (page - 1) * limit
    }
}

} // verus!
