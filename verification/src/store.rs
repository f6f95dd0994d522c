//! The shared state of the service: the account registry, the session
//! issuer's account→tokens relation, and the identifier generator. The
//! registry's invariant: no two accounts share a username up to ASCII case.

use vstd::prelude::*;
use crate::account::{TwoFactorState, User};
use crate::idgen::snowflake_generator;
use crate::session::{SessionEntry, sessions_wf};
use crate::text::{eq_ignore_case, str_eq, str_eq_ignore_case};

verus! {

/// No two accounts share a username up to ASCII case.
pub open spec fn users_wf(users: Seq<User>) -> bool {
    forall|i: int, j: int|
        0 <= i < j < users.len() ==> !eq_ignore_case(users[i].username@, users[j].username@)
}

/// Whether some account's username equals `name` up to ASCII case.
pub open spec fn has_user_named(users: Seq<User>, name: Seq<char>) -> bool {
    exists|i: int| 0 <= i < users.len() && eq_ignore_case(users[i].username@, name)
}

/// `i` is the first account whose username equals `name` up to ASCII case.
pub open spec fn is_first_named(users: Seq<User>, name: Seq<char>, i: int) -> bool {
    &&& 0 <= i < users.len()
    &&& eq_ignore_case(users[i].username@, name)
    &&& forall|j: int| 0 <= j < i ==> !eq_ignore_case(users[j].username@, name)
}

/// Whether some account has identifier `id`.
pub open spec fn has_user_with_id(users: Seq<User>, id: Seq<char>) -> bool {
    exists|i: int| 0 <= i < users.len() && users[i].id@ == id
}

/// `i` is the first account with identifier `id`.
pub open spec fn is_first_with_id(users: Seq<User>, id: Seq<char>, i: int) -> bool {
    &&& 0 <= i < users.len()
    &&& users[i].id@ == id
    &&& forall|j: int| 0 <= j < i ==> users[j].id@ != id
}

/// The same account with its second-factor latch set.
pub open spec fn with_enabled(u: User) -> User {
    User { two_factor_state: TwoFactorState { enabled: true, ..u.two_factor_state }, ..u }
}

/// All state of the service.
pub struct AuthState {
    pub users: Vec<User>,
    pub sessions: Vec<SessionEntry>,
    pub id_generator: snowflake::SnowflakeIdGenerator,
}

impl AuthState {
    /// Well-formedness: the registry's uniqueness invariant, and at most one
    /// session entry per account.
    pub open spec fn wf(self) -> bool {
        users_wf(self.users@) && sessions_wf(self.sessions@)
    }

    /// A fresh state: no accounts, no sessions, identifiers from machine 1,
    /// node 1.
    pub fn new() -> (s: AuthState)
        ensures
            s.wf(),
            s.users@.len() == 0,
            s.sessions@.len() == 0,
    {
        AuthState {
            users: Vec::new(),
            sessions: Vec::new(),
            id_generator: snowflake_generator(1, 1),
        }
    }

    /// Case-insensitive username lookup: the first (and, in a well-formed
    /// registry, only) account whose username matches.
    pub fn find_by_username(&self, username: &str) -> (r: Option<usize>)
        ensures
            match r {
                Some(i) => is_first_named(self.users@, username@, i as int),
                None => !has_user_named(self.users@, username@),
            },
    {
        let n = self.users.len();
        let mut i: usize = 0;
        while i < n
            invariant
                0 <= i <= n,
                n == self.users@.len(),
                forall|j: int| 0 <= j < i ==> !eq_ignore_case(self.users@[j].username@, username@),
            decreases n - i,
        {
            if str_eq_ignore_case(self.users[i].username.as_str(), username) {
                return Some(i);
            }
            i = i + 1;
        }
        None
    }

    /// Exact identifier lookup: the first account with that identifier.
    pub fn find_by_id(&self, id: &str) -> (r: Option<usize>)
        ensures
            match r {
                Some(i) => is_first_with_id(self.users@, id@, i as int),
                None => !has_user_with_id(self.users@, id@),
            },
    {
        let n = self.users.len();
        let mut i: usize = 0;
        while i < n
            invariant
                0 <= i <= n,
                n == self.users@.len(),
                forall|j: int| 0 <= j < i ==> self.users@[j].id@ != id@,
            decreases n - i,
        {
            if str_eq(self.users[i].id.as_str(), id) {
                return Some(i);
            }
            i = i + 1;
        }
        None
    }
}

/// Only one index can be the first to carry an identifier.
pub proof fn lemma_first_with_id_unique(users: Seq<User>, id: Seq<char>, i: int, j: int)
    requires
        is_first_with_id(users, id, i),
        is_first_with_id(users, id, j),
    ensures
        i == j,
{
    if i < j {
        assert(users[i].id@ != id);
    } else if j < i {
        assert(users[j].id@ != id);
    }
}

/// Only one index can be the first to carry a username, up to ASCII case.
pub proof fn lemma_first_named_unique(users: Seq<User>, name: Seq<char>, i: int, j: int)
    requires
        is_first_named(users, name, i),
        is_first_named(users, name, j),
    ensures
        i == j,
{
    if i < j {
        assert(!eq_ignore_case(users[i].username@, name));
    } else if j < i {
        assert(!eq_ignore_case(users[j].username@, name));
    }
}

/// Once an account named `a` stands in the registry, any name `b` that
/// differs from `a` only by ASCII case is taken; `register` therefore
/// refuses it with `DuplicateUsername` (its contract ties that error to
/// `has_user_named`).
pub proof fn lemma_case_variant_name_is_taken(users: Seq<User>, i: int, a: Seq<char>, b: Seq<char>)
    requires
        0 <= i < users.len(),
        users[i].username@ == a,
        eq_ignore_case(a, b),
    ensures
        has_user_named(users, b),
{
    assert(eq_ignore_case(users[i].username@, b));
}

} // verus!
