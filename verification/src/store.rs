use vstd::prelude::*;
use crate::models::{User, UserView};

verus! {

/// Whether some record in `s` already uses this email.
pub open spec fn has_email(s: Seq<UserView>, email: Seq<char>) -> bool {
    exists|i: int| 0 <= i < s.len() && #[trigger] s[i].email == email
}

/// Whether some record in `s` already uses this username.
pub open spec fn has_username(s: Seq<UserView>, username: Seq<char>) -> bool {
    exists|i: int| 0 <= i < s.len() && #[trigger] s[i].username == username
}

/// Whether some record in `s` carries this id.
pub open spec fn has_user_id(s: Seq<UserView>, id: int) -> bool {
    exists|i: int| 0 <= i < s.len() && #[trigger] s[i].id == id
}

/// The user store: records with unique ids, usernames and emails, and
/// a counter handing out fresh ids from 1 upward.
pub struct UserStore {
    users: Vec<User>,
    next_id: i32,
}

impl View for UserStore {
    type V = Seq<UserView>;

    closed spec fn view(&self) -> Seq<UserView> {
        self.users@.map_values(|u: User| u@)
    }
}

impl UserStore {
    pub closed spec fn spec_next_id(self) -> int {
        self.next_id as int
    }

    /// The store's invariant: every id was handed out by the counter,
    /// and ids, usernames and emails are pairwise distinct.
    pub closed spec fn wf(self) -> bool {
        &&& 1 <= self.next_id as int
        &&& forall|i: int| 0 <= i < self@.len() ==> 1 <= (#[trigger] self@[i]).id
            < self.next_id as int
        &&& forall|i: int, j: int|
            0 <= i < j < self@.len() ==> (#[trigger] self@[i]).id != (#[trigger] self@[j]).id
                && self@[i].username != self@[j].username && self@[i].email != self@[j].email
    }

    /// An empty store; the first registered user gets id 1.
    pub fn new() -> (r: UserStore)
        ensures
            r.wf(),
            r@ =~= Seq::<UserView>::empty(),
            r.spec_next_id() == 1,
    {
        let r = UserStore { users: Vec::new(), next_id: 1 };
        proof {
            assert(r@ =~= Seq::<UserView>::empty());
        }
        r
    }

    /// Looks a user up by email; emails are unique, so at most one
    /// record can match.
    pub fn find_by_email(&self, email: &str) -> (r: Option<User>)
        ensures
            match r {
                Some(u) => self@.contains(u@) && u@.email == email@,
                None => !has_email(self@, email@),
            },
    {
        let n = self.users.len();
        let mut i: usize = 0;
        while i < n
            invariant
                0 <= i <= n,
                n == self.users.len(),
                forall|j: int| 0 <= j < i ==> (#[trigger] self@[j]).email != email@,
            decreases n - i,
        {
            if str_eq(self.users[i].email.as_str(), email) {
                let u = clone_user(&self.users[i]);
                proof {
                    assert(self@[i as int] == u@);
                }
                return Some(u);
            }
            i = i + 1;
        }
        None
    }

    /// Whether a record with this username or this email exists.
    pub fn exists_username_or_email(&self, username: &str, email: &str) -> (r: bool)
        ensures
            r == (has_username(self@, username@) || has_email(self@, email@)),
    {
        let n = self.users.len();
        let mut i: usize = 0;
        while i < n
            invariant
                0 <= i <= n,
                n == self.users.len(),
                forall|j: int| 0 <= j < i ==> (#[trigger] self@[j]).email != email@
                    && self@[j].username != username@,
            decreases n - i,
        {
            if str_eq(self.users[i].email.as_str(), email) {
                proof {
                    assert(self@[i as int].email == email@);
                }
                return true;
            }
            if str_eq(self.users[i].username.as_str(), username) {
                proof {
                    assert(self@[i as int].username == username@);
                }
                return true;
            }
            i = i + 1;
        }
        false
    }

    /// Looks a user up by id.
    pub fn find_by_id(&self, id: i32) -> (r: Option<User>)
        ensures
            match r {
                Some(u) => self@.contains(u@) && u@.id == id as int,
                None => !has_user_id(self@, id as int),
            },
    {
        let n = self.users.len();
        let mut i: usize = 0;
        while i < n
            invariant
                0 <= i <= n,
                n == self.users.len(),
                forall|j: int| 0 <= j < i ==> (#[trigger] self@[j]).id != id as int,
            decreases n - i,
        {
            if self.users[i].id == id {
                let u = clone_user(&self.users[i]);
                proof {
                    assert(self@[i as int] == u@);
                }
                return Some(u);
            }
            i = i + 1;
        }
        None
    }

    /// Appends a new user under a fresh id.  The caller must have
    /// ruled out username and email conflicts; `None` reports that the
    /// id counter is exhausted, and leaves the store unchanged.
    pub fn insert_user(
        &mut self,
        username: String,
        email: String,
        password_hash: String,
        role: String,
        created_at: i64,
    ) -> (r: Option<i32>)
        requires
            old(self).wf(),
            !has_username(old(self)@, username@),
            !has_email(old(self)@, email@),
        ensures
            final(self).wf(),
            match r {
                Some(id) => id as int == old(self).spec_next_id() && final(self).spec_next_id()
                    == old(self).spec_next_id() + 1 && final(self)@ =~= old(self)@.push(
                    UserView {
                        id: id as int,
                        username: username@,
                        email: email@,
                        password_hash: password_hash@,
                        role: role@,
                        created_at: created_at as int,
                    },
                ),
                None => old(self).spec_next_id() == i32::MAX && final(self)@ == old(self)@
                    && final(self).spec_next_id() == old(self).spec_next_id(),
            },
    {
        if self.next_id == i32::MAX {
            return None;
        }
        let id = self.next_id;
        let u = User { id, username, email, password_hash, role, created_at };
        proof {
            assert forall|j: int| 0 <= j < self@.len() implies (#[trigger] self@[j]).username
                != u@.username && self@[j].email != u@.email by {
                assert(!(self@[j].username == u@.username));
                assert(!(self@[j].email == u@.email));
            }
        }
        self.users.push(u);
        self.next_id = id + 1;
        proof {
            assert(self@ =~= old(self)@.push(
                UserView {
                    id: id as int,
                    username: u@.username,
                    email: u@.email,
                    password_hash: u@.password_hash,
                    role: u@.role,
                    created_at: created_at as int,
                },
            ));
        }
        Some(id)
    }
}

/// Two records that share an email are the same record: emails are
/// unique in a well-formed store.
pub proof fn lemma_email_unique(s: UserStore, a: UserView, b: UserView)
    requires
        s.wf(),
        s@.contains(a),
        s@.contains(b),
        a.email == b.email,
    ensures
        a == b,
{
    let i = choose|i: int| 0 <= i < s@.len() && s@[i] == a;
    let j = choose|j: int| 0 <= j < s@.len() && s@[j] == b;
    if i < j {
        assert(s@[i].email != s@[j].email);
    } else if j < i {
        assert(s@[j].email != s@[i].email);
    }
}

/// Character-wise string equality.
pub fn str_eq(a: &str, b: &str) -> (r: bool)
    ensures
        r == (a@ == b@),
{
    let na = a.unicode_len();
    let nb = b.unicode_len();
    if na != nb {
        return false;
    }
    let mut i: usize = 0;
    while i < na
        invariant
            0 <= i <= na,
            na == a@.len(),
            na == b@.len(),
            forall|j: int| 0 <= j < i ==> a@[j] == b@[j],
        decreases na - i,
    {
        if a.get_char(i) != b.get_char(i) {
            return false;
        }
        i = i + 1;
    }
    proof {
        assert(a@ =~= b@);
    }
    true
}

/// A field-wise copy of a user record.
fn clone_user(u: &User) -> (r: User)
    ensures
        r@ == u@,
{
    User {
        id: u.id,
        username: u.username.clone(),
        email: u.email.clone(),
        password_hash: u.password_hash.clone(),
        role: u.role.clone(),
        created_at: u.created_at,
    }
}

} // verus!
