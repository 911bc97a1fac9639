use vstd::prelude::*;

use crate::crypt::pwd;
use crate::crypt::{encrypt_spec, EncryptContent};
use crate::ctx::Ctx;
use crate::model::base::{self, DbBMC};
use crate::model::{Error, ModelManager};

verus! {

/// A stored user row: credentials and the two per-user salts.  `pwd` absent
/// means login is impossible for this user, which is distinct from a wrong
/// password.
#[derive(Debug)]
pub struct UserRecord {
    pub id: u64,
    pub username: String,
    pub pwd: Option<String>,
    pub pwd_salt: String,
    pub token_salt: String,
}

/// The user store: rows in ascending id order, ids assigned by a counter
/// and never reused, usernames unique.
pub struct UserStore {
    pub users: Vec<UserRecord>,
    pub next_id: u64,
}

impl UserStore {
    pub open spec fn wf(&self) -> bool {
        &&& 1 <= self.next_id <= 0x7fff_ffff_ffff_ffff
        &&& forall|i: int, j: int|
            0 <= i < j < self.users@.len() ==> (#[trigger] self.users@[i]).id < (
            #[trigger] self.users@[j]).id
        &&& forall|i: int|
            0 <= i < self.users@.len() ==> 1 <= (#[trigger] self.users@[i]).id < self.next_id
        &&& forall|i: int, j: int|
            0 <= i < j < self.users@.len() ==> (#[trigger] self.users@[i]).username@ != (
            #[trigger] self.users@[j]).username@
    }

    pub open spec fn contains_id(&self, id: u64) -> bool {
        exists|i: int| 0 <= i < self.users@.len() && (#[trigger] self.users@[i]).id == id
    }

    pub open spec fn idx_of_id(&self, id: u64) -> int {
        choose|i: int| 0 <= i < self.users@.len() && (#[trigger] self.users@[i]).id == id
    }

    pub open spec fn rec_of_id(&self, id: u64) -> UserRecord {
        self.users@[self.idx_of_id(id)]
    }

    pub open spec fn contains_username(&self, name: Seq<char>) -> bool {
        exists|i: int| 0 <= i < self.users@.len() && (#[trigger] self.users@[i]).username@ == name
    }

    pub open spec fn idx_of_username(&self, name: Seq<char>) -> int {
        choose|i: int|
            0 <= i < self.users@.len() && (#[trigger] self.users@[i]).username@ == name
    }

    pub open spec fn rec_of_username(&self, name: Seq<char>) -> UserRecord {
        self.users@[self.idx_of_username(name)]
    }

    /// An id occurs in at most one row of a well-formed store.
    pub proof fn lemma_id_idx_unique(&self, id: u64, k: int)
        requires
            self.wf(),
            0 <= k < self.users@.len(),
            self.users@[k].id == id,
        ensures
            self.contains_id(id),
            self.idx_of_id(id) == k,
    {
        let w = self.idx_of_id(id);
        if w < k {
            assert(self.users@[w].id < self.users@[k].id);
        } else if w > k {
            assert(self.users@[k].id < self.users@[w].id);
        }
    }

    /// A username occurs in at most one row of a well-formed store.
    pub proof fn lemma_username_idx_unique(&self, name: Seq<char>, k: int)
        requires
            self.wf(),
            0 <= k < self.users@.len(),
            self.users@[k].username@ == name,
        ensures
            self.contains_username(name),
            self.idx_of_username(name) == k,
    {
        let w = self.idx_of_username(name);
        if w < k {
            assert(self.users@[w].username@ != self.users@[k].username@);
        } else if w > k {
            assert(self.users@[k].username@ != self.users@[w].username@);
        }
    }

    pub fn new() -> (s: UserStore)
        ensures
            s.wf(),
            s.users@.len() == 0,
            s.next_id == 1,
    {
        UserStore { users: Vec::new(), next_id: 1 }
    }

    fn find_by_id(&self, id: u64) -> (r: Option<usize>)
        requires
            self.wf(),
        ensures
            r matches Some(k) ==> k < self.users@.len() && self.users@[k as int].id == id
                && self.contains_id(id) && self.idx_of_id(id) == k,
            r is None ==> !self.contains_id(id),
    {
        let n = self.users.len();
        for k in 0..n
            invariant
                n == self.users@.len(),
                self.wf(),
                forall|j: int| 0 <= j < k ==> (#[trigger] self.users@[j]).id != id,
        {
            if self.users[k].id == id {
                proof {
                    self.lemma_id_idx_unique(id, k as int);
                }
                return Some(k);
            }
        }
        None
    }

    fn find_by_username(&self, username: &str) -> (r: Option<usize>)
        requires
            self.wf(),
        ensures
            r matches Some(k) ==> k < self.users@.len() && self.users@[k as int].username@
                == username@ && self.contains_username(username@) && self.idx_of_username(
                username@,
            ) == k,
            r is None ==> !self.contains_username(username@),
    {
        let n = self.users.len();
        for k in 0..n
            invariant
                n == self.users@.len(),
                self.wf(),
                forall|j: int| 0 <= j < k ==> (#[trigger] self.users@[j]).username@ != username@,
        {
            if crate::crypt::ct_str_eq(self.users[k].username.as_str(), username) {
                proof {
                    self.lemma_username_idx_unique(username@, k as int);
                }
                return Some(k);
            }
        }
        None
    }
}

fn clone_opt_string(o: &Option<String>) -> (r: Option<String>)
    ensures
        r == *o,
{
    match o {
        Some(s) => Some(s.clone()),
        None => None,
    }
}

/// A projection of a stored user row: each implementor names which fields
/// it carries, and `of_record` builds exactly that projection.
pub trait UserBy: Sized {
    spec fn spec_of(rec: UserRecord) -> Self;

    fn of_record(rec: &UserRecord) -> (r: Self)
        ensures
            r == Self::spec_of(*rec),
    ;
}

/// The public face of a user: no credential material.
#[derive(Debug)]
pub struct User {
    pub id: u64,
    pub username: String,
}

/// The fields supplied when creating a user.
pub struct UserForCreate {
    pub username: String,
    pub pwd_clear: String,
}

/// The projection the login flow reads: credentials and both salts.
#[derive(Debug)]
pub struct UserForLogin {
    pub id: u64,
    pub username: String,
    pub pwd: Option<String>,
    pub pwd_salt: String,
    pub token_salt: String,
}

/// The projection token resolution reads: the token salt.
#[derive(Debug)]
pub struct UserForAuth {
    pub id: u64,
    pub username: String,
    pub token_salt: String,
}

impl UserBy for User {
    open spec fn spec_of(rec: UserRecord) -> Self {
        User { id: rec.id, username: rec.username }
    }

    fn of_record(rec: &UserRecord) -> (r: Self) {
        User { id: rec.id, username: rec.username.clone() }
    }
}

impl UserBy for UserForLogin {
    open spec fn spec_of(rec: UserRecord) -> Self {
        UserForLogin {
            id: rec.id,
            username: rec.username,
            pwd: rec.pwd,
            pwd_salt: rec.pwd_salt,
            token_salt: rec.token_salt,
        }
    }

    fn of_record(rec: &UserRecord) -> (r: Self) {
        UserForLogin {
            id: rec.id,
            username: rec.username.clone(),
            pwd: clone_opt_string(&rec.pwd),
            pwd_salt: rec.pwd_salt.clone(),
            token_salt: rec.token_salt.clone(),
        }
    }
}

impl UserBy for UserForAuth {
    open spec fn spec_of(rec: UserRecord) -> Self {
        UserForAuth { id: rec.id, username: rec.username, token_salt: rec.token_salt }
    }

    fn of_record(rec: &UserRecord) -> (r: Self) {
        UserForAuth {
            id: rec.id,
            username: rec.username.clone(),
            token_salt: rec.token_salt.clone(),
        }
    }
}

/// The user model controller.
pub struct UserBMC;

impl DbBMC for UserBMC {
    open spec fn table_spec() -> Seq<char> {
        "user"@
    }

    fn table() -> (r: &'static str) {
        "user"
    }
}

impl UserBMC {
    /// Reads the projection `E` of the user with the given id; an absent id
    /// fails with `EntityNotFound { "user", id }`.  The id must fit the
    /// shared not-found vocabulary, which echoes it as a signed value.
    pub fn get<E: UserBy>(_ctx: &Ctx, mm: &ModelManager, id: u64) -> (r: Result<E, Error>)
        requires
            mm.wf(),
            id <= 0x7fff_ffff_ffff_ffff,
        ensures
            mm.spec_users().contains_id(id) ==> r is Ok && r->Ok_0 == E::spec_of(mm.spec_users().rec_of_id(id)),
            !mm.spec_users().contains_id(id) ==> r is Err && base::not_found_err(r->Err_0, "user"@, id as i64),
    {
        match mm.db.users.find_by_id(id) {
            Some(k) => Ok(E::of_record(&mm.db.users.users[k])),
            None => Err(Error::EntityNotFound { entity: UserBMC::table(), id: id as i64 }),
        }
    }

    /// Looks a user up by exact username; `None` when no row carries it.
    pub fn first_by_username<E: UserBy>(_ctx: &Ctx, mm: &ModelManager, username: &str) -> (r:
        Result<Option<E>, Error>)
        requires
            mm.wf(),
        ensures
            mm.spec_users().contains_username(username@) ==> r is Ok && r->Ok_0 is Some && r->Ok_0->Some_0 == E::spec_of(mm.spec_users().rec_of_username(username@)),
            !mm.spec_users().contains_username(username@) ==> r is Ok && r->Ok_0 is None,
    {
        match mm.db.users.find_by_username(username) {
            Some(k) => Ok(Some(E::of_record(&mm.db.users.users[k]))),
            None => Ok(None),
        }
    }

    /// Creates a user without a password yet: fresh id, the given salts.
    /// A username already stored is refused — the store's uniqueness
    /// guarantee — and nothing changes then.
    pub fn create(
        _ctx: &Ctx,
        mm: &mut ModelManager,
        username: &str,
        pwd_salt: &str,
        token_salt: &str,
    ) -> (r: Result<u64, Error>)
        requires
            old(mm).wf(),
            old(mm).spec_users().next_id < 0x7fff_ffff_ffff_ffff,
            old(mm).spec_users().users@.len() < usize::MAX,
        ensures
            final(mm).wf(),
            final(mm).spec_tasks() == old(mm).spec_tasks(),
            old(mm).spec_users().contains_username(username@) ==> r is Err && r->Err_0 == Error::UsernameAlreadyExists && final(mm).spec_users() == old(mm).spec_users(),
            !old(mm).spec_users().contains_username(username@) ==> r is Ok && r->Ok_0 == old(mm).spec_users().next_id && final(mm).spec_users().next_id == old(mm).spec_users().next_id + 1 && final(mm).spec_users().users@.len() == old(mm).spec_users().users@.len() + 1 && final(mm).spec_users().users@.subrange(
                0,
                old(mm).spec_users().users@.len() as int,
            ) == old(mm).spec_users().users@ && (final(mm).spec_users().users@.last().id == r->Ok_0
                && final(mm).spec_users().users@.last().username@ == username@ && final(mm).spec_users().users@.last().pwd is None && final(mm).spec_users().users@.last().pwd_salt@ == pwd_salt@ && final(mm).spec_users().users@.last().token_salt@ == token_salt@),
    {
        if mm.db.users.find_by_username(username).is_some() {
            return Err(Error::UsernameAlreadyExists);
        }
        let id = mm.db.users.next_id;
        let rec = UserRecord {
            id,
            username: username.to_owned(),
            pwd: None,
            pwd_salt: pwd_salt.to_owned(),
            token_salt: token_salt.to_owned(),
        };
        let ghost pre = mm.db.users.users@;
        mm.db.users.users.push(rec);
        mm.db.users.next_id = id + 1;
        proof {
            assert(mm.db.users.users@.subrange(0, pre.len() as int) =~= pre);
        }
        Ok(id)
    }

    /// Hashes the clear password with the user's stored password salt and
    /// writes it; only the `pwd` field of that one row changes.  An absent
    /// id fails with `EntityNotFound { "user", id }`.
    pub fn update_pwd(_ctx: &Ctx, mm: &mut ModelManager, id: u64, pwd_clear: &str, key: &[u8]) -> (
        r: Result<(), Error>)
        requires
            old(mm).wf(),
            id <= 0x7fff_ffff_ffff_ffff,
        ensures
            final(mm).wf(),
            final(mm).spec_tasks() == old(mm).spec_tasks(),
            final(mm).spec_users().next_id == old(mm).spec_users().next_id,
            final(mm).spec_users().users@.len() == old(mm).spec_users().users@.len(),
            old(mm).spec_users().contains_id(id) ==> r is Ok && (forall|j: int|
                0 <= j < old(mm).spec_users().users@.len() && j != old(mm).spec_users().idx_of_id(
                    id,
                ) ==> final(mm).spec_users().users@[j] == old(mm).spec_users().users@[j]) && (
            final(mm).spec_users().users@[old(mm).spec_users().idx_of_id(id)].id == id && final(mm).spec_users().users@[old(mm).spec_users().idx_of_id(id)].username == old(mm).spec_users().rec_of_id(id).username && final(mm).spec_users().users@[old(mm).spec_users().idx_of_id(id)].pwd_salt == old(mm).spec_users().rec_of_id(id).pwd_salt
                && final(mm).spec_users().users@[old(mm).spec_users().idx_of_id(id)].token_salt
                == old(mm).spec_users().rec_of_id(id).token_salt && (final(mm).spec_users().users@[
            old(mm).spec_users().idx_of_id(id)].pwd matches Some(h) && h@ == encrypt_spec(
                key@,
                pwd_clear@,
                old(mm).spec_users().rec_of_id(id).pwd_salt@,
            ))),
            !old(mm).spec_users().contains_id(id) ==> r is Err && base::not_found_err(r->Err_0, "user"@, id as i64) && final(mm).spec_users().users@ == old(mm).spec_users().users@,
    {
        let found = mm.db.users.find_by_id(id);
        match found {
            Some(k) => {
                let rec = &mm.db.users.users[k];
                let enc = EncryptContent {
                    content: pwd_clear.to_owned(),
                    salt: rec.pwd_salt.clone(),
                };
                let hashed = match pwd::encrypt_pwd(key, &enc) {
                    Ok(h) => h,
                    Err(_) => {
                        return vstd::pervasive::unreached();
                    },
                };
                let updated = UserRecord {
                    id: rec.id,
                    username: rec.username.clone(),
                    pwd: Some(hashed),
                    pwd_salt: rec.pwd_salt.clone(),
                    token_salt: rec.token_salt.clone(),
                };
                let ghost pre = mm.db.users.users@;
                mm.db.users.users[k] = updated;
                proof {
                    assert forall|i: int, j: int|
                        0 <= i < j < mm.db.users.users@.len() implies (
                    #[trigger] mm.db.users.users@[i]).id < (#[trigger] mm.db.users.users@[j]).id by {
                        assert(pre[i].id < pre[j].id);
                    }
                    assert forall|i: int, j: int|
                        0 <= i < j < mm.db.users.users@.len() implies (
                    #[trigger] mm.db.users.users@[i]).username@ != (
                    #[trigger] mm.db.users.users@[j]).username@ by {
                        assert(pre[i].username@ != pre[j].username@);
                    }
                }
                Ok(())
            },
            None => Err(Error::EntityNotFound { entity: UserBMC::table(), id: id as i64 }),
        }
    }
}

} // verus!
