use vstd::prelude::*;
use crate::envelope::AuthError;

verus! {

/// One row of the `users` table: the unique username, the one-way hash of
/// the password (never the plaintext), and the optional relative paths of
/// the two uploaded photos.
pub struct Account {
    pub username: String,
    pub password_hash: String,
    pub profile_photo_path: Option<String>,
    pub id_photo_path: Option<String>,
}

impl Account {
    /// The profile photo path as a sequence of characters, if any.
    pub open spec fn profile_view(self) -> Option<Seq<char>> {
        match self.profile_photo_path {
            Some(p) => Some(p@),
            None => None,
        }
    }

    /// The id photo path as a sequence of characters, if any.
    pub open spec fn id_view(self) -> Option<Seq<char>> {
        match self.id_photo_path {
            Some(p) => Some(p@),
            None => None,
        }
    }
}

/// The credential store: the set of persisted accounts, with usernames
/// unique across all of them. Accounts are created once and never updated
/// or deleted.
pub struct CredentialStore {
    accounts: Vec<Account>,
}

impl CredentialStore {
    /// The persisted rows, in insertion order.
    pub closed spec fn rows(self) -> Seq<Account> {
        self.accounts@
    }

    /// Well-formedness: no two rows share a username.
    pub open spec fn wf(self) -> bool {
        forall|i: int, j: int|
            0 <= i < self.rows().len() && 0 <= j < self.rows().len() && i != j
                ==> (#[trigger] self.rows()[i]).username@ != (#[trigger] self.rows()[j]).username@
    }

    /// Whether some account is stored under this username.
    pub open spec fn contains_user(self, username: Seq<char>) -> bool {
        exists|i: int| 0 <= i < self.rows().len() && (#[trigger] self.rows()[i]).username@ == username
    }

    /// The index of the row stored under this username (meaningful only
    /// when `contains_user` holds; unique by `wf`).
    pub open spec fn user_index(self, username: Seq<char>) -> int {
        choose|i: int| 0 <= i < self.rows().len() && (#[trigger] self.rows()[i]).username@ == username
    }

    /// The account stored under this username.
    pub open spec fn account_of(self, username: Seq<char>) -> Account {
        self.rows()[self.user_index(username)]
    }

    /// The password hash stored under this username.
    pub open spec fn hash_of(self, username: Seq<char>) -> Seq<char> {
        self.account_of(username).password_hash@
    }

    /// The profile photo path stored under this username.
    pub open spec fn profile_path_of(self, username: Seq<char>) -> Option<Seq<char>> {
        self.account_of(username).profile_view()
    }

    /// The id photo path stored under this username.
    pub open spec fn id_path_of(self, username: Seq<char>) -> Option<Seq<char>> {
        self.account_of(username).id_view()
    }

    /// The number of stored accounts.
    pub open spec fn size(self) -> nat {
        self.rows().len()
    }

    /// In a well-formed store, every row that carries `username` stands at
    /// `user_index(username)`: the row under a username is unique.
    pub proof fn lemma_user_index(self, username: Seq<char>)
        requires
            self.wf(),
            self.contains_user(username),
        ensures
            0 <= self.user_index(username) < self.rows().len(),
            self.rows()[self.user_index(username)].username@ == username,
            forall|i: int|
                0 <= i < self.rows().len() && (#[trigger] self.rows()[i]).username@ == username
                    ==> i == self.user_index(username),
    {
        let j = self.user_index(username);
        assert(0 <= j < self.rows().len() && self.rows()[j].username@ == username);
    }

    /// An empty store.
    pub fn new() -> (r: Self)
        ensures
            r.wf(),
            r.size() == 0,
            forall|u: Seq<char>| !r.contains_user(u),
    {
        CredentialStore { accounts: Vec::new() }
    }

    /// The number of stored accounts.
    pub fn user_count(&self) -> (r: usize)
        ensures
            r == self.size(),
    {
        self.accounts.len()
    }

    /// Parameterized lookup by exact username match: returns the stored
    /// password hash, or nothing if no account exists under the username.
    pub fn find_password_hash(&self, username: &String) -> (r: Option<String>)
        requires
            self.wf(),
        ensures
            r is Some <==> self.contains_user(username@),
            r matches Some(h) ==> h@ == self.hash_of(username@),
    {
        let n = self.accounts.len();
        let mut i: usize = 0;
        while i < n
            invariant
                self.wf(),
                n == self.rows().len(),
                0 <= i <= n,
                forall|k: int| 0 <= k < i ==> (#[trigger] self.rows()[k]).username@ != username@,
            decreases n - i,
        {
            if self.accounts[i].username == *username {
                let h = self.accounts[i].password_hash.clone();
                proof {
                    assert(self.rows()[i as int].username@ == username@);
                    assert(self.contains_user(username@));
                    self.lemma_user_index(username@);
                    assert(self.user_index(username@) == i as int);
                }
                return Some(h);
            }
            i += 1;
        }
        assert(!self.contains_user(username@));
        None
    }

    /// The stored row under this username, if any.
    pub fn get_account(&self, username: &String) -> (r: Option<&Account>)
        requires
            self.wf(),
        ensures
            r is Some <==> self.contains_user(username@),
            r matches Some(a) ==> *a == self.account_of(username@),
    {
        let n = self.accounts.len();
        let mut i: usize = 0;
        while i < n
            invariant
                self.wf(),
                n == self.rows().len(),
                0 <= i <= n,
                forall|k: int| 0 <= k < i ==> (#[trigger] self.rows()[k]).username@ != username@,
            decreases n - i,
        {
            if self.accounts[i].username == *username {
                proof {
                    assert(self.rows()[i as int].username@ == username@);
                    assert(self.contains_user(username@));
                    self.lemma_user_index(username@);
                    assert(self.user_index(username@) == i as int);
                }
                return Some(&self.accounts[i]);
            }
            i += 1;
        }
        assert(!self.contains_user(username@));
        None
    }

    /// Inserts a fresh account. Fails with `DuplicateUsername`, leaving the
    /// store unchanged, exactly when the username is already taken; on a
    /// fresh username the new row is added and every other row is kept as
    /// it was. Insertion is atomic: no partial state is observable.
    pub fn insert_account(
        &mut self,
        username: String,
        password_hash: String,
        profile_photo_path: Option<String>,
        id_photo_path: Option<String>,
    ) -> (r: Result<(), AuthError>)
        requires
            old(self).wf(),
        ensures
            final(self).wf(),
            old(self).contains_user(username@) ==> {
                &&& r == Err::<(), AuthError>(AuthError::DuplicateUsername)
                &&& *final(self) == *old(self)
            },
            !old(self).contains_user(username@) ==> {
                &&& r == Ok::<(), AuthError>(())
                &&& final(self).contains_user(username@)
                &&& final(self).hash_of(username@) == password_hash@
                &&& final(self).profile_path_of(username@) == (match profile_photo_path {
                    Some(p) => Some(p@),
                    None => None::<Seq<char>>,
                })
                &&& final(self).id_path_of(username@) == (match id_photo_path {
                    Some(p) => Some(p@),
                    None => None::<Seq<char>>,
                })
                &&& final(self).size() == old(self).size() + 1
                &&& forall|v: Seq<char>|
                    v != username@ ==> (final(self).contains_user(v) <==> old(
                        self,
                    ).contains_user(v))
                &&& forall|v: Seq<char>|
                    v != username@ && old(self).contains_user(v) ==> final(self).account_of(v)
                        == old(self).account_of(v)
            },
    {
        if self.find_password_hash(&username).is_some() {
            return Err(AuthError::DuplicateUsername);
        }
        let ghost old_store = *self;
        let ghost u = username@;
        let account = Account { username, password_hash, profile_photo_path, id_photo_path };
        self.accounts.push(account);
        proof {
            let n = old_store.rows().len() as int;
            assert(self.rows() == old_store.rows().push(account));
            assert(self.rows()[n] == account);
            assert forall|i: int| 0 <= i < n implies #[trigger] self.rows()[i]
                == old_store.rows()[i] by {}
            // no old row carries the fresh username
            assert forall|i: int| 0 <= i < n implies (#[trigger] self.rows()[i]).username@ != u by {
                if self.rows()[i].username@ == u {
                    assert(old_store.contains_user(u));
                }
            }
            // uniqueness carries over to the pushed row
            assert forall|i: int, j: int|
                0 <= i < self.rows().len() && 0 <= j < self.rows().len() && i != j implies (
            #[trigger] self.rows()[i]).username@ != (#[trigger] self.rows()[j]).username@ by {
                if i < n && j < n {
                    assert(old_store.rows()[i].username@ != old_store.rows()[j].username@);
                }
            }
            // the fresh row is found under its username
            assert(self.rows()[n].username@ == u);
            assert(self.contains_user(u));
            self.lemma_user_index(u);
            assert(self.user_index(u) == n);
            // any other username is present afterwards exactly when it was before
            assert forall|v: Seq<char>| v != u implies (self.contains_user(v)
                <==> old_store.contains_user(v)) by {
                if self.contains_user(v) {
                    let i = choose|i: int|
                        0 <= i < self.rows().len() && (#[trigger] self.rows()[i]).username@ == v;
                    assert(i != n);
                    assert(old_store.rows()[i].username@ == v);
                    assert(old_store.contains_user(v));
                }
                if old_store.contains_user(v) {
                    let i = choose|i: int|
                        0 <= i < old_store.rows().len() && (#[trigger] old_store.rows()[i]).username@
                            == v;
                    assert(self.rows()[i].username@ == v);
                    assert(self.contains_user(v));
                }
            }
            // and its row is untouched
            assert forall|v: Seq<char>| v != u && old_store.contains_user(v) implies self.account_of(
                v,
            ) == old_store.account_of(v) by {
                old_store.lemma_user_index(v);
                let i = old_store.user_index(v);
                assert(self.rows()[i].username@ == v);
                assert(self.contains_user(v));
                self.lemma_user_index(v);
                assert(self.user_index(v) == i);
            }
        }
        Ok(())
    }
}

} // verus!
