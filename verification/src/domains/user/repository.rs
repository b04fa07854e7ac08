//! The account store and the verification token store: plain persistence of
//! records kept in memory, with no business rule beyond the uniqueness of ids,
//! emails and token strings.

use crate::domains::user::model::{User, UserView, VerificationToken, VerificationTokenView};
use crate::text::str_eq;
use crate::utils::{hash_password, spec_hash_password};
use crate::views::option_view;
use vstd::prelude::*;
use vstd::string::*;

verus! {

/// Why a store refused an operation.
#[derive(Debug)]
pub enum RepositoryError {
    /// The store itself failed; the text says how.
    DatabaseError(String),
    /// No record with the given id.
    NotFound(String),
    /// A record with the same unique key is already there.
    Conflict(String),
}

pub enum RepositoryErrorView {
    DatabaseError(Seq<char>),
    NotFound(Seq<char>),
    Conflict(Seq<char>),
}

impl View for RepositoryError {
    type V = RepositoryErrorView;

    open spec fn view(&self) -> RepositoryErrorView {
        match self {
            RepositoryError::DatabaseError(m) => RepositoryErrorView::DatabaseError(m@),
            RepositoryError::NotFound(m) => RepositoryErrorView::NotFound(m@),
            RepositoryError::Conflict(m) => RepositoryErrorView::Conflict(m@),
        }
    }
}

impl RepositoryError {
    /// The error as one line of text.
    pub fn to_string(&self) -> (line: String)
        ensures
            line@ == match self@ {
                RepositoryErrorView::DatabaseError(m) => "Database error: "@ + m,
                RepositoryErrorView::NotFound(m) => "Not found: "@ + m,
                RepositoryErrorView::Conflict(m) => "Conflict: "@ + m,
            },
    {
        match self {
            RepositoryError::DatabaseError(m) => String::from_str("Database error: ").concat(
                m.as_str(),
            ),
            RepositoryError::NotFound(m) => String::from_str("Not found: ").concat(m.as_str()),
            RepositoryError::Conflict(m) => String::from_str("Conflict: ").concat(m.as_str()),
        }
    }
}

/// Text of the error for an email that is already registered.
pub const EMAIL_TAKEN: &'static str = "email is already registered";

/// Text of the error for a store that has no id left to give.
pub const IDS_EXHAUSTED: &'static str = "no id is left";

/// Text of the error for an account id that no account has.
pub const NO_SUCH_USER: &'static str = "User not found";

/// The accounts of a store, oldest first, and the id the next one will get.
pub struct UserRepositoryView {
    pub accounts: Seq<UserView>,
    pub next_id: int,
}

impl UserRepositoryView {
    /// Ids are positive, below `next_id` and all different; emails are all
    /// different.
    pub open spec fn wf(self) -> bool {
        &&& 1 <= self.next_id <= i32::MAX + 1
        &&& forall|i: int|
            0 <= i < self.accounts.len() ==> 1 <= (#[trigger] self.accounts[i]).id < self.next_id
        &&& forall|i: int, j: int|
            #![trigger self.accounts[i], self.accounts[j]]
            0 <= i < j < self.accounts.len() ==> self.accounts[i].id != self.accounts[j].id
        &&& forall|i: int, j: int|
            #![trigger self.accounts[i], self.accounts[j]]
            0 <= i < j < self.accounts.len() ==> self.accounts[i].email != self.accounts[j].email
    }

    pub open spec fn has_email(self, email: Seq<char>) -> bool {
        exists|i: int| 0 <= i < self.accounts.len() && (#[trigger] self.accounts[i]).email == email
    }

    /// The account registered under `email`, if there is one.
    pub open spec fn by_email(self, email: Seq<char>) -> Option<UserView> {
        if self.has_email(email) {
            Some(
                self.accounts[choose|i: int|
                    0 <= i < self.accounts.len() && (#[trigger] self.accounts[i]).email == email],
            )
        } else {
            None
        }
    }

    pub open spec fn has_id(self, id: i32) -> bool {
        exists|i: int| 0 <= i < self.accounts.len() && (#[trigger] self.accounts[i]).id == id
    }

    /// The position of the account with `id`, where there is one.
    pub open spec fn index_of_id(self, id: i32) -> int {
        choose|i: int| 0 <= i < self.accounts.len() && (#[trigger] self.accounts[i]).id == id
    }

    /// The account with `id`, if there is one.
    pub open spec fn by_id(self, id: i32) -> Option<UserView> {
        if self.has_id(id) {
            Some(self.accounts[self.index_of_id(id)])
        } else {
            None
        }
    }

    /// Why the store refuses a new account under `email`, if it does: the
    /// email is taken, or else no id is left.
    pub open spec fn rejection(self, email: Seq<char>) -> Option<RepositoryErrorView> {
        if self.has_email(email) {
            Some(RepositoryErrorView::Conflict(EMAIL_TAKEN@))
        } else if self.next_id > i32::MAX {
            Some(RepositoryErrorView::DatabaseError(IDS_EXHAUSTED@))
        } else {
            None
        }
    }

    /// The account that `insert` makes of its arguments: unverified, with the
    /// next id and the given credential.
    pub open spec fn stored_account(
        self,
        email: Seq<char>,
        display_name: Seq<char>,
        credential: Seq<char>,
        now: i64,
    ) -> UserView {
        UserView {
            id: self.next_id as i32,
            email,
            display_name,
            password: credential,
            email_verified: false,
            created_at: Some(now),
        }
    }

    /// The account that `create` makes of its arguments: unverified, with the
    /// next id and the hashed password.
    pub open spec fn new_account(
        self,
        email: Seq<char>,
        display_name: Seq<char>,
        password: Seq<char>,
        now: i64,
    ) -> UserView {
        self.stored_account(email, display_name, spec_hash_password(password), now)
    }

    /// The store with `account` added.
    pub open spec fn with_account(self, account: UserView) -> UserRepositoryView {
        UserRepositoryView { accounts: self.accounts.push(account), next_id: self.next_id + 1 }
    }

    /// The store with the account `id` marked as verified.
    pub open spec fn with_verified(self, id: i32) -> UserRepositoryView {
        if self.has_id(id) {
            UserRepositoryView {
                accounts: self.accounts.update(
                    self.index_of_id(id),
                    self.accounts[self.index_of_id(id)].verified(),
                ),
                ..self
            }
        } else {
            self
        }
    }
}

impl UserRepositoryView {
    /// An id names at most one account of a well-formed store.
    pub proof fn lemma_id_position(self, id: i32, i: int)
        requires
            self.wf(),
            0 <= i < self.accounts.len(),
            self.accounts[i].id == id,
        ensures
            self.has_id(id),
            self.index_of_id(id) == i,
            self.by_id(id) == Some(self.accounts[i]),
    {
        let j = self.index_of_id(id);
        assert(0 <= j < self.accounts.len() && self.accounts[j].id == id);
        if j < i {
            assert(self.accounts[j].id != self.accounts[i].id);
        } else if i < j {
            assert(self.accounts[i].id != self.accounts[j].id);
        }
    }

    /// An email names at most one account of a well-formed store.
    pub proof fn lemma_email_position(self, email: Seq<char>, i: int)
        requires
            self.wf(),
            0 <= i < self.accounts.len(),
            self.accounts[i].email == email,
        ensures
            self.has_email(email),
            self.by_email(email) == Some(self.accounts[i]),
    {
        let j = choose|j: int|
            0 <= j < self.accounts.len() && (#[trigger] self.accounts[j]).email == email;
        assert(0 <= j < self.accounts.len() && self.accounts[j].email == email);
        if j < i {
            assert(self.accounts[j].email != self.accounts[i].email);
        } else if i < j {
            assert(self.accounts[i].email != self.accounts[j].email);
        }
    }

    /// Adding an account with the next id and an unused email keeps the store
    /// well-formed.
    pub proof fn lemma_with_account_wf(self, account: UserView)
        requires
            self.wf(),
            self.rejection(account.email) is None,
            account.id == self.next_id,
        ensures
            self.with_account(account).wf(),
    {
        let after = self.with_account(account);
        assert forall|i: int| 0 <= i < after.accounts.len() implies 1 <= (
        #[trigger] after.accounts[i]).id < after.next_id by {
            if i < self.accounts.len() {
                assert(after.accounts[i] == self.accounts[i]);
            }
        }
        assert forall|i: int, j: int|
            #![trigger after.accounts[i], after.accounts[j]]
            0 <= i < j < after.accounts.len() implies after.accounts[i].id != after.accounts[j].id
            && after.accounts[i].email != after.accounts[j].email by {
            assert(after.accounts[i] == self.accounts[i]);
            if j < self.accounts.len() {
                assert(after.accounts[j] == self.accounts[j]);
            }
        }
    }

    /// Marking an account as verified keeps the store well-formed.
    pub proof fn lemma_with_verified_wf(self, id: i32)
        requires
            self.wf(),
        ensures
            self.with_verified(id).wf(),
    {
        let after = self.with_verified(id);
        if self.has_id(id) {
            let k = self.index_of_id(id);
            assert forall|i: int| 0 <= i < after.accounts.len() implies 1 <= (
            #[trigger] after.accounts[i]).id < after.next_id by {
                assert(after.accounts[i].id == self.accounts[i].id);
            }
            assert forall|i: int, j: int|
                #![trigger after.accounts[i], after.accounts[j]]
                0 <= i < j < after.accounts.len() implies after.accounts[i].id
                != after.accounts[j].id && after.accounts[i].email != after.accounts[j].email by {
                assert(after.accounts[i].id == self.accounts[i].id);
                assert(after.accounts[j].id == self.accounts[j].id);
                assert(after.accounts[i].email == self.accounts[i].email);
                assert(after.accounts[j].email == self.accounts[j].email);
            }
        }
    }
}

/// The account store.
pub struct UserRepository {
    users: Vec<User>,
    next_id: i64,
}

impl View for UserRepository {
    type V = UserRepositoryView;

    closed spec fn view(&self) -> UserRepositoryView {
        UserRepositoryView {
            accounts: self.users@.map_values(|u: User| u@),
            next_id: self.next_id as int,
        }
    }
}

impl UserRepository {
    /// Every store that exists is well-formed.
    #[verifier::type_invariant]
    pub open spec fn inv(self) -> bool {
        self@.wf()
    }

    /// An empty store, whose first account will get the id 1.
    pub fn new() -> (store: Self)
        ensures
            store@.accounts.len() == 0,
            store@.next_id == 1,
            store@.wf(),
    {
        UserRepository { users: Vec::new(), next_id: 1 }
    }

    fn position_of_email(&self, email: &str) -> (found: Option<usize>)
        ensures
            self@.wf(),
            match found {
                Some(i) => i < self@.accounts.len() && self@.accounts[i as int].email == email@,
                None => !self@.has_email(email@),
            },
    {
        proof {
            use_type_invariant(self);
        }
        let mut i: usize = 0;
        while i < self.users.len()
            invariant
                i <= self.users.len(),
                self@.wf(),
                forall|k: int| 0 <= k < i ==> (#[trigger] self@.accounts[k]).email != email@,
            decreases self.users.len() - i,
        {
            if str_eq(self.users[i].email.as_str(), email) {
                return Some(i);
            }
            i += 1;
        }
        None
    }

    fn position_of_id(&self, id: i32) -> (found: Option<usize>)
        ensures
            self@.wf(),
            match found {
                Some(i) => i < self@.accounts.len() && self@.accounts[i as int].id == id
                    && self@.has_id(id) && self@.index_of_id(id) == i,
                None => !self@.has_id(id),
            },
    {
        proof {
            use_type_invariant(self);
        }
        let mut i: usize = 0;
        while i < self.users.len()
            invariant
                i <= self.users.len(),
                self@.wf(),
                forall|k: int| 0 <= k < i ==> (#[trigger] self@.accounts[k]).id != id,
            decreases self.users.len() - i,
        {
            if self.users[i].id == id {
                proof {
                    self@.lemma_id_position(id, i as int);
                }
                return Some(i);
            }
            i += 1;
        }
        None
    }

    /// Whether the store can take a new account under `email`, and why not
    /// where it cannot. A pure read.
    pub fn check_can_create(&self, email: &str) -> (verdict: Result<(), RepositoryError>)
        ensures
            self@.wf(),
            match verdict {
                Ok(_) => self@.rejection(email@) is None,
                Err(e) => self@.rejection(email@) == Some(e@),
            },
    {
        proof {
            use_type_invariant(self);
        }
        if self.position_of_email(email).is_some() {
            return Err(RepositoryError::Conflict(String::from_str(EMAIL_TAKEN)));
        }
        if self.next_id > i32::MAX as i64 {
            return Err(RepositoryError::DatabaseError(String::from_str(IDS_EXHAUSTED)));
        }
        Ok(())
    }

    /// Adds an unverified account whose stored credential is `credential`.
    /// Fails with `Conflict` where the email is taken and with `DatabaseError`
    /// where no id is left; the store is then as it was.
    pub fn insert(&mut self, email: &str, display_name: &str, credential: String, now: i64) -> (created:
        Result<User, RepositoryError>)
        ensures
            old(self)@.wf(),
            final(self)@.wf(),
            match created {
                Ok(user) => {
                    &&& old(self)@.rejection(email@) is None
                    &&& user@ == old(self)@.stored_account(email@, display_name@, credential@, now)
                    &&& final(self)@ == old(self)@.with_account(user@)
                },
                Err(e) => old(self)@.rejection(email@) == Some(e@) && final(self)@ == old(self)@,
            },
    {
        proof {
            use_type_invariant(&*self);
        }
        if let Err(e) = self.check_can_create(email) {
            return Err(e);
        }
        let user = User {
            id: self.next_id as i32,
            email: String::from_str(email),
            display_name: String::from_str(display_name),
            password: credential,
            email_verified: false,
            created_at: Some(now),
        };
        let copy = user.clone();
        let ghost before = self@;
        let mut users = Vec::new();
        core::mem::swap(&mut self.users, &mut users);
        users.push(user);
        self.next_id = self.next_id + 1;
        proof {
            before.lemma_with_account_wf(copy@);
            assert(users@.map_values(|u: User| u@) =~= before.accounts.push(copy@));
        }
        self.users = users;
        Ok(copy)
    }

    /// Adds an unverified account with the password hashed. Fails as `insert`
    /// does.
    pub fn create(&mut self, email: &str, display_name: &str, password: &str, now: i64) -> (created:
        Result<User, RepositoryError>)
        ensures
            old(self)@.wf(),
            final(self)@.wf(),
            match created {
                Ok(user) => {
                    &&& old(self)@.rejection(email@) is None
                    &&& user@ == old(self)@.new_account(email@, display_name@, password@, now)
                    &&& final(self)@ == old(self)@.with_account(user@)
                },
                Err(e) => old(self)@.rejection(email@) == Some(e@) && final(self)@ == old(self)@,
            },
    {
        let credential = hash_password(password);
        self.insert(email, display_name, credential, now)
    }

    /// The account registered under `email`, if there is one. A pure read.
    pub fn find_by_email(&self, email: &str) -> (found: Result<Option<User>, RepositoryError>)
        ensures
            self@.wf(),
            found matches Ok(user) && option_view(user) == self@.by_email(email@),
    {
        match self.position_of_email(email) {
            Some(i) => {
                proof {
                    self@.lemma_email_position(email@, i as int);
                }
                Ok(Some(self.users[i].clone()))
            },
            None => Ok(None),
        }
    }

    /// The account with `id`, if there is one. A pure read.
    pub fn find_by_id(&self, id: i32) -> (found: Result<Option<User>, RepositoryError>)
        ensures
            self@.wf(),
            found matches Ok(user) && option_view(user) == self@.by_id(id),
    {
        match self.position_of_id(id) {
            Some(i) => Ok(Some(self.users[i].clone())),
            None => Ok(None),
        }
    }

    /// Marks the account `id` as verified and returns it; an account that is
    /// verified already stays so. Fails with `NotFound` where no account has
    /// that id.
    pub fn mark_verified(&mut self, id: i32) -> (marked: Result<User, RepositoryError>)
        ensures
            old(self)@.wf(),
            final(self)@.wf(),
            final(self)@ == old(self)@.with_verified(id),
            match marked {
                Ok(user) => old(self)@.by_id(id) is Some && user@ == old(self)@.by_id(
                    id,
                )->0.verified(),
                Err(e) => old(self)@.by_id(id) is None && e@ == RepositoryErrorView::NotFound(
                    NO_SUCH_USER@,
                ),
            },
    {
        proof {
            use_type_invariant(&*self);
        }
        match self.position_of_id(id) {
            Some(i) => {
                let mut user = self.users[i].clone();
                user.email_verified = true;
                let copy = user.clone();
                let ghost before = self@;
                let mut users = Vec::new();
                core::mem::swap(&mut self.users, &mut users);
                users.set(i, user);
                proof {
                    before.lemma_with_verified_wf(id);
                    assert(users@.map_values(|u: User| u@) =~= before.accounts.update(
                        i as int,
                        copy@,
                    ));
                }
                self.users = users;
                Ok(copy)
            },
            None => Err(RepositoryError::NotFound(String::from_str(NO_SUCH_USER))),
        }
    }
}

/// Text of the error for a token string that is already stored.
pub const TOKEN_TAKEN: &'static str = "token is already stored";

/// Text of the error for a token id that no token has.
pub const NO_SUCH_TOKEN: &'static str = "Verification token not found";

/// The tokens of a store, oldest first, and the id the next one will get.
pub struct TokenRepositoryView {
    pub tokens: Seq<VerificationTokenView>,
    pub next_id: int,
}

impl TokenRepositoryView {
    /// Ids are positive, below `next_id` and all different; token strings are
    /// all different.
    pub open spec fn wf(self) -> bool {
        &&& 1 <= self.next_id <= i32::MAX + 1
        &&& forall|i: int|
            0 <= i < self.tokens.len() ==> 1 <= (#[trigger] self.tokens[i]).id < self.next_id
        &&& forall|i: int, j: int|
            #![trigger self.tokens[i], self.tokens[j]]
            0 <= i < j < self.tokens.len() ==> self.tokens[i].id != self.tokens[j].id
        &&& forall|i: int, j: int|
            #![trigger self.tokens[i], self.tokens[j]]
            0 <= i < j < self.tokens.len() ==> self.tokens[i].token != self.tokens[j].token
    }

    pub open spec fn has_value(self, value: Seq<char>) -> bool {
        exists|i: int| 0 <= i < self.tokens.len() && (#[trigger] self.tokens[i]).token == value
    }

    /// The position of the token whose string is `value`, where there is one.
    pub open spec fn index_of_value(self, value: Seq<char>) -> int {
        choose|i: int| 0 <= i < self.tokens.len() && (#[trigger] self.tokens[i]).token == value
    }

    /// The token whose string is `value`, if there is one.
    pub open spec fn by_value(self, value: Seq<char>) -> Option<VerificationTokenView> {
        if self.has_value(value) {
            Some(self.tokens[self.index_of_value(value)])
        } else {
            None
        }
    }

    pub open spec fn has_id(self, id: i32) -> bool {
        exists|i: int| 0 <= i < self.tokens.len() && (#[trigger] self.tokens[i]).id == id
    }

    /// The position of the token with `id`, where there is one.
    pub open spec fn index_of_id(self, id: i32) -> int {
        choose|i: int| 0 <= i < self.tokens.len() && (#[trigger] self.tokens[i]).id == id
    }

    /// The token with `id`, if there is one.
    pub open spec fn by_id(self, id: i32) -> Option<VerificationTokenView> {
        if self.has_id(id) {
            Some(self.tokens[self.index_of_id(id)])
        } else {
            None
        }
    }

    /// Why the store refuses a new token whose string is `value`, if it does:
    /// the string is stored already, or else no id is left.
    pub open spec fn rejection(self, value: Seq<char>) -> Option<RepositoryErrorView> {
        if self.has_value(value) {
            Some(RepositoryErrorView::Conflict(TOKEN_TAKEN@))
        } else if self.next_id > i32::MAX {
            Some(RepositoryErrorView::DatabaseError(IDS_EXHAUSTED@))
        } else {
            None
        }
    }

    /// The token that `insert` makes of its arguments: unused, with the next
    /// id.
    pub open spec fn new_token(
        self,
        user_id: i32,
        value: Seq<char>,
        token_type: Seq<char>,
        expires_at: i64,
        now: i64,
    ) -> VerificationTokenView {
        VerificationTokenView {
            id: self.next_id as i32,
            user_id,
            token: value,
            token_type,
            expires_at,
            used_at: None,
            created_at: Some(now),
        }
    }

    /// The store with `token` added.
    pub open spec fn with_token(self, token: VerificationTokenView) -> TokenRepositoryView {
        TokenRepositoryView { tokens: self.tokens.push(token), next_id: self.next_id + 1 }
    }

    /// The store with the token `id` marked as used at `now`.
    pub open spec fn with_used(self, id: i32, now: i64) -> TokenRepositoryView {
        if self.has_id(id) {
            TokenRepositoryView {
                tokens: self.tokens.update(
                    self.index_of_id(id),
                    self.tokens[self.index_of_id(id)].used(now),
                ),
                ..self
            }
        } else {
            self
        }
    }

    /// An id names at most one token of a well-formed store.
    pub proof fn lemma_id_position(self, id: i32, i: int)
        requires
            self.wf(),
            0 <= i < self.tokens.len(),
            self.tokens[i].id == id,
        ensures
            self.has_id(id),
            self.index_of_id(id) == i,
            self.by_id(id) == Some(self.tokens[i]),
    {
        let j = self.index_of_id(id);
        assert(0 <= j < self.tokens.len() && self.tokens[j].id == id);
        if j < i {
            assert(self.tokens[j].id != self.tokens[i].id);
        } else if i < j {
            assert(self.tokens[i].id != self.tokens[j].id);
        }
    }

    /// A token string names at most one token of a well-formed store.
    pub proof fn lemma_value_position(self, value: Seq<char>, i: int)
        requires
            self.wf(),
            0 <= i < self.tokens.len(),
            self.tokens[i].token == value,
        ensures
            self.has_value(value),
            self.index_of_value(value) == i,
            self.by_value(value) == Some(self.tokens[i]),
    {
        let j = self.index_of_value(value);
        assert(0 <= j < self.tokens.len() && self.tokens[j].token == value);
        if j < i {
            assert(self.tokens[j].token != self.tokens[i].token);
        } else if i < j {
            assert(self.tokens[i].token != self.tokens[j].token);
        }
    }

    /// Adding a token with the next id and an unused string keeps the store
    /// well-formed.
    pub proof fn lemma_with_token_wf(self, token: VerificationTokenView)
        requires
            self.wf(),
            self.rejection(token.token) is None,
            token.id == self.next_id,
        ensures
            self.with_token(token).wf(),
    {
        let after = self.with_token(token);
        assert forall|i: int| 0 <= i < after.tokens.len() implies 1 <= (
        #[trigger] after.tokens[i]).id < after.next_id by {
            if i < self.tokens.len() {
                assert(after.tokens[i] == self.tokens[i]);
            }
        }
        assert forall|i: int, j: int|
            #![trigger after.tokens[i], after.tokens[j]]
            0 <= i < j < after.tokens.len() implies after.tokens[i].id != after.tokens[j].id
            && after.tokens[i].token != after.tokens[j].token by {
            assert(after.tokens[i] == self.tokens[i]);
            if j < self.tokens.len() {
                assert(after.tokens[j] == self.tokens[j]);
            }
        }
    }

    /// Marking a token as used keeps the store well-formed.
    pub proof fn lemma_with_used_wf(self, id: i32, now: i64)
        requires
            self.wf(),
        ensures
            self.with_used(id, now).wf(),
    {
        let after = self.with_used(id, now);
        if self.has_id(id) {
            assert forall|i: int| 0 <= i < after.tokens.len() implies 1 <= (
            #[trigger] after.tokens[i]).id < after.next_id by {
                assert(after.tokens[i].id == self.tokens[i].id);
            }
            assert forall|i: int, j: int|
                #![trigger after.tokens[i], after.tokens[j]]
                0 <= i < j < after.tokens.len() implies after.tokens[i].id != after.tokens[j].id
                && after.tokens[i].token != after.tokens[j].token by {
                assert(after.tokens[i].id == self.tokens[i].id);
                assert(after.tokens[j].id == self.tokens[j].id);
                assert(after.tokens[i].token == self.tokens[i].token);
                assert(after.tokens[j].token == self.tokens[j].token);
            }
        }
    }
}

/// Draws a fresh token string: `Uuid::new_v4` of the `uuid` crate, written
/// out with `to_string`. The string is random, so nothing is claimed of it.
#[verifier::external_body]
pub(crate) fn random_token() -> String {
    uuid::Uuid::new_v4().to_string()
}

/// The verification token store.
pub struct VerificationTokenRepository {
    tokens: Vec<VerificationToken>,
    next_id: i64,
}

impl View for VerificationTokenRepository {
    type V = TokenRepositoryView;

    closed spec fn view(&self) -> TokenRepositoryView {
        TokenRepositoryView {
            tokens: self.tokens@.map_values(|t: VerificationToken| t@),
            next_id: self.next_id as int,
        }
    }
}

impl VerificationTokenRepository {
    /// Every store that exists is well-formed.
    #[verifier::type_invariant]
    pub open spec fn inv(self) -> bool {
        self@.wf()
    }

    /// An empty store, whose first token will get the id 1.
    pub fn new() -> (store: Self)
        ensures
            store@.tokens.len() == 0,
            store@.next_id == 1,
            store@.wf(),
    {
        VerificationTokenRepository { tokens: Vec::new(), next_id: 1 }
    }

    fn position_of_value(&self, value: &str) -> (found: Option<usize>)
        ensures
            self@.wf(),
            match found {
                Some(i) => i < self@.tokens.len() && self@.by_value(value@) == Some(
                    self@.tokens[i as int],
                ) && self@.has_value(value@) && self@.index_of_value(value@) == i,
                None => !self@.has_value(value@),
            },
    {
        proof {
            use_type_invariant(self);
        }
        let mut i: usize = 0;
        while i < self.tokens.len()
            invariant
                i <= self.tokens.len(),
                self@.wf(),
                forall|k: int| 0 <= k < i ==> (#[trigger] self@.tokens[k]).token != value@,
            decreases self.tokens.len() - i,
        {
            if str_eq(self.tokens[i].token.as_str(), value) {
                proof {
                    self@.lemma_value_position(value@, i as int);
                }
                return Some(i);
            }
            i += 1;
        }
        None
    }

    fn position_of_id(&self, id: i32) -> (found: Option<usize>)
        ensures
            self@.wf(),
            match found {
                Some(i) => i < self@.tokens.len() && self@.tokens[i as int].id == id
                    && self@.has_id(id) && self@.index_of_id(id) == i,
                None => !self@.has_id(id),
            },
    {
        proof {
            use_type_invariant(self);
        }
        let mut i: usize = 0;
        while i < self.tokens.len()
            invariant
                i <= self.tokens.len(),
                self@.wf(),
                forall|k: int| 0 <= k < i ==> (#[trigger] self@.tokens[k]).id != id,
            decreases self.tokens.len() - i,
        {
            if self.tokens[i].id == id {
                proof {
                    self@.lemma_id_position(id, i as int);
                }
                return Some(i);
            }
            i += 1;
        }
        None
    }

    /// Whether the store can take a new token whose string is `value`, and
    /// why not where it cannot. A pure read.
    pub fn check_can_insert(&self, value: &str) -> (verdict: Result<(), RepositoryError>)
        ensures
            self@.wf(),
            match verdict {
                Ok(_) => self@.rejection(value@) is None,
                Err(e) => self@.rejection(value@) == Some(e@),
            },
    {
        proof {
            use_type_invariant(self);
        }
        if self.position_of_value(value).is_some() {
            return Err(RepositoryError::Conflict(String::from_str(TOKEN_TAKEN)));
        }
        if self.next_id > i32::MAX as i64 {
            return Err(RepositoryError::DatabaseError(String::from_str(IDS_EXHAUSTED)));
        }
        Ok(())
    }

    /// Stores an unused token with the given string. Fails with `Conflict`
    /// where the string is stored already and with `DatabaseError` where no id
    /// is left; the store is then as it was.
    pub fn insert(
        &mut self,
        user_id: i32,
        value: String,
        token_type: &str,
        expires_at: i64,
        now: i64,
    ) -> (created: Result<VerificationToken, RepositoryError>)
        ensures
            old(self)@.wf(),
            final(self)@.wf(),
            match created {
                Ok(token) => {
                    &&& old(self)@.rejection(value@) is None
                    &&& token@ == old(self)@.new_token(
                        user_id,
                        value@,
                        token_type@,
                        expires_at,
                        now,
                    )
                    &&& final(self)@ == old(self)@.with_token(token@)
                },
                Err(e) => old(self)@.rejection(value@) == Some(e@) && final(self)@ == old(self)@,
            },
    {
        proof {
            use_type_invariant(&*self);
        }
        if let Err(e) = self.check_can_insert(value.as_str()) {
            return Err(e);
        }
        let token = VerificationToken {
            id: self.next_id as i32,
            user_id,
            token: value,
            token_type: String::from_str(token_type),
            expires_at,
            used_at: None,
            created_at: Some(now),
        };
        let copy = token.clone();
        let ghost before = self@;
        let mut tokens = Vec::new();
        core::mem::swap(&mut self.tokens, &mut tokens);
        tokens.push(token);
        self.next_id = self.next_id + 1;
        proof {
            before.lemma_with_token_wf(copy@);
            assert(tokens@.map_values(|t: VerificationToken| t@) =~= before.tokens.push(copy@));
        }
        self.tokens = tokens;
        Ok(copy)
    }

    /// Stores an unused token for `user_id` under a freshly drawn random
    /// string. Whatever string was drawn, the outcome is that of `insert` with
    /// it.
    pub fn create_verification_token(
        &mut self,
        user_id: i32,
        token_type: &str,
        expires_at: i64,
        now: i64,
    ) -> (created: Result<VerificationToken, RepositoryError>)
        ensures
            old(self)@.wf(),
            final(self)@.wf(),
            exists|value: Seq<char>|
                match created {
                    Ok(token) => {
                        &&& (#[trigger] old(self)@.rejection(value)) is None
                        &&& token@ == old(self)@.new_token(
                            user_id,
                            value,
                            token_type@,
                            expires_at,
                            now,
                        )
                        &&& final(self)@ == old(self)@.with_token(token@)
                    },
                    Err(e) => old(self)@.rejection(value) == Some(e@) && final(self)@ == old(
                        self,
                    )@,
                },
    {
        let value = random_token();
        let ghost drawn = value@;
        let created = self.insert(user_id, value, token_type, expires_at, now);
        assert(old(self)@.rejection(drawn) is None || old(self)@.rejection(drawn) is Some);
        created
    }

    /// The token whose string is `value`, if there is one. A pure read.
    pub fn find_token_by_value(&self, value: &str) -> (found: Result<
        Option<VerificationToken>,
        RepositoryError,
    >)
        ensures
            self@.wf(),
            found matches Ok(token) && option_view(token) == self@.by_value(value@),
    {
        match self.position_of_value(value) {
            Some(i) => Ok(Some(self.tokens[i].clone())),
            None => Ok(None),
        }
    }

    /// The same lookup, made by the holder of the exclusive borrow of the
    /// store: until that borrow ends, no other redemption can read or write
    /// the token.
    pub fn find_token_by_value_for_update(&mut self, value: &str) -> (found: Result<
        Option<VerificationToken>,
        RepositoryError,
    >)
        ensures
            final(self)@ == old(self)@,
            final(self)@.wf(),
            found matches Ok(token) && option_view(token) == old(self)@.by_value(value@),
    {
        self.find_token_by_value(value)
    }

    /// Marks the token `id` as used at `now` and returns it. Fails with
    /// `NotFound` where no token has that id.
    pub fn mark_token_as_used(&mut self, id: i32, now: i64) -> (marked: Result<
        VerificationToken,
        RepositoryError,
    >)
        ensures
            old(self)@.wf(),
            final(self)@.wf(),
            final(self)@ == old(self)@.with_used(id, now),
            match marked {
                Ok(token) => old(self)@.by_id(id) is Some && token@ == old(self)@.by_id(
                    id,
                )->0.used(now),
                Err(e) => old(self)@.by_id(id) is None && e@ == RepositoryErrorView::NotFound(
                    NO_SUCH_TOKEN@,
                ),
            },
    {
        proof {
            use_type_invariant(&*self);
        }
        match self.position_of_id(id) {
            Some(i) => {
                let mut token = self.tokens[i].clone();
                token.used_at = Some(now);
                let copy = token.clone();
                let ghost before = self@;
                let mut tokens = Vec::new();
                core::mem::swap(&mut self.tokens, &mut tokens);
                tokens.set(i, token);
                proof {
                    before.lemma_with_used_wf(id, now);
                    assert(tokens@.map_values(|t: VerificationToken| t@) =~= before.tokens.update(
                        i as int,
                        copy@,
                    ));
                }
                self.tokens = tokens;
                Ok(copy)
            },
            None => Err(RepositoryError::NotFound(String::from_str(NO_SUCH_TOKEN))),
        }
    }
}

} // verus!
