//! What holds of the identity service in every state: laws proved of the
//! operations as `UserServiceView` defines them, and so of the executable
//! service, which computes exactly those functions.

use crate::clock;
use crate::domains::user::model::{
    CreateUserRequestView, LoginRequestView, VerificationTokenView, EMAIL_VERIFICATION,
};
use crate::domains::user::repository::{TokenRepositoryView, UserRepositoryView};
use crate::domains::user::service::{spec_authenticate, UserServiceView};
use crate::utils::spec_hash_password;
use vstd::prelude::*;

verus! {

impl TokenRepositoryView {
    /// The stored tokens of the account `user_id` that can be redeemed at
    /// `now`.
    pub open spec fn redeemable_by(self, user_id: i32, now: i64) -> Set<VerificationTokenView> {
        Set::new(
            |t: VerificationTokenView|
                self.tokens.contains(t) && t.user_id == user_id && t.is_redeemable(now),
        )
    }

    /// Whether no stored token belongs to the account `user_id`.
    pub open spec fn has_none_for(self, user_id: int) -> bool {
        forall|i: int| 0 <= i < self.tokens.len() ==> (#[trigger] self.tokens[i]).user_id != user_id
    }

    /// Whether `later` holds every token of this store, with what can never
    /// change left unchanged: a token keeps its place, its id, its string, its
    /// owner and its expiry, and once used it stays used.
    pub open spec fn evolves_to(self, later: TokenRepositoryView) -> bool {
        &&& self.tokens.len() <= later.tokens.len()
        &&& forall|i: int|
            0 <= i < self.tokens.len() ==> {
                &&& (#[trigger] later.tokens[i]).id == self.tokens[i].id
                &&& later.tokens[i].token == self.tokens[i].token
                &&& later.tokens[i].user_id == self.tokens[i].user_id
                &&& later.tokens[i].expires_at == self.tokens[i].expires_at
                &&& self.tokens[i].is_used() ==> later.tokens[i].is_used()
            }
    }
}

impl UserRepositoryView {
    /// Whether `later` holds every account of this store, with what can never
    /// change left unchanged: an account keeps its place, its id, its email and
    /// its credential, and once verified it stays verified.
    pub open spec fn evolves_to(self, later: UserRepositoryView) -> bool {
        &&& self.accounts.len() <= later.accounts.len()
        &&& forall|i: int|
            0 <= i < self.accounts.len() ==> {
                &&& (#[trigger] later.accounts[i]).id == self.accounts[i].id
                &&& later.accounts[i].email == self.accounts[i].email
                &&& later.accounts[i].password == self.accounts[i].password
                &&& self.accounts[i].email_verified ==> later.accounts[i].email_verified
            }
    }
}

impl UserServiceView {
    /// Whether `later` can follow this state: no account and no token is
    /// lost, a verified account stays verified, a used token stays used.
    pub open spec fn evolves_to(self, later: UserServiceView) -> bool {
        self.users.evolves_to(later.users) && self.tokens.evolves_to(later.tokens)
    }
}

/// Creating an account from a valid request under an email that nobody has
/// registered succeeds, and leaves exactly one token of the new account that
/// can be redeemed: the one mailed to it. This holds where the stores can take
/// the two records (an id is left in each, the drawn token string is new), the
/// expiry can be computed, and no token had been issued beforehand to the id
/// that the account receives. The token stays redeemable until it expires.
pub proof fn law_create_user_issues_one_token(
    state: UserServiceView,
    request: CreateUserRequestView,
    now: i64,
    token: Seq<char>,
    at: i64,
)
    requires
        state.wf(),
        request.is_valid(),
        !state.users.has_email(request.email),
        state.users.next_id <= i32::MAX,
        state.tokens.rejection(token) is None,
        clock::spec_expiry_after(now) is Some,
        state.tokens.has_none_for(state.users.next_id),
        at <= clock::spec_expiry_after(now)->0,
    ensures
        ({
            let (after, created) = state.create_user(request, now, token);
            &&& after.wf()
            &&& created is Ok
            &&& created->Ok_0.email == request.email
            &&& !created->Ok_0.email_verified
            &&& after.users.by_email(request.email) == Some(created->Ok_0)
            &&& after.tokens.by_value(token) is Some
            &&& after.tokens.redeemable_by(created->Ok_0.id, at) == set![
                after.tokens.by_value(token)->0,
            ]
            &&& after.redeems(token, at)
        }),
{
    let (after, created) = state.create_user(request, now, token);
    let user = state.users.new_account(request.email, request.display_name, request.password, now);
    let issued = state.tokens.new_token(
        user.id,
        token,
        EMAIL_VERIFICATION@,
        clock::spec_expiry_after(now)->0,
        now,
    );
    state.users.lemma_with_account_wf(user);
    state.tokens.lemma_with_token_wf(issued);
    let n = state.users.accounts.len() as int;
    let m = state.tokens.tokens.len() as int;
    assert(after.users.accounts[n] == user);
    assert(after.tokens.tokens[m] == issued);
    after.users.lemma_email_position(request.email, n);
    after.users.lemma_id_position(user.id, n);
    after.tokens.lemma_value_position(token, m);
    assert(after.tokens.redeemable_by(user.id, at) =~= set![issued]) by {
        assert forall|t: VerificationTokenView|
            after.tokens.redeemable_by(user.id, at).contains(t) implies t == issued by {
            let i = choose|i: int| 0 <= i < after.tokens.tokens.len() && after.tokens.tokens[i] == t;
            if i < m {
                assert(after.tokens.tokens[i] == state.tokens.tokens[i]);
                assert(state.tokens.tokens[i].user_id != state.users.next_id);
            }
        }
        assert(after.tokens.tokens.contains(issued));
    }
}

/// An account whose email is not verified cannot log in, whatever password is
/// presented: the outcome is `Unauthorized`.
pub proof fn law_login_requires_verification(
    state: UserServiceView,
    request: LoginRequestView,
    now: i64,
)
    requires
        state.users.by_email(request.email) is Some,
        !state.users.by_email(request.email)->0.email_verified,
    ensures
        state.login(request, now) is Err,
        state.login(request, now)->Err_0 is Unauthorized,
{
}

/// Every failed login is `Unauthorized`, whether the account is absent,
/// unverified or the password wrong; a session is issued only to a verified
/// account whose stored credential is the hash of the password presented.
pub proof fn law_login_outcomes(state: UserServiceView, request: LoginRequestView, now: i64)
    ensures
        spec_authenticate(state.users.by_email(request.email), request.password) is Err
            ==> state.login(request, now) is Err && state.login(request, now)->Err_0
            is Unauthorized,
        state.login(request, now) is Ok ==> {
            &&& state.users.by_email(request.email) is Some
            &&& state.users.by_email(request.email)->0.email_verified
            &&& state.users.by_email(request.email)->0.password
                == spec_hash_password(request.password)
            &&& state.login(request, now)->Ok_0.email == request.email
            &&& state.login(request, now)->Ok_0.user_id == state.users.by_email(
                request.email,
            )->0.id
        },
{
}

/// A token that has been redeemed cannot be redeemed again: presenting the
/// same string a second time, before the token expires, is `TokenAlreadyUsed`,
/// and changes nothing.
pub proof fn law_token_is_single_use(
    state: UserServiceView,
    token: Seq<char>,
    first: i64,
    second: i64,
)
    requires
        state.wf(),
        state.redeems(token, first),
        second <= state.tokens.by_value(token)->0.expires_at,
    ensures
        ({
            let after = state.verify_email(token, first).0;
            &&& after.verify_email(token, second).1 is Err
            &&& after.verify_email(token, second).1->Err_0 is TokenAlreadyUsed
            &&& after.verify_email(token, second).0 == after
        }),
{
    lemma_redeemed_token_is_used(state, token, first);
}

/// After a redemption the token is stored as used, with everything else about
/// it as before, and its account is verified.
pub proof fn lemma_redeemed_token_is_used(state: UserServiceView, token: Seq<char>, now: i64)
    requires
        state.wf(),
        state.redeems(token, now),
    ensures
        ({
            let before = state.tokens.by_value(token)->0;
            let after = state.verify_email(token, now).0;
            &&& after == state.redeemed(token, now)
            &&& after.wf()
            &&& after.tokens.by_value(token) == Some(before.used(now))
            &&& after.users.by_id(before.user_id) == Some(
                state.users.by_id(before.user_id)->0.verified(),
            )
        }),
{
    let before = state.tokens.by_value(token)->0;
    let after = state.verify_email(token, now).0;
    let i = state.tokens.index_of_value(token);
    state.tokens.lemma_id_position(before.id, i);
    state.tokens.lemma_with_used_wf(before.id, now);
    state.users.lemma_with_verified_wf(before.user_id);
    assert(after.tokens.tokens[i] == before.used(now));
    after.tokens.lemma_value_position(token, i);
    let k = state.users.index_of_id(before.user_id);
    assert(after.users.accounts[k] == state.users.accounts[k].verified());
    after.users.lemma_id_position(before.user_id, k);
}

/// A used token is inert for good: whenever it is presented, nothing changes
/// and no session is issued.
pub proof fn law_used_token_is_inert(state: UserServiceView, token: Seq<char>, now: i64)
    requires
        state.tokens.by_value(token) is Some,
        state.tokens.by_value(token)->0.is_used(),
    ensures
        state.verify_email(token, now).1 is Err,
        state.verify_email(token, now).0 == state,
        !state.redeems(token, now),
{
}

/// A token whose expiry has passed cannot be redeemed, used or not: the
/// outcome is `TokenExpired`, and nothing changes.
pub proof fn law_expired_token_is_rejected(state: UserServiceView, token: Seq<char>, now: i64)
    requires
        state.tokens.by_value(token) is Some,
        state.tokens.by_value(token)->0.expires_at < now,
    ensures
        state.verify_email(token, now).1 is Err,
        state.verify_email(token, now).1->Err_0 is TokenExpired,
        state.verify_email(token, now).0 == state,
{
}

/// Of two attempts to redeem one live token, made one after the other in
/// either order and at any two instants, only the first redeems it: the second
/// never returns a session, and fails with `TokenAlreadyUsed`, or with
/// `TokenExpired` where the token has expired by then.
pub proof fn law_one_redemption_wins(
    state: UserServiceView,
    token: Seq<char>,
    first: i64,
    second: i64,
)
    requires
        state.wf(),
        state.redeems(token, first),
    ensures
        ({
            let after = state.verify_email(token, first).0;
            let again = after.verify_email(token, second);
            &&& !after.redeems(token, second)
            &&& again.0 == after
            &&& again.1 is Err
            &&& again.1->Err_0 is TokenAlreadyUsed || again.1->Err_0 is TokenExpired
        }),
{
    lemma_redeemed_token_is_used(state, token, first);
}

/// Redemption verifies the account that owns the token, and no other account
/// changes.
pub proof fn law_redemption_verifies_owner(state: UserServiceView, token: Seq<char>, now: i64)
    requires
        state.wf(),
        state.redeems(token, now),
    ensures
        ({
            let owner = state.tokens.by_value(token)->0.user_id;
            let after = state.verify_email(token, now).0;
            &&& after.users.by_id(owner) is Some
            &&& after.users.by_id(owner)->0.email_verified
            &&& forall|i: int|
                0 <= i < state.users.accounts.len() && state.users.accounts[i].id != owner
                    ==> #[trigger] after.users.accounts[i] == state.users.accounts[i]
        }),
{
    lemma_redeemed_token_is_used(state, token, now);
    let owner = state.tokens.by_value(token)->0.user_id;
    let k = state.users.index_of_id(owner);
    state.users.lemma_id_position(owner, k);
}

/// No operation loses an account or a token, turns a verified account back
/// into an unverified one, or makes a used token unused.
pub proof fn law_state_only_moves_forward(
    state: UserServiceView,
    request: CreateUserRequestView,
    user_id: i32,
    email: Seq<char>,
    token: Seq<char>,
    now: i64,
)
    requires
        state.wf(),
    ensures
        state.evolves_to(state.create_user(request, now, token).0),
        state.evolves_to(state.send_verification_email(user_id, now, token).0),
        state.evolves_to(state.send_verification_email_by_email(email, now, token).0),
        state.evolves_to(state.verify_email(token, now).0),
{
}

/// Account creation is all or nothing: a failure leaves the state as it was,
/// queue of emails included, and a success adds exactly one account and one
/// token, the token owned by the account, and queues one email.
pub proof fn law_create_user_is_atomic(
    state: UserServiceView,
    request: CreateUserRequestView,
    now: i64,
    token: Seq<char>,
)
    ensures
        ({
            let (after, created) = state.create_user(request, now, token);
            &&& created is Err ==> after == state
            &&& created is Ok ==> {
                &&& after.users.accounts == state.users.accounts.push(created->Ok_0)
                &&& after.tokens.tokens.len() == state.tokens.tokens.len() + 1
                &&& after.tokens.tokens.last().user_id == created->Ok_0.id
                &&& after.tokens.tokens.last().token == token
                &&& after.tokens.tokens.last().expires_at == now + clock::VALIDITY_WINDOW_SECS
                &&& after.email.outbox.len() == state.email.outbox.len() + 1
                &&& after.email.outbox.last().to == seq![request.email]
            }
        }),
{
}

/// Redemption is all or nothing: either the state stays as it was, or the
/// account is verified and the token is marked as used, both at once. No
/// outcome leaves one write without the other.
pub proof fn law_redemption_is_atomic(state: UserServiceView, token: Seq<char>, now: i64)
    requires
        state.wf(),
    ensures
        ({
            let after = state.verify_email(token, now).0;
            if state.redeems(token, now) {
                let found = state.tokens.by_value(token)->0;
                &&& after.tokens.by_value(token) == Some(found.used(now))
                &&& after.users.by_id(found.user_id) is Some
                &&& after.users.by_id(found.user_id)->0.email_verified
            } else {
                after == state
            }
        }),
{
    if state.redeems(token, now) {
        lemma_redeemed_token_is_used(state, token, now);
    }
}

/// A verification email that is sent again adds a token beside those that
/// are there: every earlier token is stored as before, used or not, and the
/// new one can be redeemed until it expires a validity window later.
pub proof fn law_resend_keeps_earlier_tokens(
    state: UserServiceView,
    user_id: i32,
    now: i64,
    token: Seq<char>,
    earlier: Seq<char>,
)
    requires
        state.wf(),
        state.send_verification_email(user_id, now, token).1 is Ok,
        state.tokens.by_value(earlier) is Some,
    ensures
        ({
            let after = state.send_verification_email(user_id, now, token).0;
            &&& after.wf()
            &&& after.tokens.by_value(earlier) == state.tokens.by_value(earlier)
            &&& after.tokens.by_value(token) is Some
            &&& after.tokens.by_value(token)->0.user_id == user_id
            &&& after.tokens.by_value(token)->0.is_redeemable(now)
            &&& after.tokens.by_value(token)->0.expires_at == now + clock::VALIDITY_WINDOW_SECS
            &&& after.redeems(token, now)
        }),
{
    let after = state.send_verification_email(user_id, now, token).0;
    let issued = state.tokens.new_token(
        user_id,
        token,
        EMAIL_VERIFICATION@,
        clock::spec_expiry_after(now)->0,
        now,
    );
    state.tokens.lemma_with_token_wf(issued);
    let m = state.tokens.tokens.len() as int;
    assert(after.tokens.tokens[m] == issued);
    after.tokens.lemma_value_position(token, m);
    let k = state.tokens.index_of_value(earlier);
    assert(after.tokens.tokens[k] == state.tokens.tokens[k]);
    after.tokens.lemma_value_position(earlier, k);
}

/// Asking again for a verification email by address tells nothing about who
/// is registered: where nobody registered the address, and where the account
/// is verified already, the request succeeds and nothing happens.
pub proof fn law_resend_by_email_is_silent(
    state: UserServiceView,
    email: Seq<char>,
    now: i64,
    token: Seq<char>,
)
    requires
        state.users.by_email(email) is None || state.users.by_email(email)->0.email_verified,
    ensures
        state.send_verification_email_by_email(email, now, token).0 == state,
        state.send_verification_email_by_email(email, now, token).1 is Ok,
{
}

/// Reading an account, by id or by email, depends on the accounts alone and
/// changes nothing: as long as no account is added or verified in between,
/// the same read returns the same, and sending verification emails is no such
/// change.
pub proof fn law_reads_are_repeatable(
    before: UserServiceView,
    after: UserServiceView,
    user_id: i32,
    email: Seq<char>,
    now: i64,
    token: Seq<char>,
)
    requires
        before.users == after.users,
    ensures
        before.get_user_by_id(user_id) == after.get_user_by_id(user_id),
        before.users.by_email(email) == after.users.by_email(email),
        before.send_verification_email(user_id, now, token).0.users == before.users,
        before.send_verification_email_by_email(email, now, token).0.users == before.users,
{
}

} // verus!
