//! The store-backed credential verifier: a user record, a swappable
//! single-method lookup capability, and the service that decides a login
//! from a lookup result plus a password comparison.

use vstd::prelude::*;

use crate::credentials::Credentials;
use crate::credentials::LoginForm;
use crate::outcome::VerificationOutcome;
use crate::outcome::outcome_equiv;

verus! {

/// A persisted user record, fetched by its username key.
pub struct Users {
    pub username: String,
    pub password: String,
}

/// Why a lookup returned no record: the key is absent, or the store itself
/// failed (connection error and the like).
#[derive(PartialEq, Eq, Structural, Clone, Copy, Debug)]
pub enum LookupError {
    NotFound,
    Storage,
}

/// What a repository's contract admits as the result of looking up
/// `username` against the store `store` (a map from username to password):
/// a returned record carries the key's stored password, `NotFound` comes
/// only for an absent key, and `Storage` may come at any time — also for an
/// absent key, since a store that cannot be reached cannot tell whether the
/// key is there.
pub open spec fn repository_lookup_admits(
    store: Map<Seq<char>, Seq<char>>,
    username: Seq<char>,
    r: Result<Users, LookupError>,
) -> bool {
    &&& (r matches Ok(u) ==> store.contains_key(username) && u.username@ == username
        && u.password@ == store[username])
    &&& (r matches Err(LookupError::NotFound) ==> !store.contains_key(username))
}

/// The narrow persistence capability: one lookup method, so that the
/// verification logic can be exercised against a canned store as well as a
/// real one. `store()` is the abstract contents, a map from username to
/// stored password; usernames are unique keys by construction of the map.
/// `reliable()` says whether lookups are exempt from storage failures: a
/// canned in-memory store is reliable, a networked one is not, and only a
/// reliable store owes an answer for every key.
pub trait UserRepository {
    spec fn store(&self) -> Map<Seq<char>, Seq<char>>;

    spec fn reliable(&self) -> bool;

    /// Fetch the record stored under `username`, if any. The lookup is a
    /// read: the store contents are unchanged, and a reliable store never
    /// answers with a storage failure.
    fn find_by_username(&mut self, username: &str) -> (r: Result<Users, LookupError>)
        ensures
            final(self).store() == old(self).store(),
            final(self).reliable() == old(self).reliable(),
            repository_lookup_admits(old(self).store(), username@, r),
            old(self).reliable() ==> !(r matches Err(LookupError::Storage)),
    ;
}

/// A canned repository holding exactly one record: answers that record for
/// its username and `NotFound` for every other key, and is reliable — it
/// never fails for storage reasons. This is the test double that stands in
/// for a live store.
pub struct FixedRepository {
    pub user: Users,
}

impl FixedRepository {
    pub fn new(username: String, password: String) -> (r: FixedRepository)
        ensures
            r.store() == Map::<Seq<char>, Seq<char>>::empty().insert(username@, password@),
    {
        FixedRepository { user: Users { username, password } }
    }
}

impl UserRepository for FixedRepository {
    open spec fn store(&self) -> Map<Seq<char>, Seq<char>> {
        Map::<Seq<char>, Seq<char>>::empty().insert(self.user.username@, self.user.password@)
    }

    open spec fn reliable(&self) -> bool {
        true
    }

    fn find_by_username(&mut self, username: &str) -> (r: Result<Users, LookupError>)
        ensures
            username@ == old(self).user.username@ ==> (r matches Ok(u) && u.username@ == old(
                self,
            ).user.username@ && u.password@ == old(self).user.password@),
            username@ != old(self).user.username@ ==> r matches Err(LookupError::NotFound),
    {
        if self.user.username == username.to_owned() {
            Ok(
                Users {
                    username: self.user.username.clone(),
                    password: self.user.password.clone(),
                },
            )
        } else {
            Err(LookupError::NotFound)
        }
    }
}

/// Decides a login from the submitted credentials and the store's answer:
/// success exactly when a record came back and its stored password equals
/// the submitted one; an absent key, a store failure and a password mismatch
/// all collapse into the one rejection reason `Not Found`.
pub fn verify_lookup(submitted: &Credentials, lookup: Result<Users, LookupError>) -> (outcome:
    VerificationOutcome)
    ensures
        outcome is Success <==> (lookup matches Ok(u) && u.password@ == submitted.password@),
        outcome matches VerificationOutcome::Failure(m) ==> m@ == "Not Found"@,
        lookup_decides(*submitted, lookup, outcome),
{
    match lookup {
        Ok(user) => {
            if user.password == submitted.password {
                VerificationOutcome::Success
            } else {
                VerificationOutcome::Failure("Not Found".to_owned())
            }
        },
        Err(_) => VerificationOutcome::Failure("Not Found".to_owned()),
    }
}

/// Decides the service's login answer from the store's answer alone: a
/// found record answers the password comparison, and any lookup error —
/// absent key or storage failure — is handed on as a failed login.
pub fn login_from_lookup(form: &LoginForm, lookup: Result<Users, LookupError>) -> (r: Result<
    bool,
    (),
>)
    ensures
        r is Ok <==> lookup is Ok,
        lookup matches Ok(u) ==> (r matches Ok(matched) && (matched <==> u.password@
            == form.password@)),
        lookup is Err ==> r is Err,
{
    match lookup {
        Ok(user) => Ok(user.password == form.password),
        Err(_) => Err(()),
    }
}

/// What the service login's contract admits against a repository with the
/// store contents `store` and reliability `reliable`: a reported comparison
/// is the stored-password comparison, an unknown username never logs in,
/// and a reliable store owes an answer for every key.
pub open spec fn service_login_decides(
    store: Map<Seq<char>, Seq<char>>,
    reliable: bool,
    username: Seq<char>,
    password: Seq<char>,
    r: Result<bool, ()>,
) -> bool {
    &&& (r matches Ok(matched) ==> store.contains_key(username) && (matched <==> store[username]
        == password))
    &&& (!store.contains_key(username) ==> r is Err)
    &&& (reliable ==> (r is Ok <==> store.contains_key(username)))
}

/// What the service verifier's contract admits against a repository with
/// the store contents `store` and reliability `reliable`: success only for
/// the stored password under the submitted username, rejections read
/// `Not Found`, and against a reliable store the outcome is exactly the
/// stored-password comparison.
pub open spec fn service_verify_decides(
    store: Map<Seq<char>, Seq<char>>,
    reliable: bool,
    username: Seq<char>,
    password: Seq<char>,
    outcome: VerificationOutcome,
) -> bool {
    &&& (outcome is Success ==> store.contains_key(username) && store[username] == password)
    &&& (outcome matches VerificationOutcome::Failure(m) ==> m@ == "Not Found"@)
    &&& (reliable ==> (outcome is Success <==> (store.contains_key(username) && store[username]
        == password)))
}

/// The login service over a swappable repository.
pub struct UserService<R: UserRepository> {
    pub user_repository: R,
}

impl<R: UserRepository> UserService<R> {
    pub fn new(user_repository: R) -> (s: Self)
        ensures
            s.user_repository == user_repository,
    {
        Self { user_repository }
    }

    /// Looks the form's username up and hands the store's answer to
    /// `login_from_lookup`: `Ok(matched)` reports the stored-password
    /// comparison for a found record, a failed lookup (absent key or store
    /// failure) is `Err`. Against a reliable repository a present username
    /// always gets its comparison — so the stored pair logs in, and only
    /// it.
    pub fn login(&mut self, login_form: &LoginForm) -> (r: Result<bool, ()>)
        ensures
            final(self).user_repository.store() == old(self).user_repository.store(),
            final(self).user_repository.reliable() == old(self).user_repository.reliable(),
            r matches Ok(matched) ==> old(self).user_repository.store().contains_key(
                login_form.username@,
            ) && (matched <==> old(self).user_repository.store()[login_form.username@]
                == login_form.password@),
            !old(self).user_repository.store().contains_key(login_form.username@) ==> r is Err,
            old(self).user_repository.reliable() ==> (r is Ok
                <==> old(self).user_repository.store().contains_key(login_form.username@)),
            service_login_decides(
                old(self).user_repository.store(),
                old(self).user_repository.reliable(),
                login_form.username@,
                login_form.password@,
                r,
            ),
    {
        let lookup = self.user_repository.find_by_username(login_form.username.as_str());
        login_from_lookup(login_form, lookup)
    }

    /// The store-backed credential verifier: success only for a submitted
    /// password equal to the one stored under the submitted username; an
    /// unknown username is always rejected; every rejection reads
    /// `Not Found`. Against a reliable repository the outcome is exactly
    /// the stored-password comparison; an unreliable store may reject even
    /// a matching pair.
    pub fn verify(&mut self, submitted: &Credentials) -> (outcome: VerificationOutcome)
        ensures
            final(self).user_repository.store() == old(self).user_repository.store(),
            final(self).user_repository.reliable() == old(self).user_repository.reliable(),
            outcome is Success ==> old(self).user_repository.store().contains_key(
                submitted.username@,
            ) && old(self).user_repository.store()[submitted.username@] == submitted.password@,
            !old(self).user_repository.store().contains_key(submitted.username@) ==> !(outcome
                is Success),
            outcome matches VerificationOutcome::Failure(m) ==> m@ == "Not Found"@,
            old(self).user_repository.reliable() ==> (outcome is Success <==> (old(
                self,
            ).user_repository.store().contains_key(submitted.username@) && old(
                self,
            ).user_repository.store()[submitted.username@] == submitted.password@)),
            service_verify_decides(
                old(self).user_repository.store(),
                old(self).user_repository.reliable(),
                submitted.username@,
                submitted.password@,
                outcome,
            ),
    {
        let lookup = self.user_repository.find_by_username(submitted.username.as_str());
        verify_lookup(submitted, lookup)
    }
}

/// Two lookup results agree: same branch, equal record fields or equal
/// errors.
pub open spec fn lookup_equiv(a: Result<Users, LookupError>, b: Result<Users, LookupError>) -> bool {
    match (a, b) {
        (Ok(u1), Ok(u2)) => u1.username@ == u2.username@ && u1.password@ == u2.password@,
        (Err(e1), Err(e2)) => e1 == e2,
        _ => false,
    }
}

/// A repository read is deterministic while the store is unchanged: two
/// lookups of the same key against the same store contents that both meet
/// the repository contract agree, unless one reports a store failure.
pub proof fn lemma_lookup_deterministic(
    store: Map<Seq<char>, Seq<char>>,
    username: Seq<char>,
    l1: Result<Users, LookupError>,
    l2: Result<Users, LookupError>,
)
    requires
        repository_lookup_admits(store, username, l1),
        repository_lookup_admits(store, username, l2),
        !(l1 matches Err(LookupError::Storage)),
        !(l2 matches Err(LookupError::Storage)),
    ensures
        lookup_equiv(l1, l2),
{
}

/// What `verify_lookup`'s contract admits as an outcome for the given
/// credentials and lookup answer.
pub open spec fn lookup_decides(
    submitted: Credentials,
    lookup: Result<Users, LookupError>,
    outcome: VerificationOutcome,
) -> bool {
    &&& (outcome is Success <==> (lookup matches Ok(u) && u.password@ == submitted.password@))
    &&& (outcome matches VerificationOutcome::Failure(m) ==> m@ == "Not Found"@)
}

/// Against a reliable repository the service login is an idempotent read:
/// any two answers its contract admits for the same form and the same
/// store contents are equal.
pub proof fn lemma_service_login_deterministic(
    store: Map<Seq<char>, Seq<char>>,
    username: Seq<char>,
    password: Seq<char>,
    r1: Result<bool, ()>,
    r2: Result<bool, ()>,
)
    requires
        service_login_decides(store, true, username, password, r1),
        service_login_decides(store, true, username, password, r2),
    ensures
        r1 == r2,
{
    match (r1, r2) {
        (Ok(m1), Ok(m2)) => {
            assert(m1 == m2);
        },
        (Err(e1), Err(e2)) => {
            assert(e1 == e2);
        },
        _ => {
            assert(false);
        },
    }
}

/// Against a reliable repository the service verifier is an idempotent
/// read: any two outcomes its contract admits for the same credentials and
/// the same store contents agree.
pub proof fn lemma_service_verify_deterministic(
    store: Map<Seq<char>, Seq<char>>,
    username: Seq<char>,
    password: Seq<char>,
    o1: VerificationOutcome,
    o2: VerificationOutcome,
)
    requires
        service_verify_decides(store, true, username, password, o1),
        service_verify_decides(store, true, username, password, o2),
    ensures
        outcome_equiv(o1, o2),
{
}

/// The store-backed decision is a pure function of the submitted characters
/// and the lookup answer: any two outcomes the decision contract admits for
/// equal inputs agree.
pub proof fn lemma_verify_lookup_pure(
    c1: Credentials,
    c2: Credentials,
    l1: Result<Users, LookupError>,
    l2: Result<Users, LookupError>,
    r1: VerificationOutcome,
    r2: VerificationOutcome,
)
    requires
        c1.password@ == c2.password@,
        lookup_equiv(l1, l2),
        lookup_decides(c1, l1, r1),
        lookup_decides(c2, l2, r2),
    ensures
        outcome_equiv(r1, r2),
{
}

} // verus!
