//! Reconciling an identity asserted by the provider with a local user record.

use vstd::prelude::*;
use vstd::string::*;
use crate::sso::SsoError;

verus! {

/// What the provider asserts about the user after a successful callback.
#[derive(Debug, Clone)]
pub struct ExternalIdentity {
    /// The provider's stable identifier of the user.
    pub subject: String,
    pub email: Option<String>,
    pub preferred_username: Option<String>,
    pub name: Option<String>,
}

/// The pair from which a provider-linked local identifier is derived.
#[derive(Debug, Clone)]
pub struct SSOData {
    pub provider_id: String,
    pub sub: String,
}

/// One criterion of the user-store lookup; a user matches a list of them when it
/// matches any.
#[derive(Debug, Clone)]
pub enum FindUserOption {
    Id(String),
    Email(String),
    Username(String),
}

/// The fields of a user record to be created.
#[derive(Debug, Clone)]
pub struct CreateUserOptions {
    pub email: String,
    pub username: String,
    pub name: Option<String>,
}

/// A local user record; `created_at` is in seconds since the Unix epoch.
#[derive(Debug, Clone)]
pub struct UserModel {
    pub id: String,
    pub username: String,
    pub email: String,
    pub created_at: i64,
    pub name: Option<String>,
}

/// The 64-bit digest that std's default hasher gives for the pair (provider, subject).
pub uninterp spec fn subject_hash(provider: Seq<char>, sub: Seq<char>) -> u64;

/// Relies on std's `BuildHasher::hash_one` with the default hasher: every hasher made
/// by `DefaultHasher::new` starts from the same keys, so the digest of the tuple
/// (provider, subject) depends on the two strings alone.
#[verifier::external_body]
fn hash_subject(provider: &str, sub: &str) -> (r: u64)
    ensures
        r == subject_hash(provider@, sub@),
{
    std::hash::BuildHasher::hash_one(&std::hash::BuildHasherDefault::<std::hash::DefaultHasher>::default(), (provider, sub))
}

pub open spec fn is_lower_hex_digit(c: char) -> bool {
    ('0' <= c && c <= '9') || ('a' <= c && c <= 'f')
}

/// A version-4 UUID of the RFC 4122 variant in lower-case hyphenated form:
/// `xxxxxxxx-xxxx-4xxx-Yxxx-xxxxxxxxxxxx`, where `Y` is one of `8`, `9`, `a`, `b`.
pub open spec fn is_uuid_v4_text(s: Seq<char>) -> bool {
    &&& s.len() == 36
    &&& forall|i: int| 0 <= i < 36 ==> (if i == 8 || i == 13 || i == 18 || i == 23 {
        #[trigger] s[i] == '-'
    } else {
        is_lower_hex_digit(s[i])
    })
    &&& s[14] == '4'
    &&& (s[19] == '8' || s[19] == '9' || s[19] == 'a' || s[19] == 'b')
}

/// Relies on uuid's `Uuid::new_v4`, which sets the version nibble to 4 and the variant
/// bits to `10`, and on its `Display`, the lower-case hyphenated form.
#[verifier::external_body]
fn new_uuid_v4() -> (r: String)
    ensures
        is_uuid_v4_text(r@),
{
    uuid::Uuid::new_v4().to_string()
}

pub open spec fn hex_alphabet() -> Seq<char> {
    seq!['0', '1', '2', '3', '4', '5', '6', '7', '8', '9', 'a', 'b', 'c', 'd', 'e', 'f']
}

/// `n` in lower-case hexadecimal, without leading zeros.
pub open spec fn hex_of(n: nat) -> Seq<char>
    decreases n,
{
    if n < 16 {
        seq![hex_alphabet()[n as int]]
    } else {
        hex_of(n / 16).push(hex_alphabet()[(n % 16) as int])
    }
}

/// The local identifier of a provider-linked user.
pub open spec fn local_handle(provider: Seq<char>, sub: Seq<char>) -> Seq<char> {
    hex_of(subject_hash(provider, sub) as nat)
}

fn hex_digit(d: u64) -> (r: &'static str)
    requires
        d < 16,
    ensures
        r@ == seq![hex_alphabet()[d as int]],
{
    proof {
        reveal_strlit("0"); reveal_strlit("1"); reveal_strlit("2"); reveal_strlit("3");
        reveal_strlit("4"); reveal_strlit("5"); reveal_strlit("6"); reveal_strlit("7");
        reveal_strlit("8"); reveal_strlit("9"); reveal_strlit("a"); reveal_strlit("b");
        reveal_strlit("c"); reveal_strlit("d"); reveal_strlit("e"); reveal_strlit("f");
    }
    match d {
        0 => "0", 1 => "1", 2 => "2", 3 => "3", 4 => "4", 5 => "5", 6 => "6", 7 => "7",
        8 => "8", 9 => "9", 10 => "a", 11 => "b", 12 => "c", 13 => "d", 14 => "e", _ => "f",
    }
}

fn push_hex(out: &mut String, n: u64)
    ensures
        final(out)@ == old(out)@ + hex_of(n as nat),
    decreases n,
{
    if n >= 16 {
        push_hex(out, n / 16);
    }
    out.append(hex_digit(n % 16));
    assert(hex_of(n as nat) == if n < 16 { seq![hex_alphabet()[n as int]] } else {
        hex_of((n / 16) as nat).push(hex_alphabet()[(n % 16) as int])
    });
}

/// `n` in lower-case hexadecimal, without leading zeros.
pub fn to_hex(n: u64) -> (r: String)
    ensures
        r@ == hex_of(n as nat),
{
    let mut out = String::new();
    push_hex(&mut out, n);
    out
}

/// The local identifier of a user: derived from (provider, subject) for a
/// provider-linked user, so the same pair always gives the same identifier; a random
/// UUID for a local account.
pub fn generate_id(sso_data: Option<SSOData>) -> (r: String)
    ensures
        sso_data matches Some(d) ==> r@ == local_handle(d.provider_id@, d.sub@),
        sso_data is None ==> is_uuid_v4_text(r@),
{
    match sso_data {
        Some(d) => to_hex(hash_subject(d.provider_id.as_str(), d.sub.as_str())),
        None => new_uuid_v4(),
    }
}

/// The user-store lookup for one login: the derived handle, the required claims, and
/// the criteria `[Id(handle), Email(email), Username(username)]`.
#[derive(Debug, Clone)]
pub struct LookupPlan {
    pub handle: String,
    pub email: String,
    pub username: String,
    pub options: Vec<FindUserOption>,
}

/// What a login resolves to: an account found in the store, or one to be created.
#[derive(Debug, Clone)]
pub enum Resolution {
    Existing(UserModel),
    Create { id: String, user: CreateUserOptions },
}

pub open spec fn lookup_options(handle: String, email: String, username: String) -> Seq<FindUserOption> {
    seq![FindUserOption::Id(handle), FindUserOption::Email(email), FindUserOption::Username(username)]
}

/// Derives the handle and the lookup for `identity`; both the email and the preferred
/// username are required.
pub fn plan_lookup(identity: &ExternalIdentity, provider_id: &String) -> (r: Result<LookupPlan, SsoError>)
    ensures
        r is Err <==> (identity.email is None || identity.preferred_username is None),
        r matches Err(e) ==> e == SsoError::MissingRequiredClaim,
        r matches Ok(p) ==> {
            &&& p.handle@ == local_handle(provider_id@, identity.subject@)
            &&& identity.email == Some(p.email)
            &&& identity.preferred_username == Some(p.username)
            &&& p.options@ == lookup_options(p.handle, p.email, p.username)
        },
{
    let email = match &identity.email {
        Some(e) => e.clone(),
        None => return Err(SsoError::MissingRequiredClaim),
    };
    let username = match &identity.preferred_username {
        Some(u) => u.clone(),
        None => return Err(SsoError::MissingRequiredClaim),
    };
    let handle = generate_id(Some(SSOData { provider_id: provider_id.clone(), sub: identity.subject.clone() }));
    let mut options: Vec<FindUserOption> = Vec::new();
    options.push(FindUserOption::Id(handle.clone()));
    options.push(FindUserOption::Email(email.clone()));
    options.push(FindUserOption::Username(username.clone()));
    assert(options@ == lookup_options(handle, email, username));
    Ok(LookupPlan { handle, email, username, options })
}

/// The display name of a new account: the claimed name, else the subject.
pub open spec fn display_name(identity: ExternalIdentity) -> String {
    match identity.name {
        Some(n) => n,
        None => identity.subject,
    }
}

/// How a login resolves given what the lookup found.
pub open spec fn resolution_of(found: Option<UserModel>, plan: LookupPlan, identity: ExternalIdentity, create_account: bool) -> Result<Resolution, SsoError> {
    match found {
        Some(u) => Ok(Resolution::Existing(u)),
        None => if create_account {
            Ok(Resolution::Create {
                id: plan.handle,
                user: CreateUserOptions { email: plan.email, username: plan.username, name: Some(display_name(identity)) },
            })
        } else {
            Err(SsoError::AccountCreationDisabled)
        },
    }
}

/// Decides a login from the lookup's result: a found account is used as it is; else a
/// new one is created under the handle, if account creation is allowed.
pub fn resolve_user(found: Option<UserModel>, plan: LookupPlan, identity: &ExternalIdentity, create_account: bool) -> (r: Result<Resolution, SsoError>)
    ensures
        r == resolution_of(found, plan, *identity, create_account),
{
    match found {
        Some(u) => Ok(Resolution::Existing(u)),
        None => {
            if create_account {
                let name = match &identity.name {
                    Some(n) => n.clone(),
                    None => identity.subject.clone(),
                };
                Ok(Resolution::Create {
                    id: plan.handle,
                    user: CreateUserOptions { email: plan.email, username: plan.username, name: Some(name) },
                })
            } else {
                Err(SsoError::AccountCreationDisabled)
            }
        },
    }
}

/// The record that the store holds after creating `user` under `id` at `created_at`.
pub open spec fn created_record(id: String, user: CreateUserOptions, created_at: i64) -> UserModel {
    UserModel { id, username: user.username, email: user.email, created_at, name: user.name }
}

pub open spec fn matches_option(u: UserModel, o: FindUserOption) -> bool {
    match o {
        FindUserOption::Id(id) => u.id@ == id@,
        FindUserOption::Email(e) => u.email@ == e@,
        FindUserOption::Username(n) => u.username@ == n@,
    }
}

pub open spec fn matches_any(u: UserModel, opts: Seq<FindUserOption>) -> bool {
    exists|i: int| 0 <= i < opts.len() && matches_option(u, #[trigger] opts[i])
}

/// What the user store's lookup returns: the first record, in store order, that
/// matches any of the criteria.
pub open spec fn store_find(users: Seq<UserModel>, opts: Seq<FindUserOption>) -> Option<UserModel>
    decreases users.len(),
{
    if users.len() == 0 {
        None
    } else if matches_any(users[0], opts) {
        Some(users[0])
    } else {
        store_find(users.drop_first(), opts)
    }
}

proof fn lemma_store_find_push(users: Seq<UserModel>, u: UserModel, opts: Seq<FindUserOption>)
    ensures
        store_find(users.push(u), opts) == (match store_find(users, opts) {
            Some(f) => Some(f),
            None => if matches_any(u, opts) { Some(u) } else { None },
        }),
    decreases users.len(),
{
    if users.len() > 0 {
        assert(users.push(u).drop_first() == users.drop_first().push(u));
        lemma_store_find_push(users.drop_first(), u, opts);
    } else {
        assert(users.push(u).drop_first() == users);
    }
}

/// Re-login is idempotent: two logins with the same (provider, subject) derive the same
/// handle. When the first one created an account, the second one finds an account and
/// creates none. When the claims are also the same, it finds the account the first
/// one created.
pub proof fn lemma_relogin_idempotent(
    users: Seq<UserModel>,
    first: ExternalIdentity,
    second: ExternalIdentity,
    plan1: LookupPlan,
    plan2: LookupPlan,
    provider_id: Seq<char>,
    create_account: bool,
    created_at: i64,
)
    requires
        first.subject@ == second.subject@,
        plan1.handle@ == local_handle(provider_id, first.subject@),
        plan2.handle@ == local_handle(provider_id, second.subject@),
        plan1.options@ == lookup_options(plan1.handle, plan1.email, plan1.username),
        plan2.options@ == lookup_options(plan2.handle, plan2.email, plan2.username),
    ensures
        plan1.handle@ == plan2.handle@,
        resolution_of(store_find(users, plan1.options@), plan1, first, create_account) matches Ok(Resolution::Create { id, user })
            ==> {
                let after = users.push(created_record(id, user, created_at));
                &&& resolution_of(store_find(after, plan2.options@), plan2, second, create_account) is Ok
                &&& resolution_of(store_find(after, plan2.options@), plan2, second, create_account)->Ok_0 is Existing
                &&& (plan2.email@ == plan1.email@ && plan2.username@ == plan1.username@) ==>
                    resolution_of(store_find(after, plan2.options@), plan2, second, create_account)
                        == Ok::<Resolution, SsoError>(Resolution::Existing(created_record(id, user, created_at)))
            },
{
    if let Ok(Resolution::Create { id, user }) = resolution_of(store_find(users, plan1.options@), plan1, first, create_account) {
        let rec = created_record(id, user, created_at);
        lemma_store_find_push(users, rec, plan2.options@);
        assert(matches_option(rec, plan2.options@[0]));
        assert(matches_any(rec, plan2.options@));
        if plan2.email@ == plan1.email@ && plan2.username@ == plan1.username@ {
            assert forall|u: UserModel| matches_any(u, plan2.options@) == matches_any(u, plan1.options@) by {
                if matches_any(u, plan2.options@) {
                    let i = choose|i: int| 0 <= i < plan2.options@.len() && matches_option(u, #[trigger] plan2.options@[i]);
                    assert(matches_option(u, plan1.options@[i]));
                }
                if matches_any(u, plan1.options@) {
                    let i = choose|i: int| 0 <= i < plan1.options@.len() && matches_option(u, #[trigger] plan1.options@[i]);
                    assert(matches_option(u, plan2.options@[i]));
                }
            }
            lemma_store_find_same_matches(users, plan1.options@, plan2.options@);
        }
    }
}

proof fn lemma_store_find_same_matches(users: Seq<UserModel>, a: Seq<FindUserOption>, b: Seq<FindUserOption>)
    requires
        forall|u: UserModel| matches_any(u, b) == matches_any(u, a),
    ensures
        store_find(users, a) == store_find(users, b),
    decreases users.len(),
{
    if users.len() > 0 {
        lemma_store_find_same_matches(users.drop_first(), a, b);
    }
}

/// With account creation disabled, a login that the store cannot match fails and
/// names nothing to create.
pub proof fn lemma_no_match_without_creation(plan: LookupPlan, identity: ExternalIdentity)
    ensures
        resolution_of(None, plan, identity, false) == Err::<Resolution, SsoError>(SsoError::AccountCreationDisabled),
{
}

} // verus!
