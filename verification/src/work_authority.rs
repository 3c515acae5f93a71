//! Narrow authority for local agents: each grant lets the bearer of one token report for one
//! attempt, and at most one of them coordinate its task.
use vstd::utf8::encode_utf8;
use vstd::utf8::is_ascii_chars;
use vstd::prelude::*;
use crate::digest::bytes_digest;
use crate::digest::id_bytes;
use crate::digest::is_uuid;
use crate::digest::new_id;
use crate::digest::sha256_hex;
use crate::digest::uuid_text;
use crate::json::decimal;
use crate::json::decimal_text;
use crate::json::digit;
use crate::text::byte_len;
use crate::text::bytes_in;
use crate::text::text_eq;
use crate::value::Replica;
use crate::value::Same;
use crate::value::Text;
use crate::value::add_row;
use crate::value::no_items;
use crate::value::set_row;
use crate::value::shown;
use crate::work::model::DelegationFence;
use crate::work::model::DelegationFenceModel;
use crate::work::model::FailureCode;
use crate::work::model::WorkError;
use crate::work::model::WorkResult;
use crate::work::store::records::refuse;
use crate::work::store::records::refused;

pub mod keeping;

verus! {

broadcast use vstd::string::group_string_axioms;

/// How many grants may be out at once.
pub const MAX_GRANTS: usize = 256;

/// How long a grant lasts, in milliseconds.
pub const MAX_LIFETIME_MS: i64 = 86_400_000;

/// The bytes that a token spells out.
pub const TOKEN_BYTES: usize = 32;

/// The one attempt that a grant speaks for.
#[derive(Debug, PartialEq, Eq)]
pub struct Scope {
    pub session_id: String,
    pub task_id: String,
    pub attempt_id: String,
}

/// The value of a `Scope`.
#[verifier::ext_equal]
pub struct ScopeModel {
    pub session_id: Text,
    pub task_id: Text,
    pub attempt_id: Text,
}

impl DeepView for Scope {
    type V = ScopeModel;

    open spec fn deep_view(&self) -> ScopeModel {
        ScopeModel {
            session_id: self.session_id.deep_view(),
            task_id: self.task_id.deep_view(),
            attempt_id: self.attempt_id.deep_view(),
        }
    }
}

impl Replica for Scope {
    fn replica(&self) -> (res: Self) {
        Scope {
            session_id: self.session_id.replica(),
            task_id: self.task_id.replica(),
            attempt_id: self.attempt_id.replica(),
        }
    }
}

impl Clone for Scope {
    fn clone(&self) -> (res: Self)
        ensures
            res.deep_view() == self.deep_view(),
    {
        self.replica()
    }
}

impl Same for Scope {
    fn same(&self, other: &Self) -> (res: bool) {
        self.session_id.same(&other.session_id)
            && self.task_id.same(&other.task_id)
            && self.attempt_id.same(&other.attempt_id)
    }
}

/// A token that was handed out, known only by its digest.
#[derive(Debug)]
pub struct Grant {
    pub id: String,
    pub scope: Scope,
    pub hash: String,
    pub expires_at_ms: i64,
    pub context_file: String,
    pub delegation: Option<DelegationFence>,
}

/// The value of a `Grant`.
#[verifier::ext_equal]
pub struct GrantModel {
    pub id: Text,
    pub scope: ScopeModel,
    pub hash: Text,
    pub expires_at_ms: i64,
    pub context_file: Text,
    pub delegation: Option<DelegationFenceModel>,
}

impl DeepView for Grant {
    type V = GrantModel;

    open spec fn deep_view(&self) -> GrantModel {
        GrantModel {
            id: self.id.deep_view(),
            scope: self.scope.deep_view(),
            hash: self.hash.deep_view(),
            expires_at_ms: self.expires_at_ms,
            context_file: self.context_file.deep_view(),
            delegation: self.delegation.deep_view(),
        }
    }
}

/// Leave to make one grant the coordinator of its task. It cannot be made from a caller's words and
/// is good only while the registry is held.
#[derive(Debug)]
pub struct ActivationPermit {
    grant_id: String,
    scope: Scope,
}

/// The value of an `ActivationPermit`.
#[verifier::ext_equal]
pub struct ActivationPermitModel {
    pub grant_id: Text,
    pub scope: ScopeModel,
}

impl DeepView for ActivationPermit {
    type V = ActivationPermitModel;

    closed spec fn deep_view(&self) -> ActivationPermitModel {
        ActivationPermitModel {
            grant_id: self.grant_id.deep_view(),
            scope: self.scope.deep_view(),
        }
    }
}

/// What the bearer of a coordinating grant may act as.
#[derive(Debug, PartialEq, Eq)]
pub struct DelegationAuthority {
    pub scope: Scope,
    pub fence: DelegationFence,
    pub actor_id: String,
}

/// The value of a `DelegationAuthority`.
#[verifier::ext_equal]
pub struct DelegationAuthorityModel {
    pub scope: ScopeModel,
    pub fence: DelegationFenceModel,
    pub actor_id: Text,
}

impl DeepView for DelegationAuthority {
    type V = DelegationAuthorityModel;

    open spec fn deep_view(&self) -> DelegationAuthorityModel {
        DelegationAuthorityModel {
            scope: self.scope.deep_view(),
            fence: self.fence.deep_view(),
            actor_id: self.actor_id.deep_view(),
        }
    }
}

impl Replica for DelegationAuthority {
    fn replica(&self) -> (res: Self) {
        DelegationAuthority {
            scope: self.scope.replica(),
            fence: self.fence.replica(),
            actor_id: self.actor_id.replica(),
        }
    }
}

impl Clone for DelegationAuthority {
    fn clone(&self) -> (res: Self)
        ensures
            res.deep_view() == self.deep_view(),
    {
        self.replica()
    }
}

/// What an agent is told of its grant, in a file that only its user can read.
#[derive(Debug, PartialEq, Eq)]
pub struct ContextFile {
    pub socket: String,
    pub token: String,
    pub scope: Scope,
    pub expires_at_ms: i64,
}

/// The value of a `ContextFile`.
#[verifier::ext_equal]
pub struct ContextFileModel {
    pub socket: Text,
    pub token: Text,
    pub scope: ScopeModel,
    pub expires_at_ms: i64,
}

impl DeepView for ContextFile {
    type V = ContextFileModel;

    open spec fn deep_view(&self) -> ContextFileModel {
        ContextFileModel {
            socket: self.socket.deep_view(),
            token: self.token.deep_view(),
            scope: self.scope.deep_view(),
            expires_at_ms: self.expires_at_ms,
        }
    }
}

/// A grant that was made, and the file that is to tell its agent.
#[derive(Debug, PartialEq, Eq)]
pub struct Issued {
    pub path: String,
    pub context: ContextFile,
}

/// The value of an `Issued`.
#[verifier::ext_equal]
pub struct IssuedModel {
    pub path: Text,
    pub context: ContextFileModel,
}

impl DeepView for Issued {
    type V = IssuedModel;

    open spec fn deep_view(&self) -> IssuedModel {
        IssuedModel {
            path: self.path.deep_view(),
            context: self.context.deep_view(),
        }
    }
}

/// The answer to a request for a grant, and the files of the grants that had run out by then.
#[derive(Debug)]
pub struct Issuance {
    pub stale: Vec<String>,
    pub issued: WorkResult<Issued>,
}

/// The grants that are out.
#[derive(Debug)]
pub struct Registry {
    grants: Vec<Grant>,
}

impl View for Registry {
    type V = Seq<GrantModel>;

    closed spec fn view(&self) -> Seq<GrantModel> {
        self.grants.deep_view()
    }
}

/// The digest by which a token is known.
pub open spec fn token_hash(token: Text) -> Text {
    sha256_hex(encode_utf8(token))
}

/// The hexadecimal digit of a number under sixteen.
pub open spec fn hex_digit(n: int) -> Text {
    if n < 10 {
        digit(n as nat)
    } else if n == 10 {
        "a"@
    } else if n == 11 {
        "b"@
    } else if n == 12 {
        "c"@
    } else if n == 13 {
        "d"@
    } else if n == 14 {
        "e"@
    } else {
        "f"@
    }
}

fn hex_digit_text(n: u8) -> (res: String)
    requires
        n < 16,
    ensures
        res@ == hex_digit(n as int),
{
    if n < 10 {
        decimal_text(n as u64)
    } else if n == 10 {
        "a".to_string()
    } else if n == 11 {
        "b".to_string()
    } else if n == 12 {
        "c".to_string()
    } else if n == 13 {
        "d".to_string()
    } else if n == 14 {
        "e".to_string()
    } else {
        "f".to_string()
    }
}

/// Bytes in lower-case hexadecimal, two digits each.
pub open spec fn hex(bytes: Seq<u8>) -> Text
    decreases bytes.len(),
{
    if bytes.len() == 0 {
        Seq::empty()
    } else {
        hex(bytes.drop_last()) + hex_digit(bytes.last() as int / 16) + hex_digit(
            bytes.last() as int % 16,
        )
    }
}

/// Whether a text is made of lower-case hexadecimal digits.
pub open spec fn is_hex(text: Text) -> bool {
    forall|i: int|
        0 <= i < text.len() ==> '0' <= (#[trigger] text[i]) <= '9' || 'a' <= text[i] <= 'f'
}

/// Writes bytes out in hexadecimal.
pub fn hex_text(bytes: &[u8]) -> (res: String)
    ensures
        res@ == hex(bytes@),
{
    let mut res = String::new();
    let mut i: usize = 0;
    while i < bytes.len()
        invariant
            i <= bytes.len(),
            res@ == hex(bytes@.take(i as int)),
        decreases bytes.len() - i,
    {
        res.append(hex_digit_text(bytes[i] / 16).as_str());
        res.append(hex_digit_text(bytes[i] % 16).as_str());
        assert(bytes@.take(i as int + 1).drop_last() =~= bytes@.take(i as int));
        i += 1;
    }
    assert(bytes@.take(bytes@.len() as int) =~= bytes@);
    res
}

/// Two digits for each byte.
pub proof fn hex_length(bytes: Seq<u8>)
    ensures
        hex(bytes).len() == 2 * bytes.len(),
        is_ascii_chars(hex(bytes)),
        is_hex(hex(bytes)),
    decreases bytes.len(),
{
    if bytes.len() > 0 {
        hex_length(bytes.drop_last());
        one_digit(bytes.last() as int / 16);
        one_digit(bytes.last() as int % 16);
    }
}

proof fn one_digit(n: int)
    requires
        0 <= n < 16,
    ensures
        hex_digit(n).len() == 1,
        is_ascii_chars(hex_digit(n)),
        is_hex(hex_digit(n)),
{
    reveal_strlit("0");
    reveal_strlit("1");
    reveal_strlit("2");
    reveal_strlit("3");
    reveal_strlit("4");
    reveal_strlit("5");
    reveal_strlit("6");
    reveal_strlit("7");
    reveal_strlit("8");
    reveal_strlit("9");
    reveal_strlit("a");
    reveal_strlit("b");
    reveal_strlit("c");
    reveal_strlit("d");
    reveal_strlit("e");
    reveal_strlit("f");
}

/// The bytes of an identifier that are left to chance: all but those that hold its version and
/// its variant.
pub open spec fn chance(id: Seq<u8>) -> Seq<u8> {
    id.subrange(0, 6) + id.subrange(7, 8) + id.subrange(9, 16)
}

/// The token that three identifiers make.
pub open spec fn token_of(a: Seq<u8>, b: Seq<u8>, c: Seq<u8>) -> Text {
    hex((chance(a) + chance(b) + chance(c)).take(TOKEN_BYTES as int))
}

fn push_chance(bytes: &mut Vec<u8>, id: &[u8; 16])
    ensures
        final(bytes)@ == old(bytes)@ + chance(id@),
{
    let mut i: usize = 0;
    while i < 16
        invariant
            i <= 16,
            id@.len() == 16,
            bytes@ == old(bytes)@ + (if i <= 6 {
                id@.subrange(0, i as int)
            } else if i <= 8 {
                id@.subrange(0, 6) + id@.subrange(7, i as int)
            } else {
                id@.subrange(0, 6) + id@.subrange(7, 8) + id@.subrange(9, i as int)
            }),
        decreases 16 - i,
    {
        if i != 6 && i != 8 {
            bytes.push(id[i]);
        }
        i += 1;
    }
}

/// Spells out a token from three identifiers.
pub fn token_from(a: &[u8; 16], b: &[u8; 16], c: &[u8; 16]) -> (res: String)
    ensures
        res@ == token_of(a@, b@, c@),
{
    let mut bytes: Vec<u8> = Vec::new();
    push_chance(&mut bytes, a);
    push_chance(&mut bytes, b);
    push_chance(&mut bytes, c);
    assert(bytes@ =~= chance(a@) + chance(b@) + chance(c@));
    bytes.truncate(TOKEN_BYTES);
    assert(bytes@ =~= (chance(a@) + chance(b@) + chance(c@)).take(TOKEN_BYTES as int));
    hex_text(bytes.as_slice())
}

/// A token has sixty-four bytes, each a hexadecimal digit.
pub proof fn token_length(a: Seq<u8>, b: Seq<u8>, c: Seq<u8>)
    requires
        a.len() == 16,
        b.len() == 16,
        c.len() == 16,
    ensures
        byte_len(token_of(a, b, c)) == 64,
        token_of(a, b, c).len() == 64,
        is_hex(token_of(a, b, c)),
{
    let bytes = (chance(a) + chance(b) + chance(c)).take(TOKEN_BYTES as int);
    hex_length(bytes);
    vstd::utf8::is_ascii_chars_encode_utf8(hex(bytes));
}

/// Whether two digests are the same. The time this takes does not depend on where they differ.
fn same_digest(a: &str, b: &str) -> (res: bool)
    ensures
        res == (a@ == b@),
{
    let x = a.as_bytes();
    let y = b.as_bytes();
    if x.len() != y.len() {
        return false;
    }
    let mut difference: u8 = 0;
    let mut i: usize = 0;
    assert(x@.take(0) =~= y@.take(0));
    while i < x.len()
        invariant
            i <= x.len(),
            x.len() == y.len(),
            difference == 0 <==> x@.take(i as int) == y@.take(i as int),
        decreases x.len() - i,
    {
        let (d, p, q): (u8, u8, u8) = (difference, x[i], y[i]);
        assert((d | (p ^ q)) == 0 <==> d == 0 && p == q) by (bit_vector);
        difference = d | (p ^ q);
        proof {
            assert(x@.take(i as int + 1) =~= x@.take(i as int).push(p));
            assert(y@.take(i as int + 1) =~= y@.take(i as int).push(q));
            if x@.take(i as int + 1) == y@.take(i as int + 1) {
                assert(x@.take(i as int + 1).drop_last() =~= x@.take(i as int));
                assert(y@.take(i as int + 1).drop_last() =~= y@.take(i as int));
                assert(x@.take(i as int + 1).last() == p);
                assert(y@.take(i as int + 1).last() == q);
            }
        }
        i += 1;
    }
    proof {
        assert(x@.take(x@.len() as int) =~= x@);
        assert(y@.take(y@.len() as int) =~= y@);
        vstd::utf8::encode_utf8_decode_utf8(a@);
        vstd::utf8::encode_utf8_decode_utf8(b@);
    }
    difference == 0
}

/// The grant whose token has a digest, while it lasts: the latest, should there be two.
pub open spec fn bearer(grants: Seq<GrantModel>, hash: Text, now: i64) -> Option<int>
    decreases grants.len(),
{
    if grants.len() == 0 {
        None
    } else if grants.last().hash == hash && grants.last().expires_at_ms > now {
        Some(grants.len() - 1)
    } else {
        bearer(grants.drop_last(), hash, now)
    }
}

/// The scope of the bearer of a token.
pub open spec fn identified(grants: Seq<GrantModel>, token: Text, now: i64) -> WorkResult<
    ScopeModel,
> {
    if byte_len(token) != 64 {
        refused(FailureCode::ScopeMismatch)
    } else {
        match bearer(grants, token_hash(token), now) {
            Some(i) => Ok(grants[i].scope),
            None => refused(FailureCode::ScopeMismatch),
        }
    }
}

/// The first grant for a scope that still lasts.
pub open spec fn holder(grants: Seq<GrantModel>, scope: ScopeModel, now: i64) -> Option<int>
    decreases grants.len(),
{
    if grants.len() == 0 {
        None
    } else {
        match holder(grants.drop_last(), scope, now) {
            Some(i) => Some(i),
            None => if grants.last().scope == scope && grants.last().expires_at_ms > now {
                Some(grants.len() - 1)
            } else {
                None
            },
        }
    }
}

/// The grant under an identifier.
pub open spec fn grant_at(grants: Seq<GrantModel>, id: Text) -> Option<int>
    decreases grants.len(),
{
    if grants.len() == 0 {
        None
    } else {
        match grant_at(grants.drop_last(), id) {
            Some(i) => Some(i),
            None => if grants.last().id == id {
                Some(grants.len() - 1)
            } else {
                None
            },
        }
    }
}

/// The grants that still last.
pub open spec fn lasting(grants: Seq<GrantModel>, now: i64) -> Seq<GrantModel>
    decreases grants.len(),
{
    if grants.len() == 0 {
        Seq::empty()
    } else if grants.last().expires_at_ms <= now {
        lasting(grants.drop_last(), now)
    } else {
        lasting(grants.drop_last(), now).push(grants.last())
    }
}

/// The files of the grants that have run out.
pub open spec fn stale_files(grants: Seq<GrantModel>, now: i64) -> Seq<Text>
    decreases grants.len(),
{
    if grants.len() == 0 {
        Seq::empty()
    } else if grants.last().expires_at_ms <= now {
        stale_files(grants.drop_last(), now).push(grants.last().context_file)
    } else {
        stale_files(grants.drop_last(), now)
    }
}

/// The grants for every other scope.
pub open spec fn without(grants: Seq<GrantModel>, scope: ScopeModel) -> Seq<GrantModel>
    decreases grants.len(),
{
    if grants.len() == 0 {
        Seq::empty()
    } else if grants.last().scope == scope {
        without(grants.drop_last(), scope)
    } else {
        without(grants.drop_last(), scope).push(grants.last())
    }
}

/// The files of the grants for a scope.
pub open spec fn files_of(grants: Seq<GrantModel>, scope: ScopeModel) -> Seq<Text>
    decreases grants.len(),
{
    if grants.len() == 0 {
        Seq::empty()
    } else if grants.last().scope == scope {
        files_of(grants.drop_last(), scope).push(grants.last().context_file)
    } else {
        files_of(grants.drop_last(), scope)
    }
}

/// A grant that reports but does not coordinate.
pub open spec fn reporting(grant: GrantModel) -> GrantModel {
    GrantModel { delegation: None, ..grant }
}

/// A grant for an attempt of a task.
pub open spec fn serves(grant: GrantModel, session: Text, task_id: Text) -> bool {
    grant.scope.session_id == session && grant.scope.task_id == task_id
}

/// The grants once nobody coordinates a task.
pub open spec fn cleared(grants: Seq<GrantModel>, session: Text, task_id: Text) -> Seq<GrantModel> {
    Seq::new(
        grants.len(),
        |i: int|
            if serves(grants[i], session, task_id) {
                reporting(grants[i])
            } else {
                grants[i]
            },
    )
}

/// A grant holds exactly this fence.
pub open spec fn fenced(grant: GrantModel, scope: ScopeModel, fence: DelegationFenceModel) -> bool {
    grant.scope == scope && grant.delegation == Some(fence)
}

/// The grants once one generation of a coordinator is known to be gone.
pub open spec fn invalidated(
    grants: Seq<GrantModel>,
    scope: ScopeModel,
    fence: DelegationFenceModel,
) -> Seq<GrantModel> {
    Seq::new(
        grants.len(),
        |i: int|
            if fenced(grants[i], scope, fence) {
                reporting(grants[i])
            } else {
                grants[i]
            },
    )
}

/// A grant coordinates a task in a later epoch.
pub open spec fn outranks(grant: GrantModel, session: Text, task_id: Text, epoch: u64) -> bool {
    serves(grant, session, task_id) && grant.delegation is Some
        && grant.delegation->0.coordinator_epoch > epoch
}

/// Some grant coordinates a task in a later epoch.
pub open spec fn superseded(
    grants: Seq<GrantModel>,
    session: Text,
    task_id: Text,
    epoch: u64,
) -> bool {
    exists|k: int|
        0 <= k < grants.len() && #[trigger] outranks(grants[k], session, task_id, epoch)
}

/// The grants once a permit is used: nothing changes unless the permit still names its grant, the
/// fence is its own and no later epoch is in force.
pub open spec fn activated(
    grants: Seq<GrantModel>,
    permit: ActivationPermitModel,
    fence: DelegationFenceModel,
) -> Seq<GrantModel> {
    let session = permit.scope.session_id;
    let task_id = permit.scope.task_id;
    if task_id != fence.coordinator_task_id || permit.scope.attempt_id
        != fence.coordinator_attempt_id {
        grants
    } else {
        match grant_at(grants, permit.grant_id) {
            None => grants,
            Some(i) => if grants[i].scope != permit.scope || superseded(
                grants,
                session,
                task_id,
                fence.coordinator_epoch,
            ) {
                grants
            } else {
                cleared(grants, session, task_id).update(
                    i,
                    GrantModel { delegation: Some(fence), ..grants[i] },
                )
            },
        }
    }
}

/// The name under which a coordinator acts.
pub open spec fn coordinator_name(attempt_id: Text, epoch: u64) -> Text {
    "delegation:"@ + attempt_id + ":"@ + decimal(epoch as nat)
}

/// What the bearer of a token may coordinate.
pub open spec fn delegated(grants: Seq<GrantModel>, token: Text, now: i64) -> WorkResult<
    DelegationAuthorityModel,
> {
    match identified(grants, token, now) {
        Err(error) => Err(error),
        Ok(scope) => match holder(grants, scope, now) {
            None => refused(FailureCode::ScopeMismatch),
            Some(i) => match grants[i].delegation {
                None => refused(FailureCode::ScopeMismatch),
                Some(fence) => if fence.coordinator_task_id != scope.task_id
                    || fence.coordinator_attempt_id != scope.attempt_id {
                    refused(FailureCode::ScopeMismatch)
                } else {
                    Ok(
                        DelegationAuthorityModel {
                            scope,
                            fence,
                            actor_id: coordinator_name(scope.attempt_id, fence.coordinator_epoch),
                        },
                    )
                },
            },
        },
    }
}

/// A file in a directory.
pub open spec fn joined(dir: Text, name: Text) -> Text {
    if dir.len() == 0 {
        name
    } else if dir.last() == '/' {
        dir + name
    } else {
        dir + "/"@ + name
    }
}

/// Names a file in a directory.
pub fn join(dir: &str, name: &str) -> (res: String)
    ensures
        res@ == joined(dir@, name@),
{
    let mut slash = true;
    for c in it: dir.chars()
        invariant
            it.seq() == dir@,
            it.index() > 0 ==> slash == (dir@[it.index() - 1] == '/'),
            it.index() == 0 ==> slash,
    {
        assert(c == dir@[it.index() as int]);
        slash = c == '/';
    }
    let mut res = dir.to_string();
    if !slash {
        res.append("/");
    }
    res.append(name);
    proof {
        if dir@.len() == 0 {
            assert(res@ =~= name@);
        }
    }
    res
}

/// When a grant that is made now runs out.
pub open spec fn expiry(now: i64) -> i64 {
    if now + MAX_LIFETIME_MS > i64::MAX {
        i64::MAX
    } else {
        (now + MAX_LIFETIME_MS) as i64
    }
}

/// The file that tells an attempt of its grant.
pub open spec fn context_path(dir: Text, scope: ScopeModel) -> Text {
    joined(dir, scope.attempt_id + ".json"@)
}

/// A scope has a grant.
pub open spec fn granted(grants: Seq<GrantModel>, scope: ScopeModel) -> bool {
    exists|k: int| 0 <= k < grants.len() && (#[trigger] grants[k]).scope == scope
}

/// Files a grant under its identifier.
pub open spec fn entered(grants: Seq<GrantModel>, grant: GrantModel) -> Seq<GrantModel> {
    match grant_at(grants, grant.id) {
        Some(i) => grants.update(i, grant),
        None => grants.push(grant),
    }
}

/// A new grant and the file that tells of it. The grants are those that still last.
pub open spec fn issued(
    grants: Seq<GrantModel>,
    id: Text,
    token: Text,
    dir: Text,
    socket: Text,
    scope: ScopeModel,
    now: i64,
) -> WorkResult<(Seq<GrantModel>, IssuedModel)> {
    if grants.len() >= MAX_GRANTS {
        refused(FailureCode::ResourceLimit)
    } else if granted(grants, scope) {
        refused(FailureCode::RevisionConflict)
    } else if !is_uuid(scope.attempt_id) {
        refused(FailureCode::InvalidInput)
    } else {
        Ok(
            (
                entered(
                    grants,
                    GrantModel {
                        id,
                        scope,
                        hash: token_hash(token),
                        expires_at_ms: expiry(now),
                        context_file: context_path(dir, scope),
                        delegation: None,
                    },
                ),
                IssuedModel {
                    path: context_path(dir, scope),
                    context: ContextFileModel { socket, token, scope, expires_at_ms: expiry(now) },
                },
            ),
        )
    }
}

/// A request for a grant took the registry from one state to another.
pub open spec fn issues(
    before: Seq<GrantModel>,
    later: Seq<GrantModel>,
    id: Text,
    token: Text,
    dir: Text,
    socket: Text,
    scope: ScopeModel,
    now: i64,
    res: Issuance,
) -> bool {
    let rest = lasting(before, now);
    let outcome = issued(rest, id, token, dir, socket, scope, now);
    &&& res.stale.deep_view() == stale_files(before, now)
    &&& match outcome {
        Ok((next, made)) => shown(res.issued) == Ok::<IssuedModel, WorkError>(made) && later
            == next,
        Err(error) => shown(res.issued) == Err::<IssuedModel, WorkError>(error) && later == rest,
    }
}

/// A request for a grant was met with an identifier and a token that were drawn for it.
pub open spec fn issue_drawn(
    before: Seq<GrantModel>,
    later: Seq<GrantModel>,
    dir: Text,
    socket: Text,
    scope: ScopeModel,
    now: i64,
    res: Issuance,
) -> bool {
    exists|id: Text, token: Text|
        is_uuid(id) && byte_len(token) == 64 && is_hex(token) && #[trigger] issues(
            before,
            later,
            id,
            token,
            dir,
            socket,
            scope,
            now,
            res,
        )
}

impl Registry {
    /// A registry without grants: tokens from before a restart are worth nothing.
    pub fn new() -> (res: Registry)
        ensures
            res@ == Seq::<GrantModel>::empty(),
    {
        Registry { grants: no_items() }
    }

    /// The same grants once more, to go back to.
    pub fn duplicate(&self) -> (res: Registry)
        ensures
            res@ == self@,
    {
        let mut grants: Vec<Grant> = no_items();
        let ghost all = self@;
        let mut i: usize = 0;
        while i < self.grants.len()
            invariant
                i <= self.grants.len(),
                self@ == all,
                grants.deep_view() == all.take(i as int),
            decreases self.grants.len() - i,
        {
            proof {
                assert(all.take(i as int + 1) =~= all.take(i as int).push(all[i as int]));
            }
            add_row(&mut grants, copy_grant(&self.grants[i]));
            i += 1;
        }
        assert(all.take(all.len() as int) =~= all);
        Registry { grants }
    }

    /// Drops the grants that have run out and names their files.
    pub fn expire(&mut self, now: i64) -> (res: Vec<String>)
        ensures
            final(self)@ == lasting(old(self)@, now),
            res.deep_view() == stale_files(old(self)@, now),
    {
        let mut rest: Vec<Grant> = no_items();
        let mut files: Vec<String> = no_items();
        let ghost all = self@;
        let mut i: usize = 0;
        while i < self.grants.len()
            invariant
                i <= self.grants.len(),
                self@ == all,
                rest.deep_view() == lasting(all.take(i as int), now),
                files.deep_view() == stale_files(all.take(i as int), now),
            decreases self.grants.len() - i,
        {
            let grant = &self.grants[i];
            proof {
                assert(all.take(i as int + 1).drop_last() =~= all.take(i as int));
                assert(all.take(i as int + 1).last() == grant.deep_view());
            }
            if grant.expires_at_ms <= now {
                add_row(&mut files, grant.context_file.replica());
            } else {
                add_row(&mut rest, copy_grant(grant));
            }
            i += 1;
        }
        assert(all.take(all.len() as int) =~= all);
        self.grants = rest;
        files
    }

    /// Makes a grant of an identifier and a token that were drawn for it.
    pub fn issue_as(
        &mut self,
        id: &str,
        token: &str,
        dir: &str,
        socket: &str,
        scope: Scope,
        now: i64,
    ) -> (res: Issuance)
        ensures
            issues(
                old(self)@,
                final(self)@,
                id@,
                token@,
                dir@,
                socket@,
                scope.deep_view(),
                now,
                res,
            ),
    {
        let stale = self.expire(now);
        let issued = self.enter(id, token, dir, socket, scope, now);
        Issuance { stale, issued }
    }

    fn enter(
        &mut self,
        id: &str,
        token: &str,
        dir: &str,
        socket: &str,
        scope: Scope,
        now: i64,
    ) -> (res: WorkResult<Issued>)
        ensures
            match issued(old(self)@, id@, token@, dir@, socket@, scope.deep_view(), now) {
                Ok((next, made)) => shown(res) == Ok::<IssuedModel, WorkError>(made)
                    && final(self)@ == next,
                Err(error) => shown(res) == Err::<IssuedModel, WorkError>(error) && final(self)@
                    == old(self)@,
            },
    {
        if self.grants.len() >= MAX_GRANTS {
            return refuse(FailureCode::ResourceLimit);
        }
        let mut i: usize = 0;
        while i < self.grants.len()
            invariant
                i <= self.grants.len(),
                self@ == old(self)@,
                self@.len() < MAX_GRANTS,
                forall|k: int| 0 <= k < i ==> (#[trigger] self@[k]).scope != scope.deep_view(),
            decreases self.grants.len() - i,
        {
            if self.grants[i].scope.same(&scope) {
                assert(self@[i as int].scope == scope.deep_view());
                return refuse(FailureCode::RevisionConflict);
            }
            i += 1;
        }
        if !uuid_text(scope.attempt_id.as_str()) {
            return refuse(FailureCode::InvalidInput);
        }
        let mut name = scope.attempt_id.clone();
        name.append(".json");
        let path = join(dir, name.as_str());
        let expires_at_ms: i64 = if now > i64::MAX - MAX_LIFETIME_MS {
            i64::MAX
        } else {
            now + MAX_LIFETIME_MS
        };
        let grant = Grant {
            id: id.to_string(),
            scope: scope.replica(),
            hash: bytes_digest(token.as_bytes()),
            expires_at_ms,
            context_file: path.clone(),
            delegation: None,
        };
        let context = ContextFile {
            socket: socket.to_string(),
            token: token.to_string(),
            scope,
            expires_at_ms,
        };
        match self.find(id) {
            Some(at) => set_row(&mut self.grants, at, grant),
            None => add_row(&mut self.grants, grant),
        }
        Ok(Issued { path, context })
    }

    fn find(&self, id: &str) -> (res: Option<usize>)
        ensures
            match grant_at(self@, id@) {
                Some(i) => res is Some && res->0 == i && res->0 < self@.len() && self@[i].id == id@,
                None => res is None,
            },
    {
        let mut found: Option<usize> = None;
        let mut i: usize = 0;
        while i < self.grants.len()
            invariant
                i <= self.grants.len(),
                match grant_at(self@.take(i as int), id@) {
                    Some(k) => found is Some && found->0 == k && found->0 < i && self@[k].id == id@,
                    None => found is None,
                },
            decreases self.grants.len() - i,
        {
            assert(self@.take(i as int + 1).drop_last() =~= self@.take(i as int));
            assert(self@.take(i as int + 1).last() == self.grants[i as int].deep_view());
            if found.is_none() && text_eq(self.grants[i].id.as_str(), id) {
                found = Some(i);
            }
            i += 1;
        }
        assert(self@.take(self@.len() as int) =~= self@);
        found
    }

    /// Makes a grant for a scope, with a token that cannot be guessed. The file has to be written
    /// before the token is of use; where that fails the grant is revoked again.
    pub fn issue(&mut self, dir: &str, socket: &str, scope: Scope, now: i64) -> (res: Issuance)
        ensures
            issue_drawn(
                old(self)@,
                final(self)@,
                dir@,
                socket@,
                scope.deep_view(),
                now,
                res,
            ),
    {
        let (a, b, c) = (id_bytes(), id_bytes(), id_bytes());
        let token = token_from(&a, &b, &c);
        proof {
            token_length(a@, b@, c@);
        }
        let id = new_id();
        let ghost asked = scope.deep_view();
        let res = self.issue_as(id.as_str(), token.as_str(), dir, socket, scope, now);
        assert(issues(old(self)@, self@, id@, token@, dir@, socket@, asked, now, res));
        res
    }

    /// The scope of the bearer of a token.
    pub fn identify(&self, token: &str, now: i64) -> (res: WorkResult<Scope>)
        ensures
            shown(res) == identified(self@, token@, now),
    {
        if bytes_in(token) != 64 {
            return refuse(FailureCode::ScopeMismatch);
        }
        let presented = bytes_digest(token.as_bytes());
        let mut found: Option<usize> = None;
        let mut i: usize = 0;
        while i < self.grants.len()
            invariant
                i <= self.grants.len(),
                presented@ == token_hash(token@),
                match bearer(self@.take(i as int), token_hash(token@), now) {
                    Some(k) => found is Some && found->0 == k && found->0 < i,
                    None => found is None,
                },
            decreases self.grants.len() - i,
        {
            assert(self@.take(i as int + 1).drop_last() =~= self@.take(i as int));
            assert(self@.take(i as int + 1).last() == self.grants[i as int].deep_view());
            let equal = same_digest(self.grants[i].hash.as_str(), presented.as_str());
            if equal && self.grants[i].expires_at_ms > now {
                found = Some(i);
            }
            i += 1;
        }
        assert(self@.take(self@.len() as int) =~= self@);
        match found {
            Some(at) => Ok(self.grants[at].scope.replica()),
            None => refuse(FailureCode::ScopeMismatch),
        }
    }

    /// Whether the bearer of a token speaks for a scope.
    pub fn authorize(&self, token: &str, scope: &Scope, now: i64) -> (res: WorkResult<()>)
        ensures
            res == (match identified(self@, token@, now) {
                Err(error) => Err(error),
                Ok(found) => if found == scope.deep_view() {
                    Ok(())
                } else {
                    refused(FailureCode::ScopeMismatch)
                },
            }),
    {
        let found = self.identify(token, now)?;
        if !found.same(scope) {
            return refuse(FailureCode::ScopeMismatch);
        }
        Ok(())
    }

    fn held(&self, scope: &Scope, now: i64) -> (res: Option<usize>)
        ensures
            match holder(self@, scope.deep_view(), now) {
                Some(i) => res is Some && res->0 == i && res->0 < self@.len(),
                None => res is None,
            },
    {
        let mut found: Option<usize> = None;
        let mut i: usize = 0;
        while i < self.grants.len()
            invariant
                i <= self.grants.len(),
                match holder(self@.take(i as int), scope.deep_view(), now) {
                    Some(k) => found is Some && found->0 == k && found->0 < i,
                    None => found is None,
                },
            decreases self.grants.len() - i,
        {
            assert(self@.take(i as int + 1).drop_last() =~= self@.take(i as int));
            assert(self@.take(i as int + 1).last() == self.grants[i as int].deep_view());
            if found.is_none() && self.grants[i].scope.same(scope) && self.grants[i].expires_at_ms
                > now {
                found = Some(i);
            }
            i += 1;
        }
        assert(self@.take(self@.len() as int) =~= self@);
        found
    }

    /// Leave to make the grant of a scope the coordinator of its task.
    pub fn prepare_activation(&self, scope: &Scope, now: i64) -> (res: WorkResult<ActivationPermit>)
        ensures
            shown(res) == permit_for(self@, scope.deep_view(), now),
    {
        match self.held(scope, now) {
            Some(at) => Ok(
                ActivationPermit {
                    grant_id: self.grants[at].id.replica(),
                    scope: scope.replica(),
                },
            ),
            None => refuse(FailureCode::ScopeMismatch),
        }
    }

    /// Uses a permit. A permit whose grant is gone leaves nobody coordinating anew, and never makes
    /// a grant.
    pub fn apply_activation(&mut self, permit: ActivationPermit, fence: DelegationFence)
        ensures
            final(self)@ == activated(old(self)@, permit.deep_view(), fence.deep_view()),
    {
        if !permit.scope.task_id.same(&fence.coordinator_task_id) || !permit.scope.attempt_id.same(
            &fence.coordinator_attempt_id,
        ) {
            return;
        }
        let at = match self.find(permit.grant_id.as_str()) {
            Some(at) => at,
            None => {
                return;
            },
        };
        if !self.grants[at].scope.same(&permit.scope) {
            return;
        }
        let ghost epoch = fence.coordinator_epoch;
        let ghost scope = permit.scope.deep_view();
        let mut i: usize = 0;
        while i < self.grants.len()
            invariant
                i <= self.grants.len(),
                at < self.grants.len(),
                self@ == old(self)@,
                epoch == fence.coordinator_epoch,
                scope == permit.deep_view().scope,
                scope == permit.scope.deep_view(),
                scope.task_id == fence.deep_view().coordinator_task_id,
                scope.attempt_id == fence.deep_view().coordinator_attempt_id,
                grant_at(self@, permit.deep_view().grant_id) == Some(at as int),
                self@[at as int].scope == scope,
                forall|k: int|
                    0 <= k < i ==> !#[trigger] outranks(
                        self@[k],
                        scope.session_id,
                        scope.task_id,
                        epoch,
                    ),
            decreases self.grants.len() - i,
        {
            let grant = &self.grants[i];
            assert(self@[i as int] == grant.deep_view());
            if grant.scope.session_id.same(&permit.scope.session_id) && grant.scope.task_id.same(
                &permit.scope.task_id,
            ) {
                if let Some(active) = &grant.delegation {
                    if active.coordinator_epoch > fence.coordinator_epoch {
                        assert(outranks(self@[i as int], scope.session_id, scope.task_id, epoch));
                        assert(superseded(self@, scope.session_id, scope.task_id, epoch));
                        return;
                    }
                }
            }
            i += 1;
        }
        assert(!superseded(self@, scope.session_id, scope.task_id, epoch));
        self.clear_delegation(permit.scope.session_id.as_str(), permit.scope.task_id.as_str());
        assert(self@.len() == self.grants.len());
        let mut grant = copy_grant(&self.grants[at]);
        assert(grant.deep_view() == reporting(old(self)@[at as int])) by {
            assert(grant.deep_view() == self@[at as int]);
        }
        grant.delegation = Some(fence);
        assert(grant.deep_view().delegation == Some(fence.deep_view()));
        set_row(&mut self.grants, at, grant);
    }

    /// Takes coordination from exactly one generation: evidence that comes late cannot touch its
    /// successor.
    pub fn invalidate_delegation(&mut self, scope: &Scope, fence: &DelegationFence) -> (res: bool)
        ensures
            final(self)@ == invalidated(old(self)@, scope.deep_view(), fence.deep_view()),
            res == exists|k: int|
                0 <= k < old(self)@.len() && #[trigger] fenced(
                    old(self)@[k],
                    scope.deep_view(),
                    fence.deep_view(),
                ),
    {
        let ghost all = self@;
        let ghost gone = invalidated(all, scope.deep_view(), fence.deep_view());
        let mut changed = false;
        let mut i: usize = 0;
        while i < self.grants.len()
            invariant
                i <= self.grants.len(),
                all == old(self)@,
                self@.len() == all.len(),
                gone == invalidated(all, scope.deep_view(), fence.deep_view()),
                forall|k: int| 0 <= k < i ==> #[trigger] self@[k] == gone[k],
                forall|k: int| i <= k < all.len() ==> #[trigger] self@[k] == all[k],
                changed == exists|k: int|
                    0 <= k < i && #[trigger] fenced(all[k], scope.deep_view(), fence.deep_view()),
            decreases self.grants.len() - i,
        {
            let grant = &self.grants[i];
            assert(self@[i as int] == grant.deep_view());
            assert(all[i as int] == grant.deep_view());
            let hit = grant.scope.same(scope) && match &grant.delegation {
                Some(active) => active.same(fence),
                None => false,
            };
            assert(hit == fenced(all[i as int], scope.deep_view(), fence.deep_view()));
            if hit {
                let mut grant = copy_grant(grant);
                grant.delegation = None;
                set_row(&mut self.grants, i, grant);
                assert(self@.len() == self.grants.len());
                changed = true;
            }
            i += 1;
        }
        assert(self@ =~= gone);
        changed
    }

    /// Leaves a task without a coordinator.
    pub fn clear_delegation(&mut self, session: &str, task_id: &str)
        ensures
            final(self)@ == cleared(old(self)@, session@, task_id@),
    {
        let ghost all = self@;
        let ghost gone = cleared(all, session@, task_id@);
        let mut i: usize = 0;
        while i < self.grants.len()
            invariant
                i <= self.grants.len(),
                all == old(self)@,
                self@.len() == all.len(),
                gone == cleared(all, session@, task_id@),
                forall|k: int| 0 <= k < i ==> #[trigger] self@[k] == gone[k],
                forall|k: int| i <= k < all.len() ==> #[trigger] self@[k] == all[k],
            decreases self.grants.len() - i,
        {
            let grant = &self.grants[i];
            assert(self@[i as int] == grant.deep_view());
            assert(all[i as int] == grant.deep_view());
            if text_eq(grant.scope.session_id.as_str(), session) && text_eq(
                grant.scope.task_id.as_str(),
                task_id,
            ) {
                let mut grant = copy_grant(grant);
                grant.delegation = None;
                set_row(&mut self.grants, i, grant);
                assert(self@.len() == self.grants.len());
            }
            i += 1;
        }
        assert(self@ =~= gone);
    }

    /// What the bearer of a token may coordinate.
    pub fn authorize_delegation(&self, token: &str, now: i64) -> (res: WorkResult<
        DelegationAuthority,
    >)
        ensures
            shown(res) == delegated(self@, token@, now),
    {
        let scope = self.identify(token, now)?;
        let at = match self.held(&scope, now) {
            Some(at) => at,
            None => {
                return refuse(FailureCode::ScopeMismatch);
            },
        };
        let fence = match &self.grants[at].delegation {
            Some(fence) => fence.replica(),
            None => {
                return refuse(FailureCode::ScopeMismatch);
            },
        };
        if !fence.coordinator_task_id.same(&scope.task_id) || !fence.coordinator_attempt_id.same(
            &scope.attempt_id,
        ) {
            return refuse(FailureCode::ScopeMismatch);
        }
        let mut actor_id = "delegation:".to_string();
        actor_id.append(scope.attempt_id.as_str());
        actor_id.append(":");
        actor_id.append(decimal_text(fence.coordinator_epoch).as_str());
        Ok(DelegationAuthority { scope, fence, actor_id })
    }

    /// Takes the grants of a scope away. The caller removes the files.
    pub fn revoke(&mut self, scope: &Scope) -> (res: (bool, Vec<String>))
        ensures
            final(self)@ == without(old(self)@, scope.deep_view()),
            res.1.deep_view() == files_of(old(self)@, scope.deep_view()),
            res.0 == (res.1.len() > 0),
    {
        let files = self.revoke_memory(scope);
        (files.len() > 0, files)
    }

    /// Takes the grants of a scope away and names their files, which are removed once the locks
    /// are no longer held.
    pub fn revoke_memory(&mut self, scope: &Scope) -> (res: Vec<String>)
        ensures
            final(self)@ == without(old(self)@, scope.deep_view()),
            res.deep_view() == files_of(old(self)@, scope.deep_view()),
    {
        let mut rest: Vec<Grant> = no_items();
        let mut files: Vec<String> = no_items();
        let ghost all = self@;
        let mut i: usize = 0;
        while i < self.grants.len()
            invariant
                i <= self.grants.len(),
                self@ == all,
                rest.deep_view() == without(all.take(i as int), scope.deep_view()),
                files.deep_view() == files_of(all.take(i as int), scope.deep_view()),
            decreases self.grants.len() - i,
        {
            let grant = &self.grants[i];
            proof {
                assert(all.take(i as int + 1).drop_last() =~= all.take(i as int));
                assert(all.take(i as int + 1).last() == grant.deep_view());
            }
            if grant.scope.same(scope) {
                add_row(&mut files, grant.context_file.replica());
            } else {
                add_row(&mut rest, copy_grant(grant));
            }
            i += 1;
        }
        assert(all.take(all.len() as int) =~= all);
        self.grants = rest;
        files
    }
}

/// The permit for the grant of a scope.
pub open spec fn permit_for(grants: Seq<GrantModel>, scope: ScopeModel, now: i64) -> WorkResult<
    ActivationPermitModel,
> {
    match holder(grants, scope, now) {
        Some(i) => Ok(ActivationPermitModel { grant_id: grants[i].id, scope }),
        None => refused(FailureCode::ScopeMismatch),
    }
}

fn copy_grant(grant: &Grant) -> (res: Grant)
    ensures
        res.deep_view() == grant.deep_view(),
{
    Grant {
        id: grant.id.replica(),
        scope: grant.scope.replica(),
        hash: grant.hash.replica(),
        expires_at_ms: grant.expires_at_ms,
        context_file: grant.context_file.replica(),
        delegation: grant.delegation.replica(),
    }
}

/// No more grants than allowed, each under its own identifier and for its own scope.
pub open spec fn orderly(grants: Seq<GrantModel>) -> bool {
    &&& grants.len() <= MAX_GRANTS
    &&& forall|i: int, j: int|
        0 <= i < j < grants.len() ==> (#[trigger] grants[i]).id != (#[trigger] grants[j]).id
            && grants[i].scope != grants[j].scope
}

proof fn lasting_members(grants: Seq<GrantModel>, now: i64)
    ensures
        lasting(grants, now).len() <= grants.len(),
        forall|k: int|
            0 <= k < lasting(grants, now).len() ==> grants.contains(
                #[trigger] lasting(grants, now)[k],
            ) && lasting(grants, now)[k].expires_at_ms > now,
    decreases grants.len(),
{
    if grants.len() > 0 {
        let rest = grants.drop_last();
        lasting_members(rest, now);
        assert forall|k: int| 0 <= k < lasting(grants, now).len() implies grants.contains(
            #[trigger] lasting(grants, now)[k],
        ) && lasting(grants, now)[k].expires_at_ms > now by {
            if k < lasting(rest, now).len() {
                assert(rest.contains(lasting(rest, now)[k]));
                let j = choose|j: int| 0 <= j < rest.len() && rest[j] == lasting(rest, now)[k];
                assert(grants[j] == lasting(rest, now)[k]);
            } else {
                assert(grants[grants.len() - 1] == lasting(grants, now)[k]);
            }
        }
    }
}

proof fn without_members(grants: Seq<GrantModel>, scope: ScopeModel)
    ensures
        without(grants, scope).len() <= grants.len(),
        forall|k: int|
            0 <= k < without(grants, scope).len() ==> grants.contains(
                #[trigger] without(grants, scope)[k],
            ) && without(grants, scope)[k].scope != scope,
    decreases grants.len(),
{
    if grants.len() > 0 {
        let rest = grants.drop_last();
        without_members(rest, scope);
        assert forall|k: int| 0 <= k < without(grants, scope).len() implies grants.contains(
            #[trigger] without(grants, scope)[k],
        ) && without(grants, scope)[k].scope != scope by {
            if k < without(rest, scope).len() {
                assert(rest.contains(without(rest, scope)[k]));
                let j = choose|j: int| 0 <= j < rest.len() && rest[j] == without(rest, scope)[k];
                assert(grants[j] == without(rest, scope)[k]);
            } else {
                assert(grants[grants.len() - 1] == without(grants, scope)[k]);
            }
        }
    }
}

proof fn grant_found(grants: Seq<GrantModel>, id: Text)
    ensures
        match grant_at(grants, id) {
            Some(i) => 0 <= i < grants.len() && grants[i].id == id,
            None => forall|k: int| 0 <= k < grants.len() ==> (#[trigger] grants[k]).id != id,
        },
    decreases grants.len(),
{
    if grants.len() > 0 {
        grant_found(grants.drop_last(), id);
        assert forall|k: int| grant_at(grants, id) is None && 0 <= k < grants.len() implies (
        #[trigger] grants[k]).id != id by {
            if k < grants.len() - 1 {
                assert(grants.drop_last()[k] == grants[k]);
            }
        }
    }
}

proof fn bearer_found(grants: Seq<GrantModel>, hash: Text, now: i64)
    ensures
        match bearer(grants, hash, now) {
            Some(i) => 0 <= i < grants.len() && grants[i].hash == hash && grants[i].expires_at_ms
                > now,
            None => forall|k: int|
                0 <= k < grants.len() ==> (#[trigger] grants[k]).hash != hash
                    || grants[k].expires_at_ms <= now,
        },
    decreases grants.len(),
{
    if grants.len() > 0 {
        bearer_found(grants.drop_last(), hash, now);
        assert forall|k: int|
            bearer(grants, hash, now) is None && 0 <= k < grants.len() implies (
        #[trigger] grants[k]).hash != hash || grants[k].expires_at_ms <= now by {
            if k < grants.len() - 1 {
                assert(grants.drop_last()[k] == grants[k]);
            }
        }
    }
}

proof fn holder_found(grants: Seq<GrantModel>, scope: ScopeModel, now: i64)
    ensures
        match holder(grants, scope, now) {
            Some(i) => 0 <= i < grants.len() && grants[i].scope == scope && grants[i].expires_at_ms
                > now,
            None => forall|k: int|
                0 <= k < grants.len() ==> (#[trigger] grants[k]).scope != scope
                    || grants[k].expires_at_ms <= now,
        },
    decreases grants.len(),
{
    if grants.len() > 0 {
        holder_found(grants.drop_last(), scope, now);
        assert forall|k: int|
            holder(grants, scope, now) is None && 0 <= k < grants.len() implies (
        #[trigger] grants[k]).scope != scope || grants[k].expires_at_ms <= now by {
            if k < grants.len() - 1 {
                assert(grants.drop_last()[k] == grants[k]);
            }
        }
    }
}

/// Dropping the grants that ran out keeps the rest orderly.
pub proof fn expiry_keeps_order(grants: Seq<GrantModel>, now: i64)
    requires
        orderly(grants),
    ensures
        orderly(lasting(grants, now)),
    decreases grants.len(),
{
    if grants.len() > 0 {
        let rest = grants.drop_last();
        assert(orderly(rest)) by {
            assert forall|i: int, j: int| 0 <= i < j < rest.len() implies (#[trigger] rest[i]).id
                != (#[trigger] rest[j]).id && rest[i].scope != rest[j].scope by {
                assert(grants[i] == rest[i] && grants[j] == rest[j]);
            }
        }
        expiry_keeps_order(rest, now);
        lasting_members(rest, now);
        let kept = lasting(grants, now);
        assert forall|i: int, j: int| 0 <= i < j < kept.len() implies (#[trigger] kept[i]).id != (
        #[trigger] kept[j]).id && kept[i].scope != kept[j].scope by {
            let before = lasting(rest, now);
            if j < before.len() {
                assert(kept[i] == before[i] && kept[j] == before[j]);
            } else {
                assert(rest.contains(before[i]));
                let n = choose|n: int| 0 <= n < rest.len() && rest[n] == before[i];
                assert(grants[n] == kept[i]);
                assert(grants[grants.len() - 1] == kept[j]);
            }
        }
    }
}

/// Taking grants away keeps the rest orderly.
pub proof fn revocation_keeps_order(grants: Seq<GrantModel>, scope: ScopeModel)
    requires
        orderly(grants),
    ensures
        orderly(without(grants, scope)),
    decreases grants.len(),
{
    if grants.len() > 0 {
        let rest = grants.drop_last();
        assert(orderly(rest)) by {
            assert forall|i: int, j: int| 0 <= i < j < rest.len() implies (#[trigger] rest[i]).id
                != (#[trigger] rest[j]).id && rest[i].scope != rest[j].scope by {
                assert(grants[i] == rest[i] && grants[j] == rest[j]);
            }
        }
        revocation_keeps_order(rest, scope);
        without_members(rest, scope);
        let kept = without(grants, scope);
        assert forall|i: int, j: int| 0 <= i < j < kept.len() implies (#[trigger] kept[i]).id != (
        #[trigger] kept[j]).id && kept[i].scope != kept[j].scope by {
            let before = without(rest, scope);
            if j < before.len() {
                assert(kept[i] == before[i] && kept[j] == before[j]);
            } else {
                assert(rest.contains(before[i]));
                let n = choose|n: int| 0 <= n < rest.len() && rest[n] == before[i];
                assert(grants[n] == kept[i]);
                assert(grants[grants.len() - 1] == kept[j]);
            }
        }
    }
}

/// A new grant keeps the registry orderly: never more than allowed, one grant to a scope.
pub proof fn issue_keeps_order(
    grants: Seq<GrantModel>,
    id: Text,
    token: Text,
    dir: Text,
    socket: Text,
    scope: ScopeModel,
    now: i64,
)
    requires
        orderly(grants),
    ensures
        issued(grants, id, token, dir, socket, scope, now) matches Ok((next, _)) ==> orderly(next),
{
    if let Ok((next, _)) = issued(grants, id, token, dir, socket, scope, now) {
        grant_found(grants, id);
        assert forall|i: int, j: int| 0 <= i < j < next.len() implies (#[trigger] next[i]).id != (
        #[trigger] next[j]).id && next[i].scope != next[j].scope by {
            match grant_at(grants, id) {
                Some(n) => {
                    if i != n {
                        assert(next[i] == grants[i]);
                    }
                    if j != n {
                        assert(next[j] == grants[j]);
                    }
                    assert(grants[i].id != grants[j].id);
                },
                None => {
                    assert(next[i] == grants[i]);
                    if j < grants.len() {
                        assert(next[j] == grants[j]);
                    }
                },
            }
        }
    }
}

/// Giving coordination or taking it keeps the registry orderly.
pub proof fn coordination_keeps_order(
    grants: Seq<GrantModel>,
    permit: ActivationPermitModel,
    fence: DelegationFenceModel,
    scope: ScopeModel,
    session: Text,
    task_id: Text,
)
    requires
        orderly(grants),
    ensures
        orderly(activated(grants, permit, fence)),
        orderly(invalidated(grants, scope, fence)),
        orderly(cleared(grants, session, task_id)),
{
    grant_found(grants, permit.grant_id);
    let next = activated(grants, permit, fence);
    assert forall|i: int, j: int| 0 <= i < j < next.len() implies (#[trigger] next[i]).id != (
    #[trigger] next[j]).id && next[i].scope != next[j].scope by {
        assert(next[i].id == grants[i].id && next[i].scope == grants[i].scope);
        assert(next[j].id == grants[j].id && next[j].scope == grants[j].scope);
    }
    let next = invalidated(grants, scope, fence);
    assert forall|i: int, j: int| 0 <= i < j < next.len() implies (#[trigger] next[i]).id != (
    #[trigger] next[j]).id && next[i].scope != next[j].scope by {
        assert(next[i].id == grants[i].id && next[i].scope == grants[i].scope);
        assert(next[j].id == grants[j].id && next[j].scope == grants[j].scope);
    }
    let next = cleared(grants, session, task_id);
    assert forall|i: int, j: int| 0 <= i < j < next.len() implies (#[trigger] next[i]).id != (
    #[trigger] next[j]).id && next[i].scope != next[j].scope by {
        assert(next[i].id == grants[i].id && next[i].scope == grants[i].scope);
        assert(next[j].id == grants[j].id && next[j].scope == grants[j].scope);
    }
}

/// A token that was just handed out identifies its scope until the grant runs out.
pub proof fn issued_token_identifies(
    grants: Seq<GrantModel>,
    id: Text,
    token: Text,
    dir: Text,
    socket: Text,
    scope: ScopeModel,
    now: i64,
    later: i64,
)
    requires
        grant_at(grants, id) is None,
        byte_len(token) == 64,
        later < expiry(now),
    ensures
        issued(grants, id, token, dir, socket, scope, now) matches Ok((next, _)) ==> identified(
            next,
            token,
            later,
        ) == Ok::<ScopeModel, WorkError>(scope),
{
}

/// Nobody is identified by a token whose grant has run out, was revoked or is from before a
/// restart: whoever is identified holds a grant that lasts.
pub proof fn only_lasting_grants_identify(grants: Seq<GrantModel>, token: Text, now: i64)
    ensures
        identified(grants, token, now) matches Ok(scope) ==> exists|k: int|
            0 <= k < grants.len() && (#[trigger] grants[k]).scope == scope && grants[k].hash
                == token_hash(token) && grants[k].expires_at_ms > now,
        identified(Seq::empty(), token, now) == refused::<ScopeModel>(FailureCode::ScopeMismatch),
        (forall|k: int|
            0 <= k < grants.len() && (#[trigger] grants[k]).hash == token_hash(token)
                ==> grants[k].expires_at_ms <= now) ==> identified(grants, token, now) == refused::<
            ScopeModel,
        >(FailureCode::ScopeMismatch),
{
    bearer_found(grants, token_hash(token), now);
}

/// Once a scope is revoked no token speaks for it or coordinates for it.
pub proof fn revocation_is_final(grants: Seq<GrantModel>, scope: ScopeModel, token: Text, now: i64)
    ensures
        identified(without(grants, scope), token, now) != Ok::<ScopeModel, WorkError>(scope),
        delegated(without(grants, scope), token, now) matches Ok(authority) ==> authority.scope
            != scope,
{
    without_members(grants, scope);
    bearer_found(without(grants, scope), token_hash(token), now);
}

/// A grant that is revoked before anything else happens leaves no trace.
pub proof fn issue_can_be_undone(grants: Seq<GrantModel>, grant: GrantModel)
    requires
        !granted(grants, grant.scope),
        grant_at(grants, grant.id) is None,
    ensures
        without(entered(grants, grant), grant.scope) == grants,
{
    without_nothing(grants, grant.scope);
    assert(grants.push(grant).drop_last() =~= grants);
}

proof fn without_nothing(grants: Seq<GrantModel>, scope: ScopeModel)
    requires
        !granted(grants, scope),
    ensures
        without(grants, scope) == grants,
    decreases grants.len(),
{
    if grants.len() > 0 {
        let rest = grants.drop_last();
        assert forall|k: int| 0 <= k < rest.len() implies (#[trigger] rest[k]).scope != scope by {
            assert(grants[k] == rest[k]);
        }
        without_nothing(rest, scope);
        assert(grants.last() == grants[grants.len() - 1]);
        assert(rest.push(grants.last()) =~= grants);
    }
}

proof fn same_bearer(before: Seq<GrantModel>, later: Seq<GrantModel>, hash: Text, now: i64)
    requires
        before.len() == later.len(),
        forall|k: int|
            0 <= k < before.len() ==> (#[trigger] later[k]).hash == before[k].hash
                && later[k].expires_at_ms == before[k].expires_at_ms,
    ensures
        bearer(later, hash, now) == bearer(before, hash, now),
    decreases before.len(),
{
    if before.len() > 0 {
        assert(later[later.len() - 1] == later.last());
        assert forall|k: int| 0 <= k < before.len() - 1 implies (
        #[trigger] later.drop_last()[k]).hash == before.drop_last()[k].hash
            && later.drop_last()[k].expires_at_ms == before.drop_last()[k].expires_at_ms by {
            assert(later[k] == later.drop_last()[k]);
        }
        same_bearer(before.drop_last(), later.drop_last(), hash, now);
    }
}

/// Giving coordination or taking it leaves what each token reports for as it was.
pub proof fn coordination_preserves_reporting(
    grants: Seq<GrantModel>,
    permit: ActivationPermitModel,
    fence: DelegationFenceModel,
    scope: ScopeModel,
    session: Text,
    task_id: Text,
    token: Text,
    now: i64,
)
    ensures
        identified(activated(grants, permit, fence), token, now) == identified(grants, token, now),
        identified(invalidated(grants, scope, fence), token, now) == identified(grants, token, now),
        identified(cleared(grants, session, task_id), token, now) == identified(grants, token, now),
{
    let hash = token_hash(token);
    grant_found(grants, permit.grant_id);
    bearer_found(grants, hash, now);
    same_bearer(grants, activated(grants, permit, fence), hash, now);
    same_bearer(grants, invalidated(grants, scope, fence), hash, now);
    same_bearer(grants, cleared(grants, session, task_id), hash, now);
}

/// A permit for an epoch that has been overtaken changes nothing.
pub proof fn overtaken_activation_is_ignored(
    grants: Seq<GrantModel>,
    permit: ActivationPermitModel,
    fence: DelegationFenceModel,
)
    requires
        superseded(
            grants,
            permit.scope.session_id,
            permit.scope.task_id,
            fence.coordinator_epoch,
        ),
    ensures
        activated(grants, permit, fence) == grants,
{
}

/// Where an activation takes hold, its grant is the only one that coordinates the task.
pub proof fn one_coordinator(
    grants: Seq<GrantModel>,
    permit: ActivationPermitModel,
    fence: DelegationFenceModel,
    k: int,
)
    requires
        activated(grants, permit, fence) != grants,
        0 <= k < grants.len(),
        serves(grants[k], permit.scope.session_id, permit.scope.task_id),
        activated(grants, permit, fence)[k].delegation is Some,
    ensures
        grant_at(grants, permit.grant_id) == Some(k),
        activated(grants, permit, fence)[k].scope == permit.scope,
        activated(grants, permit, fence)[k].delegation == Some(fence),
{
    grant_found(grants, permit.grant_id);
}

/// Evidence about a generation that is no longer in force changes nothing.
pub proof fn late_evidence_is_harmless(
    grants: Seq<GrantModel>,
    scope: ScopeModel,
    fence: DelegationFenceModel,
)
    requires
        forall|k: int| 0 <= k < grants.len() ==> !#[trigger] fenced(grants[k], scope, fence),
    ensures
        invalidated(grants, scope, fence) == grants,
{
    assert(invalidated(grants, scope, fence) =~= grants);
}

/// Nobody coordinates a task that was cleared.
pub proof fn cleared_task_has_no_coordinator(
    grants: Seq<GrantModel>,
    session: Text,
    task_id: Text,
    token: Text,
    now: i64,
)
    ensures
        delegated(cleared(grants, session, task_id), token, now) matches Ok(authority) ==> !(
        authority.scope.session_id == session && authority.scope.task_id == task_id),
{
    if let Ok(scope) = identified(cleared(grants, session, task_id), token, now) {
        holder_found(cleared(grants, session, task_id), scope, now);
    }
}

/// Whoever coordinates bears the token of the attempt that its fence names.
pub proof fn coordinator_is_the_bearer(grants: Seq<GrantModel>, token: Text, now: i64)
    ensures
        delegated(grants, token, now) matches Ok(authority) ==> identified(grants, token, now)
            == Ok::<ScopeModel, WorkError>(authority.scope) && authority.fence.coordinator_task_id
            == authority.scope.task_id && authority.fence.coordinator_attempt_id
            == authority.scope.attempt_id && authority.actor_id == coordinator_name(
            authority.scope.attempt_id,
            authority.fence.coordinator_epoch,
        ),
{
}

/// The bearer of a token for another scope is still its bearer.
proof fn bearer_stays(grants: Seq<GrantModel>, scope: ScopeModel, hash: Text, now: i64)
    requires
        bearer(grants, hash, now) matches Some(i) && grants[i].scope != scope,
    ensures
        ({
            let rest = without(grants, scope);
            bearer(rest, hash, now) matches Some(j) && 0 <= j < rest.len() && rest[j]
                == grants[bearer(grants, hash, now)->0]
        }),
    decreases grants.len(),
{
    let before = grants.drop_last();
    let last = grants.last();
    bearer_found(before, hash, now);
    if !(last.hash == hash && last.expires_at_ms > now) {
        bearer_stays(before, scope, hash, now);
        if last.scope != scope {
            assert(without(grants, scope).drop_last() =~= without(before, scope));
        }
    }
}

/// The holder of another scope is still its holder.
proof fn holder_stays(grants: Seq<GrantModel>, scope: ScopeModel, other: ScopeModel, now: i64)
    requires
        other != scope,
    ensures
        ({
            let rest = without(grants, scope);
            match holder(grants, other, now) {
                Some(i) => holder(rest, other, now) matches Some(j) && 0 <= j < rest.len()
                    && rest[j] == grants[i],
                None => holder(rest, other, now) is None,
            }
        }),
    decreases grants.len(),
{
    if grants.len() > 0 {
        let before = grants.drop_last();
        holder_found(before, other, now);
        holder_stays(before, scope, other, now);
        if grants.last().scope != scope {
            assert(without(grants, scope).drop_last() =~= without(before, scope));
        }
    }
}

/// The files of a scope are those of its grants.
proof fn files_are_named(grants: Seq<GrantModel>, scope: ScopeModel)
    ensures
        files_of(grants, scope).len() > 0 <==> granted(grants, scope),
        forall|k: int|
            0 <= k < grants.len() && (#[trigger] grants[k]).scope == scope ==> files_of(
                grants,
                scope,
            ).contains(grants[k].context_file),
    decreases grants.len(),
{
    if grants.len() > 0 {
        let before = grants.drop_last();
        let last = grants.last();
        files_are_named(before, scope);
        let files = files_of(grants, scope);
        assert(grants[grants.len() - 1] == last);
        if granted(before, scope) {
            let k = choose|k: int| 0 <= k < before.len() && (#[trigger] before[k]).scope == scope;
            assert(grants[k].scope == scope);
        }
        if granted(grants, scope) {
            let k = choose|k: int| 0 <= k < grants.len() && (#[trigger] grants[k]).scope == scope;
            if k < before.len() {
                assert(before[k].scope == scope);
            }
        }
        assert forall|k: int| 0 <= k < grants.len() && (#[trigger] grants[k]).scope
            == scope implies files.contains(grants[k].context_file) by {
            if k < before.len() {
                assert(before[k] == grants[k]);
                let file = grants[k].context_file;
                let m = choose|m: int|
                    0 <= m < files_of(before, scope).len() && files_of(before, scope)[m] == file;
                assert(files[m] == file);
            } else {
                assert(files[files.len() - 1] == last.context_file);
            }
        }
    }
}

/// Revoking takes the grants of a scope away for good. The files of all of them are named, and
/// there are some exactly where there was a grant. The token that stood for the scope, and for no
/// other, identifies nobody and coordinates nothing at any time, not even once a permit is used
/// that was taken before. Revoking again takes nothing away, and every other scope's token stands
/// for what it stood for.
pub proof fn revocation_is_whole(
    grants: Seq<GrantModel>,
    scope: ScopeModel,
    token: Text,
    then: i64,
    fence: DelegationFenceModel,
    now: i64,
    other: Text,
)
    requires
        orderly(grants),
        identified(grants, token, then) == Ok::<ScopeModel, WorkError>(scope),
        forall|k: int|
            0 <= k < grants.len() && (#[trigger] grants[k]).hash == token_hash(token)
                ==> grants[k].scope == scope,
    ensures
        ({
            let rest = without(grants, scope);
            let files = files_of(grants, scope);
            &&& files.len() > 0
            &&& forall|k: int|
                0 <= k < grants.len() && (#[trigger] grants[k]).scope == scope ==> files.contains(
                    grants[k].context_file,
                )
            &&& identified(rest, token, now) == refused::<ScopeModel>(FailureCode::ScopeMismatch)
            &&& delegated(rest, token, now) == refused::<DelegationAuthorityModel>(
                FailureCode::ScopeMismatch,
            )
            &&& permit_for(grants, scope, then) matches Ok(permit) && activated(
                rest,
                permit,
                fence,
            ) == rest
            &&& files_of(rest, scope).len() == 0 && without(rest, scope) == rest
            &&& identified(grants, other, now) matches Ok(kept) ==> kept == scope || (identified(
                rest,
                other,
                now,
            ) == identified(grants, other, now) && delegated(rest, other, now) == delegated(
                grants,
                other,
                now,
            ))
        }),
{
    let rest = without(grants, scope);
    without_members(grants, scope);
    files_are_named(grants, scope);
    files_are_named(rest, scope);
    bearer_found(grants, token_hash(token), then);
    let i = bearer(grants, token_hash(token), then)->0;
    assert(grants[i].scope == scope);
    bearer_found(rest, token_hash(token), now);
    assert forall|k: int| 0 <= k < rest.len() implies (#[trigger] rest[k]).hash != token_hash(
        token,
    ) by {
        assert(grants.contains(rest[k]));
    }
    holder_found(grants, scope, then);
    let at = holder(grants, scope, then)->0;
    let permit = permit_for(grants, scope, then)->Ok_0;
    grant_found(rest, permit.grant_id);
    assert forall|k: int| 0 <= k < rest.len() implies (#[trigger] rest[k]).id
        != permit.grant_id by {
        let m = choose|m: int| 0 <= m < grants.len() && grants[m] == rest[k];
        if m < at {
            assert(grants[m].id != grants[at].id);
        } else if at < m {
            assert(grants[at].id != grants[m].id);
        }
    }
    without_nothing(rest, scope);
    if let Ok(kept) = identified(grants, other, now) {
        if kept != scope {
            bearer_found(grants, token_hash(other), now);
            bearer_stays(grants, scope, token_hash(other), now);
            holder_stays(grants, scope, kept, now);
        }
    }
}

} // verus!
