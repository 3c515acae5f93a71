//! What the registry of grants keeps, gives and takes.
use vstd::utf8::encode_utf8;
use vstd::prelude::*;
use crate::digest::is_uuid;
use crate::digest::sha256_hex;
use crate::json::decimal;
use crate::text::byte_len;
use crate::value::Text;
use crate::work::model::DelegationFenceModel;
use crate::work::model::FailureCode;
use crate::work::model::WorkError;
use crate::work_authority::ActivationPermitModel;
use crate::work_authority::GrantModel;
use crate::work_authority::ScopeModel;
use crate::work_authority::activated;
use crate::work_authority::bearer;
use crate::work_authority::chance;
use crate::work_authority::cleared;
use crate::work_authority::delegated;
use crate::work_authority::files_of;
use crate::work_authority::grant_at;
use crate::work_authority::hex;
use crate::work_authority::hex_digit;
use crate::work_authority::hex_length;
use crate::work_authority::holder;
use crate::work_authority::identified;
use crate::work_authority::invalidated;
use crate::work_authority::issued;
use crate::work_authority::joined;
use crate::work_authority::lasting;
use crate::work_authority::orderly;
use crate::work_authority::outranks;
use crate::work_authority::permit_for;
use crate::work_authority::stale_files;
use crate::work_authority::superseded;
use crate::work_authority::token_length;
use crate::work_authority::token_of;
use crate::work_authority::without;

verus! {

/// Expiry takes away the grants that have run out, and no others, and names their files.
pub proof fn expiry_takes_what_ran_out(grants: Seq<GrantModel>, now: i64)
    ensures
        lasting(grants, now) == grants.filter(|g: GrantModel| g.expires_at_ms > now),
        stale_files(grants, now) == grants.filter(|g: GrantModel| g.expires_at_ms <= now).map_values(
            |g: GrantModel| g.context_file,
        ),
    decreases grants.len(),
{
    reveal(Seq::filter);
    if grants.len() > 0 {
        expiry_takes_what_ran_out(grants.drop_last(), now);
        let stale = grants.filter(|g: GrantModel| g.expires_at_ms <= now);
        let before = grants.drop_last().filter(|g: GrantModel| g.expires_at_ms <= now);
        let file = |g: GrantModel| g.context_file;
        if grants.last().expires_at_ms <= now {
            assert(stale =~= before.push(grants.last()));
            assert(stale.map_values(file) =~= before.map_values(file).push(
                grants.last().context_file,
            ));
        }
        assert(stale_files(grants, now) =~= stale.map_values(file));
    } else {
        assert(lasting(grants, now) =~= grants.filter(|g: GrantModel| g.expires_at_ms > now));
        assert(stale_files(grants, now) =~= grants.filter(
            |g: GrantModel| g.expires_at_ms <= now,
        ).map_values(|g: GrantModel| g.context_file));
    }
}

/// Revoking takes away the grants of its scope, and no others, and names their files.
pub proof fn revoking_takes_its_scope(grants: Seq<GrantModel>, scope: ScopeModel)
    ensures
        without(grants, scope) == grants.filter(|g: GrantModel| g.scope != scope),
        files_of(grants, scope) == grants.filter(|g: GrantModel| g.scope == scope).map_values(
            |g: GrantModel| g.context_file,
        ),
    decreases grants.len(),
{
    reveal(Seq::filter);
    if grants.len() > 0 {
        revoking_takes_its_scope(grants.drop_last(), scope);
        let gone = grants.filter(|g: GrantModel| g.scope == scope);
        let before = grants.drop_last().filter(|g: GrantModel| g.scope == scope);
        let file = |g: GrantModel| g.context_file;
        if grants.last().scope == scope {
            assert(gone =~= before.push(grants.last()));
            assert(gone.map_values(file) =~= before.map_values(file).push(
                grants.last().context_file,
            ));
        }
        assert(files_of(grants, scope) =~= gone.map_values(file));
    } else {
        assert(without(grants, scope) =~= grants.filter(|g: GrantModel| g.scope != scope));
        assert(files_of(grants, scope) =~= grants.filter(
            |g: GrantModel| g.scope == scope,
        ).map_values(|g: GrantModel| g.context_file));
    }
}

/// A grant is given exactly where fewer than 256 are kept, its scope has none, and its attempt has
/// an identifier. It is kept for a day under the digest of its token, coordinates nothing yet, and
/// its file, named after the attempt, tells the socket, the token, the scope and when it runs out.
/// No other grant changes.
pub proof fn grants_are_given_exactly(
    grants: Seq<GrantModel>,
    id: Text,
    token: Text,
    dir: Text,
    socket: Text,
    scope: ScopeModel,
    now: i64,
)
    requires
        forall|k: int| 0 <= k < grants.len() ==> (#[trigger] grants[k]).id != id,
    ensures
        ({
            let full = grants.len() >= 256;
            let taken = exists|k: int| 0 <= k < grants.len() && (#[trigger] grants[k]).scope == scope;
            let until = if now + 86_400_000 > i64::MAX {
                i64::MAX as int
            } else {
                now + 86_400_000
            };
            match issued(grants, id, token, dir, socket, scope, now) {
                Err(error) => {
                    &&& full || taken || !is_uuid(scope.attempt_id)
                    &&& error.0 == (if full {
                        FailureCode::ResourceLimit
                    } else if taken {
                        FailureCode::RevisionConflict
                    } else {
                        FailureCode::InvalidInput
                    })
                },
                Ok((later, made)) => {
                    &&& !full && !taken && is_uuid(scope.attempt_id)
                    &&& later.len() == grants.len() + 1
                    &&& later.drop_last() == grants
                    &&& later.last().id == id
                    &&& later.last().scope == scope
                    &&& later.last().hash == sha256_hex(encode_utf8(token))
                    &&& later.last().expires_at_ms == until
                    &&& later.last().context_file == made.path
                    &&& later.last().delegation is None
                    &&& made.context.socket == socket
                    &&& made.context.token == token
                    &&& made.context.scope == scope
                    &&& made.context.expires_at_ms == until
                    &&& exists|name: Text| #[trigger]
                        is_in(made.path, dir, name) && name == scope.attempt_id + ".json"@
                },
            }
        }),
{
    nothing_is_there(grants, id);
    if let Ok((later, made)) = issued(grants, id, token, dir, socket, scope, now) {
        let name = scope.attempt_id + ".json"@;
        files_are_in_their_directory(dir, name);
        assert(is_in(made.path, dir, name));
        assert(later.drop_last() =~= grants);
    }
}

/// Whether a path names a file in a directory: one slash stands between them, unless the directory
/// is empty or ends with one.
pub open spec fn is_in(path: Text, dir: Text, name: Text) -> bool {
    let bare = dir.len() == 0 || dir[dir.len() - 1] == '/';
    &&& bare ==> path == dir + name
    &&& !bare ==> path == dir + seq!['/'] + name
}

/// A joined path names its file in its directory.
pub proof fn files_are_in_their_directory(dir: Text, name: Text)
    ensures
        is_in(joined(dir, name), dir, name),
{
    reveal_strlit("/");
    assert("/"@ =~= seq!['/']);
    assert(dir.len() == 0 ==> dir + name =~= name);
}

proof fn nothing_is_there(grants: Seq<GrantModel>, id: Text)
    ensures
        (forall|k: int| 0 <= k < grants.len() ==> (#[trigger] grants[k]).id != id) ==> grant_at(
            grants,
            id,
        ) is None,
        grant_at(grants, id) matches Some(i) ==> 0 <= i < grants.len() && grants[i].id == id,
    decreases grants.len(),
{
    if grants.len() > 0 {
        let rest = grants.drop_last();
        nothing_is_there(rest, id);
        if forall|k: int| 0 <= k < grants.len() ==> (#[trigger] grants[k]).id != id {
            assert forall|k: int| 0 <= k < rest.len() implies (#[trigger] rest[k]).id != id by {
                assert(rest[k] == grants[k]);
            }
        }
    }
}

proof fn somebody_is_there(grants: Seq<GrantModel>, id: Text, k: int)
    requires
        0 <= k < grants.len(),
        grants[k].id == id,
    ensures
        grant_at(grants, id) is Some,
    decreases grants.len(),
{
    if k < grants.len() - 1 {
        assert(grants.drop_last()[k] == grants[k]);
        somebody_is_there(grants.drop_last(), id, k);
    }
}

proof fn bearers_are_found(grants: Seq<GrantModel>, hash: Text, now: i64)
    ensures
        bearer(
            grants,
            hash,
            now,
        ) matches Some(i) ==> 0 <= i < grants.len() && grants[i].hash == hash
            && grants[i].expires_at_ms > now,
        bearer(grants, hash, now) is None ==> forall|k: int|
            0 <= k < grants.len() ==> (#[trigger] grants[k]).hash != hash || grants[k].expires_at_ms
                <= now,
    decreases grants.len(),
{
    if grants.len() > 0 {
        let rest = grants.drop_last();
        bearers_are_found(rest, hash, now);
        if bearer(grants, hash, now) is None {
            assert forall|k: int| 0 <= k < grants.len() implies (#[trigger] grants[k]).hash != hash
                || grants[k].expires_at_ms <= now by {
                if k < rest.len() {
                    assert(rest[k] == grants[k]);
                }
            }
        }
    }
}

proof fn holders_are_found(grants: Seq<GrantModel>, scope: ScopeModel, now: i64)
    ensures
        holder(grants, scope, now) matches Some(i) ==> 0 <= i < grants.len() && grants[i].scope
            == scope && grants[i].expires_at_ms > now,
        holder(grants, scope, now) is None ==> forall|k: int|
            0 <= k < grants.len() ==> (#[trigger] grants[k]).scope != scope
                || grants[k].expires_at_ms <= now,
    decreases grants.len(),
{
    if grants.len() > 0 {
        let rest = grants.drop_last();
        holders_are_found(rest, scope, now);
        if holder(grants, scope, now) is None {
            assert forall|k: int| 0 <= k < grants.len() implies (#[trigger] grants[k]).scope != scope
                || grants[k].expires_at_ms <= now by {
                if k < rest.len() {
                    assert(rest[k] == grants[k]);
                }
            }
        }
    }
}

/// A token of sixty-four bytes whose grant lasts identifies its scope; nothing else identifies
/// anybody.
pub proof fn tokens_identify_their_scopes(grants: Seq<GrantModel>, token: Text, now: i64, k: int)
    requires
        0 <= k < grants.len(),
        forall|j: int|
            0 <= j < grants.len() && (#[trigger] grants[j]).hash == grants[k].hash ==> j == k,
    ensures
        ({
            let speaks = grants[k].hash == sha256_hex(encode_utf8(token)) && grants[k].expires_at_ms
                > now && byte_len(token) == 64;
            &&& speaks ==> identified(grants, token, now) == Ok::<ScopeModel, WorkError>(
                grants[k].scope,
            )
            &&& identified(grants, token, now) matches Err(error) ==> error.0
                == FailureCode::ScopeMismatch
            &&& identified(grants, token, now) is Ok ==> byte_len(token) == 64
        }),
{
    bearers_are_found(grants, sha256_hex(encode_utf8(token)), now);
}

/// The bearer of a grant that lasts and holds the fence of its own attempt coordinates under that
/// fence, by the name of the attempt and the epoch. Without such a fence nobody does.
pub proof fn fences_make_coordinators(grants: Seq<GrantModel>, token: Text, now: i64, k: int)
    requires
        orderly(grants),
        0 <= k < grants.len(),
        forall|j: int|
            0 <= j < grants.len() && (#[trigger] grants[j]).hash == grants[k].hash ==> j == k,
        grants[k].hash == sha256_hex(encode_utf8(token)),
        grants[k].expires_at_ms > now,
        byte_len(token) == 64,
    ensures
        ({
            let grant = grants[k];
            let own = grant.delegation is Some && grant.delegation->0.coordinator_task_id
                == grant.scope.task_id && grant.delegation->0.coordinator_attempt_id
                == grant.scope.attempt_id;
            match delegated(grants, token, now) {
                Err(error) => !own && error.0 == FailureCode::ScopeMismatch,
                Ok(authority) => own && authority.scope == grant.scope && authority.fence
                    == grant.delegation->0 && authority.actor_id == "delegation:"@
                    + grant.scope.attempt_id + ":"@ + decimal(
                    grant.delegation->0.coordinator_epoch as nat,
                ),
            }
        }),
{
    tokens_identify_their_scopes(grants, token, now, k);
    holders_are_found(grants, grants[k].scope, now);
    if let Some(i) = holder(grants, grants[k].scope, now) {
        if i < k {
            assert(grants[i].scope != grants[k].scope);
        } else if k < i {
            assert(grants[k].scope != grants[i].scope);
        }
    }
}

/// A permit is given exactly where a grant for the scope lasts, and names such a grant.
pub proof fn permits_name_their_grants(grants: Seq<GrantModel>, scope: ScopeModel, now: i64)
    ensures
        permit_for(
            grants,
            scope,
            now,
        ) matches Ok(permit) ==> permit.scope == scope && exists|k: int|
            0 <= k < grants.len() && (#[trigger] grants[k]).scope == scope
                && grants[k].expires_at_ms > now && grants[k].id == permit.grant_id,
        permit_for(grants, scope, now) matches Err(error) ==> error.0 == FailureCode::ScopeMismatch
            && forall|k: int|
            0 <= k < grants.len() ==> (#[trigger] grants[k]).scope != scope
                || grants[k].expires_at_ms <= now,
{
    holders_are_found(grants, scope, now);
}

/// Whether two grants are alike but for what they coordinate.
pub open spec fn reports_alike(a: GrantModel, b: GrantModel) -> bool {
    &&& a.id == b.id
    &&& a.scope == b.scope
    &&& a.hash == b.hash
    &&& a.expires_at_ms == b.expires_at_ms
    &&& a.context_file == b.context_file
}

/// A permit that is used takes hold exactly where the fence is that of the permit's attempt, the
/// grant that the permit names is still there for the scope, and nobody coordinates the task in a
/// later epoch. Then the grant coordinates under the fence, no other grant of the task
/// coordinates, and everything else stays. Otherwise nothing changes.
pub proof fn permits_take_hold_exactly(
    grants: Seq<GrantModel>,
    permit: ActivationPermitModel,
    fence: DelegationFenceModel,
    k: int,
)
    requires
        orderly(grants),
        0 <= k < grants.len(),
        grants[k].id == permit.grant_id,
    ensures
        ({
            let later = activated(grants, permit, fence);
            let own = fence.coordinator_task_id == permit.scope.task_id
                && fence.coordinator_attempt_id == permit.scope.attempt_id;
            let overtaken = exists|j: int|
                0 <= j < grants.len() && (#[trigger] grants[j]).scope.session_id
                    == permit.scope.session_id && grants[j].scope.task_id == permit.scope.task_id
                    && (grants[j].delegation matches Some(held) && held.coordinator_epoch
                    > fence.coordinator_epoch);
            let holds = own && grants[k].scope == permit.scope && !overtaken;
            &&& later.len() == grants.len()
            &&& !holds ==> later == grants
            &&& holds ==> forall|j: int|
                0 <= j < grants.len() ==> {
                    let same_task = grants[j].scope.session_id == permit.scope.session_id
                        && grants[j].scope.task_id == permit.scope.task_id;
                    &&& reports_alike(grants[j], #[trigger] later[j])
                    &&& j == k ==> later[j].delegation == Some(fence)
                    &&& j != k && same_task ==> later[j].delegation is None
                    &&& !same_task ==> later[j].delegation == grants[j].delegation
                }
        }),
{
    nothing_is_there(grants, permit.grant_id);
    somebody_is_there(grants, permit.grant_id, k);
    let i = grant_at(grants, permit.grant_id)->0;
    assert(i == k) by {
        if i < k {
            assert(grants[i].id != grants[k].id);
        } else if k < i {
            assert(grants[k].id != grants[i].id);
        }
    }
    let overtaken = exists|j: int|
        0 <= j < grants.len() && (#[trigger] grants[j]).scope.session_id == permit.scope.session_id
            && grants[j].scope.task_id == permit.scope.task_id && (grants[j].delegation matches
            Some(held) && held.coordinator_epoch > fence.coordinator_epoch);
    let session = permit.scope.session_id;
    let task_id = permit.scope.task_id;
    let epoch = fence.coordinator_epoch;
    if overtaken {
        let j = choose|j: int|
            0 <= j < grants.len() && (#[trigger] grants[j]).scope.session_id
                == permit.scope.session_id && grants[j].scope.task_id == permit.scope.task_id && (
            grants[j].delegation matches Some(held) && held.coordinator_epoch
                > fence.coordinator_epoch);
        assert(outranks(grants[j], session, task_id, epoch));
    }
    if superseded(grants, session, task_id, epoch) {
        let j = choose|j: int|
            0 <= j < grants.len() && #[trigger] outranks(grants[j], session, task_id, epoch);
        assert(grants[j].scope.session_id == permit.scope.session_id);
    }
}

/// Taking coordination away leaves every grant with what it reports for. Clearing a task takes it
/// from every grant of the task; the end of one generation takes it from its own fence in its own
/// scope. Nobody else loses it.
pub proof fn coordination_is_taken_exactly(
    grants: Seq<GrantModel>,
    scope: ScopeModel,
    fence: DelegationFenceModel,
    session: Text,
    task_id: Text,
    k: int,
)
    requires
        0 <= k < grants.len(),
    ensures
        ({
            let swept = cleared(grants, session, task_id);
            let ended = invalidated(grants, scope, fence);
            let grant = grants[k];
            &&& swept.len() == grants.len() && ended.len() == grants.len()
            &&& reports_alike(grant, swept[k]) && reports_alike(grant, ended[k])
            &&& swept[k].delegation == if grant.scope.session_id == session && grant.scope.task_id
                == task_id {
                None
            } else {
                grant.delegation
            }
            &&& ended[k].delegation == if grant.scope == scope && grant.delegation == Some(fence) {
                None
            } else {
                grant.delegation
            }
        }),
{
}

/// The digits of a byte are those of its two halves, the higher half first.
pub proof fn hex_digits_are_halves(bytes: Seq<u8>, i: int)
    requires
        0 <= i < bytes.len(),
    ensures
        hex(bytes).len() == 2 * bytes.len(),
        hex(bytes)[2 * i] == "0123456789abcdef"@[bytes[i] as int / 16],
        hex(bytes)[2 * i + 1] == "0123456789abcdef"@[bytes[i] as int % 16],
    decreases bytes.len(),
{
    hex_length(bytes);
    hex_length(bytes.drop_last());
    let n = bytes.len() - 1;
    if i < n {
        hex_digits_are_halves(bytes.drop_last(), i);
        assert(bytes.drop_last()[i] == bytes[i]);
        half_is_a_digit(bytes.last() as int / 16);
        half_is_a_digit(bytes.last() as int % 16);
    } else {
        half_is_a_digit(bytes.last() as int / 16);
        half_is_a_digit(bytes.last() as int % 16);
    }
}

proof fn half_is_a_digit(n: int)
    requires
        0 <= n < 16,
    ensures
        hex_digit(n) == seq!["0123456789abcdef"@[n]],
{
    reveal_strlit("0123456789abcdef");
    reveal_strlit("0");
    reveal_strlit("1");
    reveal_strlit("2");
    reveal_strlit("3");
    reveal_strlit("4");
    reveal_strlit("5");
    reveal_strlit("6");
    reveal_strlit("7");
    reveal_strlit("8");
    reveal_strlit("9");
    reveal_strlit("a");
    reveal_strlit("b");
    reveal_strlit("c");
    reveal_strlit("d");
    reveal_strlit("e");
    reveal_strlit("f");
    assert(hex_digit(n) =~= seq!["0123456789abcdef"@[n]]);
}

/// A token is made of the first thirty-two bytes that were left to chance, and of nothing else:
/// two draws that differ in the version and variant bytes alone make the same token, and the first
/// byte of the first draw makes its first two digits.
pub proof fn tokens_are_left_to_chance(
    a: Seq<u8>,
    b: Seq<u8>,
    c: Seq<u8>,
    x: Seq<u8>,
    y: Seq<u8>,
    z: Seq<u8>,
)
    requires
        a.len() == 16 && b.len() == 16 && c.len() == 16,
        x.len() == 16 && y.len() == 16 && z.len() == 16,
        forall|i: int|
            0 <= i < 16 && i != 6 && i != 8 ==> a[i] == #[trigger] x[i] && b[i] == y[i] && c[i]
                == z[i],
    ensures
        token_of(a, b, c) == token_of(x, y, z),
        token_of(a, b, c).len() == 64,
        token_of(a, b, c)[0] == "0123456789abcdef"@[a[0] as int / 16],
        token_of(a, b, c)[12] == "0123456789abcdef"@[a[7] as int / 16],
        token_of(a, b, c)[28] == "0123456789abcdef"@[b[0] as int / 16],
        token_of(a, b, c)[56] == "0123456789abcdef"@[c[0] as int / 16],
{
    assert(chance(a) =~= chance(x)) by {
        assert forall|i: int| 0 <= i < 14 implies chance(a)[i] == chance(x)[i] by {
            if i < 6 {
                assert(x[i] == a[i]);
            } else if i == 6 {
                assert(x[7] == a[7]);
            } else {
                assert(x[i + 2] == a[i + 2]);
            }
        }
    }
    assert(chance(b) =~= chance(y)) by {
        assert forall|i: int| 0 <= i < 14 implies chance(b)[i] == chance(y)[i] by {
            if i < 6 {
                assert(x[i] == a[i]);
            } else if i == 6 {
                assert(x[7] == a[7]);
            } else {
                assert(x[i + 2] == a[i + 2]);
            }
        }
    }
    assert(chance(c) =~= chance(z)) by {
        assert forall|i: int| 0 <= i < 14 implies chance(c)[i] == chance(z)[i] by {
            if i < 6 {
                assert(x[i] == a[i]);
            } else if i == 6 {
                assert(x[7] == a[7]);
            } else {
                assert(x[i + 2] == a[i + 2]);
            }
        }
    }
    token_length(a, b, c);
    let bytes = (chance(a) + chance(b) + chance(c)).take(32);
    hex_digits_are_halves(bytes, 0);
    hex_digits_are_halves(bytes, 6);
    hex_digits_are_halves(bytes, 14);
    hex_digits_are_halves(bytes, 28);
}

} // verus!
