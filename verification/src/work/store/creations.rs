//! What creating a task and recording an upload leave behind.
use vstd::prelude::*;
use crate::digest::is_uuid;
use crate::text::byte_len;
use crate::text::is_absolute;
use crate::text::is_said;
use crate::value::Text;
use crate::work::model::CreateTaskModel;
use crate::work::model::DelegationFenceModel;
use crate::work::model::DependencyRequirement;
use crate::work::model::FailureCode;
use crate::work::model::FrozenInputRefModel;
use crate::work::model::InputReceipt;
use crate::work::model::InputReceiptModel;
use crate::work::model::InputRefModel;
use crate::work::model::InputShare;
use crate::work::model::InputShareModel;
use crate::work::model::InputUploadModel;
use crate::work::model::InputUse;
use crate::work::model::OperationKind;
use crate::work::model::Task;
use crate::work::model::TaskModel;
use crate::work::model::WorkError;
use crate::work::model::no_delegation;
use crate::work::store::admissions::parent_at;
use crate::work::store::admissions::refused_nestings_have_reasons;
use crate::work::store::authority::DelegatedCreateModel;
use crate::work::store::authority::may_create;
use crate::work::store::changes::changed;
use crate::work::store::effects::change_lands;
use crate::work::store::effects::keys_stand_for_requests;
use crate::work::store::effects::new_key;
use crate::work::store::effects::others_stay;
use crate::work::store::effects::others_stayed;
use crate::work::store::effects::put_lands;
use crate::work::store::effects::remembered;
use crate::work::store::effects::same_place;
use crate::work::store::effects::standing_is_recorded;
use crate::work::store::freshness::tasks_stand;
use crate::work::store::growth::fresh_ids;
use crate::work::store::growth::sharing_grows;
use crate::work::store::history::changing_grows;
use crate::work::store::history::claiming_grows;
use crate::work::store::history::growth_is_transitive;
use crate::work::store::history::putting_grows;
use crate::work::store::history::unused;
use crate::work::store::history::upload_in_range;
use crate::work::store::history::well_formed;
use crate::work::store::inputs::claimed;
use crate::work::store::inputs::frozen;
use crate::work::store::inputs::frozen_all;
use crate::work::store::inputs::input_at;
use crate::work::store::inputs::may_share;
use crate::work::store::inputs::parent_shares;
use crate::work::store::inputs::reference_to;
use crate::work::store::inputs::resolved;
use crate::work::store::inputs::share_for;
use crate::work::store::inputs::share_valid;
use crate::work::store::inputs::shareable;
use crate::work::store::inputs::shared;
use crate::work::store::inputs::shares_filed;
use crate::work::store::inputs::shares_of;
use crate::work::store::inputs::still;
use crate::work::store::inputs::unchanged;
use crate::work::store::inputs::uploaded;
use crate::work::store::inputs::valid_refs;
use crate::work::store::readings::announces;
use crate::work::store::readings::reads_give_what_is_recorded;
use crate::work::store::readings::recorded_as;
use crate::work::store::records::listed;
use crate::work::store::records::loaded;
use crate::work::store::records::position;
use crate::work::store::records::position_in_range;
use crate::work::store::records::put;
use crate::work::store::requests::receipt_in_range;
use crate::work::store::requests::replayed;
use crate::work::store::rules::is_policy;
use crate::work::store::rules::names;
use crate::work::store::rules::nestable;
use crate::work::store::rules::within;
use crate::work::store::tables::BodyModel;
use crate::work::store::tables::DelegatedOriginModel;
use crate::work::store::tables::InputRowModel;
use crate::work::store::tables::ReceiptBodyModel;
use crate::work::store::tables::RecordModel;
use crate::work::store::tables::RequestKind;
use crate::work::store::tables::StoreModel;
use crate::work::store::tasks::create_outcome;
use crate::work::store::tasks::create_request;
use crate::work::store::tasks::creation_admitted;
use crate::work::store::tasks::fresh_task;
use crate::work::store::tasks::inherited_policy;
use crate::work::store::tasks::is_creatable;
use crate::work::store::tasks::task_count;
use crate::work::store::uploads::upload_outcome;
use crate::work::store::uploads::upload_request;

verus! {

/// Whether some references name an upload.
pub open spec fn names_upload(refs: Seq<FrozenInputRefModel>, id: Text) -> bool {
    exists|k: int| 0 <= k < refs.len() && (#[trigger] refs[k]).input_id == id
}

/// Whether a row is what became of another when a task claimed the uploads that some references
/// name.
pub open spec fn is_claimed_row(
    was: InputRowModel,
    row: InputRowModel,
    task: Text,
    refs: Seq<FrozenInputRefModel>,
) -> bool {
    &&& row.id == was.id && row.actor == was.actor && row.session == was.session && row.repo_path
        == was.repo_path && row.body == was.body
    &&& was.claimed_task is Some ==> row.claimed_task == was.claimed_task
    &&& was.claimed_task is None && names_upload(refs, was.id) ==> row.claimed_task == Some(task)
    &&& was.claimed_task is None && !names_upload(refs, was.id) ==> row.claimed_task is None
}

/// A task claims the free uploads that its references name, and no others; what another task holds
/// stays with it.
pub proof fn claims_are_exact(
    s: StoreModel,
    session: Text,
    task: Text,
    refs: Seq<FrozenInputRefModel>,
)
    requires
        well_formed(s),
    ensures
        claimed(s, session, task, refs) matches Ok(later) ==> {
            &&& later == (StoreModel { inputs: later.inputs, ..s })
            &&& later.inputs.len() == s.inputs.len()
            &&& forall|i: int|
                0 <= i < s.inputs.len() ==> is_claimed_row(
                    s.inputs[i],
                    #[trigger] later.inputs[i],
                    task,
                    refs,
                )
            &&& forall|k: int|
                0 <= k < refs.len() ==> (uploaded(s, session, (#[trigger] refs[k]).input_id) is Some)
        },
    decreases refs.len(),
{
    if refs.len() > 0 && claimed(s, session, task, refs) is Ok {
        let rest = refs.drop_last();
        claims_are_exact(s, session, task, rest);
        let before = claimed(s, session, task, rest)->Ok_0;
        let later = claimed(s, session, task, refs)->Ok_0;
        let id = refs.last().input_id;
        upload_in_range(before.inputs, id);
        let at = input_at(before.inputs, id)->0;
        same_upload(s.inputs, before.inputs, id);
        assert forall|k: int| 0 <= k < refs.len() implies uploaded(
            s,
            session,
            (#[trigger] refs[k]).input_id,
        ) is Some by {
            if k < rest.len() {
                assert(rest[k] == refs[k]);
            } else {
                assert(is_claimed_row(s.inputs[at], before.inputs[at], task, rest));
            }
        }
        assert forall|i: int| 0 <= i < s.inputs.len() implies is_claimed_row(
            s.inputs[i],
            #[trigger] later.inputs[i],
            task,
            refs,
        ) by {
            let was = s.inputs[i];
            assert(is_claimed_row(was, before.inputs[i], task, rest));
            assert(names_upload(refs, was.id) <==> names_upload(rest, was.id) || was.id == id) by {
                if names_upload(rest, was.id) {
                    let k = choose|k: int|
                        0 <= k < rest.len() && (#[trigger] rest[k]).input_id == was.id;
                    assert(refs[k].input_id == was.id);
                }
                if was.id == id {
                    assert(refs[refs.len() - 1].input_id == was.id);
                }
                if names_upload(refs, was.id) {
                    let k = choose|k: int|
                        0 <= k < refs.len() && (#[trigger] refs[k]).input_id == was.id;
                    if k < rest.len() {
                        assert(rest[k].input_id == was.id);
                    }
                }
            }
            if was.id == id {
                assert(i == at) by {
                    assert(before.inputs[at].id == id && before.inputs[i].id == id);
                    assert(is_claimed_row(s.inputs[at], before.inputs[at], task, rest));
                    if i < at {
                        assert(s.inputs[i].id != s.inputs[at].id);
                    } else if at < i {
                        assert(s.inputs[at].id != s.inputs[i].id);
                    }
                }
            } else {
                assert(before.inputs[at].id == id);
            }
        }
    }
}

proof fn same_upload(a: Seq<InputRowModel>, b: Seq<InputRowModel>, id: Text)
    requires
        a.len() == b.len(),
        forall|i: int| 0 <= i < a.len() ==> (#[trigger] b[i]).id == a[i].id,
    ensures
        input_at(a, id) == input_at(b, id),
    decreases a.len(),
{
    if a.len() > 0 {
        assert(b[b.len() - 1].id == a[a.len() - 1].id);
        assert forall|i: int| 0 <= i < a.drop_last().len() implies (#[trigger] b.drop_last()[i]).id
            == a.drop_last()[i].id by {
            assert(b[i].id == a[i].id);
        }
        same_upload(a.drop_last(), b.drop_last(), id);
    }
}

/// Whether a reference was admitted as what it names was uploaded, with the caption and the use
/// that were asked for.
pub open spec fn is_kept_as_uploaded(
    row: InputRowModel,
    reference: InputRefModel,
    kept: FrozenInputRefModel,
) -> bool {
    &&& kept.input_id == row.body.input_id
    &&& kept.caption == reference.caption
    &&& kept.use_ == reference.use_
    &&& kept.name == row.body.name
    &&& kept.mime == row.body.mime
    &&& kept.size_bytes == row.body.size_bytes
    &&& kept.sha256 == row.body.sha256
}

/// Whether an actor may name an upload for a task in a repository: it was uploaded for that
/// repository, and is the task's own, was shared with it, or is free, the actor's own and not
/// expired.
pub open spec fn may_be_named(
    s: StoreModel,
    actor: Text,
    session: Text,
    repo: Text,
    task: Option<Text>,
    reference: InputRefModel,
    now: i64,
) -> bool {
    uploaded(s, session, reference.input_id) matches Some(row) && row.repo_path == repo && (
    match row.claimed_task {
        None => row.actor == actor && now < row.body.expires_at_ms,
        Some(holder) => task matches Some(asking) && (asking == holder || share_valid(
            s,
            session,
            asking,
            row.body,
            reference.use_,
        ) is Ok),
    })
}

/// A reference is admitted exactly where its upload may be named, and is kept as it was uploaded.
/// An own, free upload that ran out is expired; anything else is the wrong scope, unless a share
/// says why.
pub proof fn references_are_kept_exactly(
    s: StoreModel,
    actor: Text,
    session: Text,
    repo: Text,
    task: Option<Text>,
    reference: InputRefModel,
    now: i64,
)
    ensures
        frozen(s, actor, session, repo, task, reference, now) is Ok <==> may_be_named(
            s,
            actor,
            session,
            repo,
            task,
            reference,
            now,
        ),
        frozen(
            s,
            actor,
            session,
            repo,
            task,
            reference,
            now,
        ) matches Ok(kept) ==> is_kept_as_uploaded(
            uploaded(s, session, reference.input_id)->0,
            reference,
            kept,
        ),
        frozen(s, actor, session, repo, task, reference, now) matches Err(error) ==> {
            let row = uploaded(s, session, reference.input_id)->0;
            &&& error.0 == FailureCode::InputExpired ==> uploaded(s, session, reference.input_id)
                is Some && row.repo_path == repo && row.claimed_task is None && row.actor == actor
                && now >= row.body.expires_at_ms || row.claimed_task is Some
            &&& uploaded(
                s,
                session,
                reference.input_id,
            ) is None || row.repo_path != repo ==> error.0
                == FailureCode::ScopeMismatch
            &&& uploaded(s, session, reference.input_id) is Some && row.repo_path == repo
                && row.claimed_task is None ==> error.0 == (if row.actor == actor {
                FailureCode::InputExpired
            } else {
                FailureCode::ScopeMismatch
            })
        },
{
}

/// References are admitted together: all of them, each as it was uploaded, in the order in which
/// they were asked for. There are at most nine, to nine different uploads, with captions of up to
/// 4096 bytes.
pub proof fn references_are_kept_in_order(
    s: StoreModel,
    actor: Text,
    session: Text,
    repo: Text,
    task: Option<Text>,
    refs: Seq<InputRefModel>,
    now: i64,
)
    ensures
        resolved(s, actor, session, repo, task, refs, now) matches Ok(kept) ==> {
            &&& kept.len() == refs.len() && refs.len() <= 9
            &&& forall|k: int|
                0 <= k < refs.len() ==> may_be_named(
                    s,
                    actor,
                    session,
                    repo,
                    task,
                    #[trigger] refs[k],
                    now,
                ) && is_kept_as_uploaded(
                    uploaded(s, session, refs[k].input_id)->0,
                    refs[k],
                    kept[k],
                ) && is_uuid(refs[k].input_id) && byte_len(refs[k].caption) <= 4096
                    && !refs[k].caption.contains('\0')
            &&& forall|i: int, j: int|
                0 <= i < j < refs.len() ==> (#[trigger] refs[i]).input_id != (
                #[trigger] refs[j]).input_id
        },
        resolved(s, actor, session, repo, task, refs, now) is Err ==> {
            ||| refs.len() > 9
            ||| exists|k: int|
                0 <= k < refs.len() && (!may_be_named(
                    s,
                    actor,
                    session,
                    repo,
                    task,
                    #[trigger] refs[k],
                    now,
                ) || !is_uuid(refs[k].input_id) || byte_len(refs[k].caption) > 4096
                    || refs[k].caption.contains('\0'))
            ||| exists|i: int, j: int|
                0 <= i < j < refs.len() && (#[trigger] refs[i]).input_id == (
                #[trigger] refs[j]).input_id
        },
{
    each_is_kept(s, actor, session, repo, task, refs, now);
}

proof fn each_is_kept(
    s: StoreModel,
    actor: Text,
    session: Text,
    repo: Text,
    task: Option<Text>,
    refs: Seq<InputRefModel>,
    now: i64,
)
    ensures
        frozen_all(s, actor, session, repo, task, refs, now) matches Ok(kept) ==> kept.len()
            == refs.len() && forall|k: int|
            0 <= k < refs.len() ==> may_be_named(
                s,
                actor,
                session,
                repo,
                task,
                #[trigger] refs[k],
                now,
            ) && is_kept_as_uploaded(uploaded(s, session, refs[k].input_id)->0, refs[k], kept[k]),
        frozen_all(s, actor, session, repo, task, refs, now) is Err ==> exists|k: int|
            0 <= k < refs.len() && !may_be_named(
                s,
                actor,
                session,
                repo,
                task,
                #[trigger] refs[k],
                now,
            ),
    decreases refs.len(),
{
    if refs.len() > 0 {
        let rest = refs.drop_last();
        each_is_kept(s, actor, session, repo, task, rest, now);
        references_are_kept_exactly(s, actor, session, repo, task, refs.last(), now);
        if frozen_all(s, actor, session, repo, task, rest, now) is Err {
            let k = choose|k: int|
                0 <= k < rest.len() && !may_be_named(
                    s,
                    actor,
                    session,
                    repo,
                    task,
                    #[trigger] rest[k],
                    now,
                );
            assert(rest[k] == refs[k]);
        } else if frozen_all(s, actor, session, repo, task, refs, now) is Err {
            assert(refs[refs.len() - 1] == refs.last());
        } else {
            let kept = frozen_all(s, actor, session, repo, task, refs, now)->Ok_0;
            let before = frozen_all(s, actor, session, repo, task, rest, now)->Ok_0;
            assert forall|k: int| 0 <= k < refs.len() implies may_be_named(
                s,
                actor,
                session,
                repo,
                task,
                #[trigger] refs[k],
                now,
            ) && is_kept_as_uploaded(
                uploaded(s, session, refs[k].input_id)->0,
                refs[k],
                kept[k],
            ) by {
                if k < rest.len() {
                    assert(rest[k] == refs[k]);
                    assert(kept[k] == before[k]);
                }
            }
        }
    }
}

/// Whether a share lets a task use an upload: it comes from the task's own parent, which holds the
/// claim and has the upload among its inputs, in the same repository, and nothing of what it says
/// of the upload has changed; and the use was given to the parent and is permitted by the share.
pub open spec fn share_holds(
    s: StoreModel,
    session: Text,
    task_id: Text,
    share: InputShareModel,
    receipt: InputReceiptModel,
    requested: InputUse,
) -> bool {
    let child = loaded::<Task>(s, session, task_id);
    let parent = loaded::<Task>(s, session, share.source_task_id);
    &&& share.input_id == receipt.input_id
    &&& share.recipient_task_id == task_id
    &&& share.sha256 == receipt.sha256
    &&& share.size_bytes == receipt.size_bytes
    &&& share.name == receipt.name
    &&& share.mime == receipt.mime
    &&& requested == InputUse::MayInclude ==> share.permitted_use == InputUse::MayInclude
    &&& share.permitted_use == InputUse::MayInclude ==> share.source_use == InputUse::MayInclude
    &&& child is Ok && parent is Ok
    &&& child->Ok_0.parent_task_id == Some(share.source_task_id)
    &&& child->Ok_0.repo_path == parent->Ok_0.repo_path
    &&& parent->Ok_0.repo_path == receipt.repo_path
    &&& uploaded(s, session, receipt.input_id) matches Some(row) && row.claimed_task == Some(
        share.source_task_id,
    )
    &&& reference_to(parent->Ok_0.input_refs, receipt.input_id) matches Some(source)
        && source.input_id == receipt.input_id && source.sha256 == receipt.sha256
        && source.size_bytes == receipt.size_bytes && source.name == receipt.name && source.mime
        == receipt.mime && source.use_ == share.source_use
}

/// A task uses what another claimed exactly where the one share of it that is filed under the task
/// holds.
pub proof fn shares_hold_exactly(
    s: StoreModel,
    session: Text,
    task_id: Text,
    receipt: InputReceiptModel,
    requested: InputUse,
)
    requires
        well_formed(s),
    ensures
        ({
            let mine = shares_of(
                listed::<InputShare>(s.records, session, task_id),
                receipt.input_id,
            );
            share_valid(s, session, task_id, receipt, requested) is Ok <==> mine.len() == 1
                && share_holds(s, session, task_id, mine[0], receipt, requested)
        }),
{
    let mine = shares_of(listed::<InputShare>(s.records, session, task_id), receipt.input_id);
    tasks_stand(s, session, task_id);
    if mine.len() == 1 {
        tasks_stand(s, session, mine[0].source_task_id);
        let at = only_share(listed::<InputShare>(s.records, session, task_id), receipt.input_id);
        if let Ok(parent) = loaded::<Task>(s, session, mine[0].source_task_id) {
            reference_is_among(parent.input_refs, receipt.input_id);
        }
    }
}

/// The shares of one upload are those that name it, in order.
pub proof fn shares_are_those_that_name(shares: Seq<InputShareModel>, id: Text)
    ensures
        shares_of(shares, id) == shares.filter(|share: InputShareModel| share.input_id == id),
    decreases shares.len(),
{
    reveal(Seq::filter);
    if shares.len() > 0 {
        shares_are_those_that_name(shares.drop_last(), id);
    } else {
        assert(shares_of(shares, id) =~= shares.filter(
            |share: InputShareModel| share.input_id == id,
        ));
    }
}

proof fn only_share(shares: Seq<InputShareModel>, id: Text) -> (at: int)
    requires
        shares_of(shares, id).len() == 1,
    ensures
        0 <= at < shares.len(),
        shares[at] == shares_of(shares, id)[0],
        shares[at].input_id == id,
        forall|j: int| 0 <= j < shares.len() && j != at ==> (#[trigger] shares[j]).input_id != id,
    decreases shares.len(),
{
    let rest = shares.drop_last();
    if shares.last().input_id == id {
        no_share(rest, id);
        assert forall|j: int| 0 <= j < shares.len() && j != shares.len() - 1 implies (
        #[trigger] shares[j]).input_id != id by {
            assert(rest[j] == shares[j]);
        }
        shares.len() - 1
    } else {
        let at = only_share(rest, id);
        assert forall|j: int| 0 <= j < shares.len() && j != at implies (
        #[trigger] shares[j]).input_id != id by {
            if j < rest.len() {
                assert(rest[j] == shares[j]);
            }
        }
        at
    }
}

proof fn no_share(shares: Seq<InputShareModel>, id: Text)
    requires
        shares_of(shares, id).len() == 0,
    ensures
        forall|j: int| 0 <= j < shares.len() ==> (#[trigger] shares[j]).input_id != id,
    decreases shares.len(),
{
    if shares.len() > 0 {
        let rest = shares.drop_last();
        no_share(rest, id);
        assert forall|j: int| 0 <= j < shares.len() implies (#[trigger] shares[j]).input_id != id by {
            if j < rest.len() {
                assert(rest[j] == shares[j]);
            }
        }
    }
}

proof fn reference_is_among(refs: Seq<FrozenInputRefModel>, id: Text)
    ensures
        reference_to(refs, id) matches Some(reference) ==> reference.input_id == id && exists|k: int|
            0 <= k < refs.len() && #[trigger] refs[k] == reference,
        reference_to(refs, id) is None ==> forall|k: int|
            0 <= k < refs.len() ==> (#[trigger] refs[k]).input_id != id,
    decreases refs.len(),
{
    if refs.len() > 0 {
        let rest = refs.drop_last();
        reference_is_among(rest, id);
        if reference_to(rest, id) is Some {
            let k = choose|k: int| 0 <= k < rest.len() && #[trigger] rest[k] == reference_to(rest, id)->0;
            assert(refs[k] == rest[k]);
        } else if refs.last().input_id == id {
            assert(refs[refs.len() - 1] == refs.last());
        } else {
            assert forall|k: int| 0 <= k < refs.len() implies (#[trigger] refs[k]).input_id != id by {
                if k < rest.len() {
                    assert(rest[k] == refs[k]);
                }
            }
        }
    }
}

/// An upload that is recorded is told with what was uploaded, expires two days later unless a task
/// claims it, and is free and its actor's own. Nothing else changes. Up to 100000 are kept.
pub proof fn uploading_is_exact(
    s: StoreModel,
    id: Text,
    actor: Text,
    session: Text,
    key: Text,
    input: InputUploadModel,
    now: i64,
)
    requires
        well_formed(s),
    ensures
        upload_outcome(s, id, actor, session, key, input, now) matches Ok((later, receipt)) ==> {
            ||| later == s && exists|i: int|
                0 <= i < s.receipts.len() && (#[trigger] s.receipts[i]).actor == actor
                    && s.receipts[i].session == session && s.receipts[i].kind
                    == RequestKind::InputUpload && s.receipts[i].request_key == key
                    && s.receipts[i].body == ReceiptBodyModel::Input(receipt)
            ||| {
                let n = s.inputs.len() as int;
                &&& new_key(s, actor, session, RequestKind::InputUpload, key)
                &&& n < 100_000
                &&& receipt.input_id == id
                &&& receipt.session_id == session
                &&& receipt.repo_path == input.repo_path
                &&& receipt.name == input.name
                &&& receipt.mime == input.mime
                &&& receipt.size_bytes == input.size_bytes && input.size_bytes <= 10_485_760
                &&& receipt.sha256 == input.sha256
                &&& receipt.created_at_ms == now
                &&& receipt.expires_at_ms == now + 172_800_000
                &&& later.inputs.len() == n + 1
                &&& later.inputs.take(n) == s.inputs
                &&& later.inputs[n].id == id
                &&& later.inputs[n].actor == actor
                &&& later.inputs[n].session == session
                &&& later.inputs[n].repo_path == input.repo_path
                &&& later.inputs[n].claimed_task is None
                &&& later.inputs[n].body == receipt
                &&& remembered(
                    s,
                    later,
                    actor,
                    session,
                    RequestKind::InputUpload,
                    key,
                    ReceiptBodyModel::Input(receipt),
                )
                &&& later == (StoreModel {
                    inputs: later.inputs,
                    receipts: later.receipts,
                    ..s
                })
            }
        },
        upload_outcome(s, id, actor, session, key, input, now) matches Err(error) ==> {
            ||| error.0 == FailureCode::InvalidInput
            ||| error.0 == FailureCode::RequestKeyConflict && !new_key(
                s,
                actor,
                session,
                RequestKind::InputUpload,
                key,
            )
            ||| error.0 == FailureCode::ResourceLimit && (s.inputs.len() >= 100_000
                || s.receipts.len() >= 100_000)
            ||| error.0 == FailureCode::StorageUnavailable
        },
{
    let request = upload_request(actor, session, key, input);
    keys_stand_for_requests::<InputReceipt>(s, request);
    if let Ok((later, receipt)) = upload_outcome(s, id, actor, session, key, input, now) {
        if replayed::<InputReceipt>(s, request)->Ok_0 is None {
            assert(later.inputs.take(s.inputs.len() as int) =~= s.inputs);
            assert(later.receipts.take(s.receipts.len() as int) =~= s.receipts);
        }
    }
    receipt_in_range(s.receipts, actor, session, RequestKind::InputUpload, key);
}

/// Whether a task is the one that was asked for, as it is first recorded: at revision 1, not
/// paused, and with delegation off.
pub open spec fn is_as_asked(
    task: TaskModel,
    id: Text,
    session: Text,
    input: CreateTaskModel,
    now: i64,
) -> bool {
    &&& task.id == id
    &&& task.session_id == session
    &&& task.repo_path == input.repo_path
    &&& task.title == input.title
    &&& task.brief == input.brief
    &&& task.parent_task_id == input.parent_task_id
    &&& task.policy == input.policy
    &&& task.revision == 1
    &&& task.created_at_ms == now
    &&& task.updated_at_ms == now
    &&& !task.paused
    &&& !task.delegation.policy.enabled
    &&& task.delegation.coordinator_attempt_id is None
    &&& task.delegation.coordinator_epoch == 0
}

/// Whether the words of a request for a task are admissible: an absolute path of up to 4096 bytes,
/// a title of up to 240 and a brief of up to 65536 bytes, none blank or with a NUL.
pub open spec fn has_fit_words(input: CreateTaskModel) -> bool {
    &&& is_absolute(input.repo_path) && is_said(input.repo_path) && byte_len(input.repo_path)
        <= 4096
    &&& is_said(input.title) && byte_len(input.title) <= 240
    &&& is_said(input.brief) && byte_len(input.brief) <= 65536
}

/// Whether a parent, where one is named, admits a task: it is in the same repository, has as many
/// workers and all the agents.
pub open spec fn is_fit_below(s: StoreModel, session: Text, input: CreateTaskModel) -> bool {
    input.parent_task_id matches Some(id) ==> (loaded::<Task>(s, session, id) matches Ok(parent)
        && parent.repo_path == input.repo_path && input.policy.max_workers
        <= parent.policy.max_workers && forall|i: int|
        0 <= i < input.policy.allowed_agents.len() ==> parent.policy.allowed_agents.contains(
            #[trigger] input.policy.allowed_agents[i],
        ))
}

/// A task that is created without a coordinator is recorded as it was asked for, with its inputs
/// as they were uploaded, which it claims. It depends on nothing. Nothing else is recorded, and
/// the stream says that the task was created.
pub proof fn creating_is_exact(
    s: StoreModel,
    id: Text,
    origin_id: Text,
    share_ids: Seq<Text>,
    actor: Text,
    session: Text,
    key: Text,
    input: CreateTaskModel,
    refs: Seq<InputRefModel>,
    now: i64,
)
    requires
        well_formed(s),
        unused(s, id),
    ensures
        create_outcome(
            s,
            id,
            origin_id,
            share_ids,
            actor,
            session,
            key,
            input,
            refs,
            None,
            now,
        ) matches Ok((later, answer)) ==> {
            let kind = RequestKind::Work(OperationKind::CreateTask);
            let task = answer.value;
            &&& answer.replayed ==> later == s
            &&& !answer.replayed ==> {
                &&& new_key(s, actor, session, kind, key)
                &&& has_fit_words(input) && is_fit_below(s, session, input)
                &&& is_as_asked(task, id, session, input, now)
                &&& task.dependencies.len() == 0
                &&& task.delegation.policy.max_children == 16 && task.delegation.policy.max_depth
                    == 1 && task.delegation.policy.dependency_requirement
                    == DependencyRequirement::ResultAvailable
                &&& resolved(s, actor, session, input.repo_path, None, refs, now) == Ok::<
                    Seq<FrozenInputRefModel>,
                    WorkError,
                >(task.input_refs)
                &&& recorded_as(later, session, id, BodyModel::Task(task))
                &&& later.inputs.len() == s.inputs.len() && forall|i: int|
                    0 <= i < s.inputs.len() ==> is_claimed_row(
                        s.inputs[i],
                        #[trigger] later.inputs[i],
                        id,
                        task.input_refs,
                    )
                &&& others_stay(s, later, seq![id])
                &&& announces(s, later, session, id, 1, "task_created"@, id)
                &&& remembered(s, later, actor, session, kind, key, ReceiptBodyModel::Task(task))
            }
        },
{
    let outcome = create_outcome(
        s,
        id,
        origin_id,
        share_ids,
        actor,
        session,
        key,
        input,
        refs,
        None,
        now,
    );
    let request = create_request(actor, session, key, input, refs, None);
    keys_stand_for_requests::<Task>(s, request);
    if outcome is Ok && !outcome->Ok_0.1.replayed {
        let (later, answer) = outcome->Ok_0;
        let inputs = resolved(s, actor, session, input.repo_path, None, refs, now)->Ok_0;
        claims_are_exact(s, session, id, inputs);
        claiming_grows(s, session, id, inputs);
        let held = claimed(s, session, id, inputs)->Ok_0;
        let fresh = TaskModel {
            input_refs: inputs,
            ..fresh_task(id, session, input, Seq::empty(), no_delegation(), now)
        };
        change_lands(s, held, fresh, "task_created"@, id, now);
        let next = changed(held, fresh, "task_created"@, id, now)->Ok_0.0;
        changing_grows(held, fresh, "task_created"@, id, now);
        growth_is_transitive(s, held, next);
        assert(later.records == next.records);
        assert forall|other: Text| !seq![id].contains(other) implies #[trigger] same_place(
            s,
            next,
            other,
        ) by {
            assert(seq![id][0] == id);
            assert(same_place(held, next, other));
        }
        others_stayed(s, next, seq![id]);
        assert(later.receipts.take(s.receipts.len() as int) =~= s.receipts);
        assert(is_fit_below(s, session, input)) by {
            if let Some(parent_id) = input.parent_task_id {
                let parent = loaded::<Task>(s, session, parent_id)->Ok_0;
                assert forall|i: int| 0 <= i < input.policy.allowed_agents.len() implies
                    parent.policy.allowed_agents.contains(
                    #[trigger] input.policy.allowed_agents[i],
                ) by {
                    assert(names(parent.policy.allowed_agents, input.policy.allowed_agents[i]));
                }
            }
        }
    }
}

/// Whether a share is filed for a child's input: from its parent, with the use that the parent has
/// and the use that the child is given, as the upload was admitted, in the coordinator's name.
pub open spec fn is_shared_as(
    share: InputShareModel,
    id: Text,
    parent: TaskModel,
    child_id: Text,
    fence: DelegationFenceModel,
    kept: FrozenInputRefModel,
    now: i64,
) -> bool {
    &&& share.id == id
    &&& share.source_task_id == parent.id
    &&& share.recipient_task_id == child_id
    &&& share.input_id == kept.input_id
    &&& reference_to(parent.input_refs, kept.input_id) matches Some(source) && share.source_use
        == source.use_
    &&& share.permitted_use == kept.use_
    &&& share.sha256 == kept.sha256
    &&& share.size_bytes == kept.size_bytes
    &&& share.name == kept.name
    &&& share.mime == kept.mime
    &&& share.coordinator_attempt_id == fence.coordinator_attempt_id
    &&& share.coordinator_epoch == fence.coordinator_epoch
    &&& share.created_at_ms == now
}

/// Whether a share is recorded for a child's input.
pub open spec fn has_share(
    s: StoreModel,
    session: Text,
    id: Text,
    parent: TaskModel,
    child_id: Text,
    fence: DelegationFenceModel,
    kept: FrozenInputRefModel,
    now: i64,
) -> bool {
    position(s.records, id) matches Some(i) && 0 <= i < s.records.len() && s.records[i].session
        == session && s.records[i].task_id == child_id && (s.records[i].body matches
        BodyModel::InputShare(share) && is_shared_as(
        share,
        id,
        parent,
        child_id,
        fence,
        kept,
        now,
    ))
}

/// Each input of a child is shared with it, under an identifier of its own.
proof fn shares_are_filed(
    s: StoreModel,
    session: Text,
    parent: TaskModel,
    child_id: Text,
    fence: DelegationFenceModel,
    existing: Seq<InputShareModel>,
    refs: Seq<FrozenInputRefModel>,
    ids: Seq<Text>,
    now: i64,
)
    requires
        well_formed(s),
        fresh_ids(s, ids),
        refs.len() <= ids.len(),
    ensures
        shares_filed(
            s,
            session,
            parent,
            child_id,
            fence,
            existing,
            refs,
            ids,
            now,
        ) matches Ok(later)
            ==> {
            &&& later == (StoreModel { records: later.records, ..s })
            &&& forall|k: int|
                0 <= k < refs.len() ==> has_share(
                    later,
                    session,
                    ids[k],
                    parent,
                    child_id,
                    fence,
                    #[trigger] refs[k],
                    now,
                )
        },
    decreases refs.len(),
{
    if refs.len() > 0 && shares_filed(
        s,
        session,
        parent,
        child_id,
        fence,
        existing,
        refs,
        ids,
        now,
    ) is Ok {
        let rest = refs.drop_last();
        shares_are_filed(s, session, parent, child_id, fence, existing, rest, ids, now);
        sharing_grows(s, session, parent, child_id, fence, existing, rest, ids, now);
        let before = shares_filed(
            s,
            session,
            parent,
            child_id,
            fence,
            existing,
            rest,
            ids,
            now,
        )->Ok_0;
        let later = shares_filed(
            s,
            session,
            parent,
            child_id,
            fence,
            existing,
            refs,
            ids,
            now,
        )->Ok_0;
        let n = refs.len() - 1;
        let id = ids[n];
        assert(unused(s, id));
        assert forall|k: int| 0 <= k < rest.len() implies (#[trigger] ids[k]) != id by {}
        assert(position(before.records, id) == position(s.records, id));
        let source = reference_to(parent.input_refs, refs.last().input_id)->0;
        let body = BodyModel::InputShare(
            share_for(id, parent, child_id, fence, source, refs.last(), now),
        );
        put_lands(before, session, id, child_id, body);
        assert forall|k: int| 0 <= k < refs.len() implies has_share(
            later,
            session,
            ids[k],
            parent,
            child_id,
            fence,
            #[trigger] refs[k],
            now,
        ) by {
            if k < n {
                assert(rest[k] == refs[k]);
                assert(has_share(before, session, ids[k], parent, child_id, fence, rest[k], now));
                assert(ids[k] != id);
                assert(same_place(before, later, ids[k]));
            }
        }
    }
}

/// A child that a coordinator creates is recorded as it was asked for, with the prerequisites that
/// were given, and with its parent's policy for delegation, off and one level less deep. Its
/// inputs are its parent's, each shared with it. Who created it is noted, its parent goes on to
/// the next revision, and the stream says first that the task was created and then that the parent
/// has a child.
#[verifier::rlimit(60)]
#[verifier::spinoff_prover]
pub proof fn creating_children_is_exact(
    s: StoreModel,
    id: Text,
    origin_id: Text,
    share_ids: Seq<Text>,
    actor: Text,
    session: Text,
    key: Text,
    input: CreateTaskModel,
    refs: Seq<InputRefModel>,
    context: DelegatedCreateModel,
    now: i64,
)
    requires
        well_formed(s),
        fresh_ids(s, share_ids.push(id).push(origin_id)),
        share_ids.len() >= 9,
    ensures
        create_outcome(
            s,
            id,
            origin_id,
            share_ids,
            actor,
            session,
            key,
            input,
            refs,
            Some(context),
            now,
        ) matches Ok((later, answer)) ==> {
            let kind = RequestKind::Work(OperationKind::CreateTask);
            let task = answer.value;
            let above = context.fence.coordinator_task_id;
            &&& answer.replayed ==> later == s
            &&& !answer.replayed ==> {
                &&& new_key(s, actor, session, kind, key)
                &&& has_fit_words(input)
                &&& may_create(s, session, input, context) is Ok
                &&& is_as_asked(task, id, session, input, now)
                &&& task.dependencies == context.dependencies
                &&& recorded_as(later, session, id, BodyModel::Task(task))
                &&& loaded::<Task>(s, session, above) matches Ok(parent) && ({
                    let given = parent.delegation.policy;
                    let taken = task.delegation.policy;
                    &&& taken.max_children == given.max_children
                    &&& taken.dependency_requirement == given.dependency_requirement
                    &&& given.max_depth > 0 && taken.max_depth == given.max_depth - 1
                    &&& parent_shares(s, actor, session, parent, refs, now) == Ok::<
                        Seq<FrozenInputRefModel>,
                        WorkError,
                    >(task.input_refs)
                    &&& recorded_as(
                        later,
                        session,
                        above,
                        BodyModel::Task(
                            TaskModel {
                                revision: (parent.revision + 1) as u64,
                                updated_at_ms: now,
                                ..parent
                            },
                        ),
                    )
                    &&& later.changes.len() > 0 && later.changes.last().task_id == above
                        && later.changes.last().revision == parent.revision + 1
                        && later.changes.last().kind == "child_created"@
                        && later.changes.last().entity_id == id && later.changes.last().session
                        == session
                    &&& exists|mid: StoreModel| #[trigger]
                        announces(s, mid, session, id, 1, "task_created"@, id) && announces(
                            mid,
                            later,
                            session,
                            above,
                            parent.revision + 1,
                            "child_created"@,
                            id,
                        )
                    &&& forall|k: int|
                        0 <= k < task.input_refs.len() ==> has_share(
                            later,
                            session,
                            share_ids[k],
                            parent,
                            id,
                            context.fence,
                            #[trigger] task.input_refs[k],
                            now,
                        )
                })
                &&& recorded_as(
                    later,
                    session,
                    origin_id,
                    BodyModel::DelegatedOrigin(
                        DelegatedOriginModel { actor_id: actor, fence: context.fence },
                    ),
                )
                &&& later.inputs == s.inputs
                &&& remembered(s, later, actor, session, kind, key, ReceiptBodyModel::Task(task))
            }
        },
{
    let outcome = create_outcome(
        s,
        id,
        origin_id,
        share_ids,
        actor,
        session,
        key,
        input,
        refs,
        Some(context),
        now,
    );
    let request = create_request(actor, session, key, input, refs, Some(context));
    keys_stand_for_requests::<Task>(s, request);
    if outcome is Ok && !outcome->Ok_0.1.replayed {
        let (later, answer) = outcome->Ok_0;
        let ids = share_ids.push(id).push(origin_id);
        let n = share_ids.len() as int;
        assert(ids[n] == id && ids[n + 1] == origin_id);
        assert forall|k: int| 0 <= k < share_ids.len() implies share_ids[k] != id && share_ids[k]
            != origin_id && unused(s, #[trigger] share_ids[k]) by {
            assert(ids[k] == share_ids[k]);
        }
        assert forall|j: int, k: int| 0 <= j < k < share_ids.len() implies (#[trigger] share_ids[j])
            != (#[trigger] share_ids[k]) by {
            assert(ids[j] == share_ids[j] && ids[k] == share_ids[k]);
        }
        assert(unused(s, id) && unused(s, origin_id) && id != origin_id);
        let above = context.fence.coordinator_task_id;
        let parent = loaded::<Task>(s, session, above)->Ok_0;
        tasks_stand(s, session, above);
        position_in_range(s.records, above);
        let inputs = parent_shares(s, actor, session, parent, refs, now)->Ok_0;
        references_are_kept_in_order(
            s,
            actor,
            session,
            parent.repo_path,
            Some(parent.id),
            refs,
            now,
        );
        let existing = listed::<InputShare>(s.records, session, id);
        shares_are_filed(s, session, parent, id, context.fence, existing, inputs, share_ids, now);
        sharing_grows(s, session, parent, id, context.fence, existing, inputs, share_ids, now);
        let given = shared(s, session, parent, id, context.fence, inputs, share_ids, now)->Ok_0;
        assert(position(given.records, id) == position(s.records, id));
        assert(position(given.records, origin_id) == position(s.records, origin_id));
        assert(position(given.records, above) == position(s.records, above)) by {
            assert forall|k: int| 0 <= k < inputs.len() implies (#[trigger] share_ids[k])
                != above by {
                assert(unused(s, share_ids[k]));
            }
        }
        let fresh = TaskModel {
            input_refs: inputs,
            ..fresh_task(
                id,
                session,
                input,
                context.dependencies,
                inherited_policy(parent.delegation.policy),
                now,
            )
        };
        change_lands(s, given, fresh, "task_created"@, id, now);
        let (made, created) = changed(given, fresh, "task_created"@, id, now)->Ok_0;
        changing_grows(given, fresh, "task_created"@, id, now);
        assert(same_place(given, made, origin_id));
        assert(same_place(given, made, above));
        let origin = BodyModel::DelegatedOrigin(
            DelegatedOriginModel { actor_id: actor, fence: context.fence },
        );
        put_lands(made, session, origin_id, id, origin);
        putting_grows(made, session, origin_id, id, origin);
        let noted = put(made, session, origin_id, id, origin)->Ok_0;
        assert(same_place(made, noted, above));
        assert(same_place(made, noted, id));
        assert(loaded::<Task>(noted, session, above) == Ok::<TaskModel, WorkError>(parent));
        change_lands(made, noted, parent, "child_created"@, id, now);
        let next = changed(noted, parent, "child_created"@, id, now)->Ok_0.0;
        assert(same_place(noted, next, id));
        assert(same_place(noted, next, origin_id));
        assert(announces(s, made, session, id, 1, "task_created"@, id));
        assert(later.changes == next.changes && later.last_cursor == next.last_cursor);
        assert(announces(
            made,
            later,
            session,
            above,
            parent.revision + 1,
            "child_created"@,
            id,
        ));
        standing_is_recorded(next, session, id);
        standing_is_recorded(next, session, above);
        let at = position(next.records, origin_id)->0;
        assert(next.records[at].body == origin && next.records[at].session == session);
        assert forall|k: int| 0 <= k < created.input_refs.len() implies has_share(
            later,
            session,
            share_ids[k],
            parent,
            id,
            context.fence,
            #[trigger] created.input_refs[k],
            now,
        ) by {
            assert(has_share(
                given,
                session,
                share_ids[k],
                parent,
                id,
                context.fence,
                inputs[k],
                now,
            ));
            assert(unused(s, share_ids[k]));
            assert(same_place(given, made, share_ids[k]));
            assert(same_place(made, noted, share_ids[k]));
            assert(same_place(noted, next, share_ids[k]));
        }
        assert(later.receipts.take(s.receipts.len() as int) =~= s.receipts);
    }
}

/// A parent shares an upload exactly where the upload is among its own inputs with a use that
/// covers what is asked, and it holds the claim.
pub proof fn parents_share_exactly(
    s: StoreModel,
    session: Text,
    parent: TaskModel,
    reference: InputRefModel,
)
    ensures
        may_share(s, session, parent, reference) is Ok <==> (reference_to(
            parent.input_refs,
            reference.input_id,
        ) matches Some(source) && (reference.use_ == InputUse::MayInclude ==> source.use_
            == InputUse::MayInclude) && (uploaded(s, session, reference.input_id) matches Some(row)
            && row.claimed_task == Some(parent.id))),
        may_share(s, session, parent, reference) matches Err(error) ==> error.0 == (if (
        reference_to(parent.input_refs, reference.input_id) matches Some(source) && (reference.use_
            == InputUse::MayInclude ==> source.use_ == InputUse::MayInclude)) && uploaded(
            s,
            session,
            reference.input_id,
        ) is None {
            FailureCode::StorageUnavailable
        } else {
            FailureCode::ScopeMismatch
        }),
{
}

/// What a parent passes on is what it was given: each input is kept as it was uploaded, may be
/// shared, and is still what the parent's own input says.
pub proof fn parents_pass_on_what_they_have(
    s: StoreModel,
    actor: Text,
    session: Text,
    parent: TaskModel,
    refs: Seq<InputRefModel>,
    now: i64,
    k: int,
)
    requires
        0 <= k < refs.len(),
    ensures
        parent_shares(s, actor, session, parent, refs, now) matches Ok(kept) ==> {
            &&& kept.len() == refs.len()
            &&& may_share(s, session, parent, refs[k]) is Ok
            &&& kept[k].caption == refs[k].caption && kept[k].use_ == refs[k].use_
            &&& reference_to(parent.input_refs, kept[k].input_id) matches Some(source)
                && kept[k].sha256 == source.sha256 && kept[k].size_bytes == source.size_bytes
                && kept[k].mime == source.mime && kept[k].name == source.name
        },
{
    if let Ok(kept) = parent_shares(s, actor, session, parent, refs, now) {
        references_are_kept_in_order(
            s,
            actor,
            session,
            parent.repo_path,
            Some(parent.id),
            refs,
            now,
        );
        each_may_be_shared(s, session, parent, refs, k);
        each_is_still(parent, kept, k);
    }
}

proof fn each_may_be_shared(
    s: StoreModel,
    session: Text,
    parent: TaskModel,
    refs: Seq<InputRefModel>,
    k: int,
)
    requires
        0 <= k < refs.len(),
        shareable(s, session, parent, refs) is Ok,
    ensures
        may_share(s, session, parent, refs[k]) is Ok,
    decreases refs.len(),
{
    if k < refs.len() - 1 {
        each_may_be_shared(s, session, parent, refs.drop_last(), k);
        assert(refs.drop_last()[k] == refs[k]);
    }
}

proof fn each_is_still(parent: TaskModel, refs: Seq<FrozenInputRefModel>, k: int)
    requires
        0 <= k < refs.len(),
        unchanged(parent, refs) is Ok,
    ensures
        still(parent, refs[k]) is Ok,
    decreases refs.len(),
{
    if k < refs.len() - 1 {
        each_is_still(parent, refs.drop_last(), k);
        assert(refs.drop_last()[k] == refs[k]);
    }
}

/// A task is refused only for a reason: its words, its policy or its references are not
/// admissible, its key is taken, its coordinator may not, there are 10000 tasks, or its parent
/// does not admit it.
pub proof fn refused_creations_have_reasons(
    s: StoreModel,
    session: Text,
    input: CreateTaskModel,
    refs: Seq<InputRefModel>,
    context: Option<DelegatedCreateModel>,
)
    requires
        well_formed(s),
    ensures
        !is_creatable(input, refs) ==> !has_fit_words(input) || !is_policy(input.policy)
            || !valid_refs(refs),
        creation_admitted(s, session, input, context) matches Err(error) ==> {
            ||| context matches Some(context) && may_create(s, session, input, context) matches Err(
                other,
            ) && other == error
            ||| error.0 == FailureCode::ResourceLimit && s.records.filter(
                |r: RecordModel| r.body is Task,
            ).len() >= 10000
            ||| error.0 == FailureCode::NotFound && input.parent_task_id is Some
            ||| error.0 == FailureCode::ScopeMismatch && !is_fit_below(s, session, input)
            ||| error.0 == FailureCode::ResourceLimit && (input.parent_task_id matches Some(id)
                && exists|n: nat| #[trigger] parent_at(s, session, id, n) is Some && n >= 15)
        },
        creation_admitted(s, session, input, context) is Ok ==> is_fit_below(s, session, input)
            && s.records.filter(|r: RecordModel| r.body is Task).len() < 10000,
{
    tasks_are_counted(s.records);
    if let Some(id) = input.parent_task_id {
        reads_give_what_is_recorded(s, session, id);
        if let Ok(parent) = loaded::<Task>(s, session, id) {
            let inner = input.policy.allowed_agents;
            let outer = parent.policy.allowed_agents;
            assert(within(inner, outer) <==> forall|i: int|
                0 <= i < inner.len() ==> outer.contains(#[trigger] inner[i])) by {
                assert forall|i: int| 0 <= i < inner.len() implies (names(outer, #[trigger] inner[i])
                    <==> outer.contains(inner[i])) by {}
            }
            assert(nestable(s, session, None, 1) is Ok);
            if let Some(next) = parent.parent_task_id {
                refused_nestings_have_reasons(s, session, next, 1);
                if let Err(error) = nestable(s, session, Some(next), 1) {
                    if error.0 == FailureCode::ResourceLimit {
                        let n = choose|n: nat| #[trigger]
                            parent_at(s, session, next, n) is Some && 1 + n >= 15;
                        let up: nat = n + 1;
                        assert(parent_at(s, session, id, up) == parent_at(s, session, next, n));
                        assert(parent_at(s, session, id, up) is Some && up >= 15);
                    }
                }
            }
        }
    }
}

proof fn tasks_are_counted(records: Seq<RecordModel>)
    ensures
        task_count(records) == records.filter(|r: RecordModel| r.body is Task).len(),
    decreases records.len(),
{
    reveal(Seq::filter);
    if records.len() > 0 {
        tasks_are_counted(records.drop_last());
    }
}

} // verus!
