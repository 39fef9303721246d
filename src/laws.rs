//! Properties of the submission gate, the decision engine and the resolver,
//! stated over the effects that their operations guarantee.
use vstd::prelude::*;

use crate::database::{
    active_index, active_upto, info_at, lemma_first_time_iff_active, newer, resolve, user_at,
};
use crate::imaging::{prepared_image, variant_of};
use crate::model::{Res, Role, Upload, UploadInfo};
use crate::service::{
    auth_spec, decide_spec, pending_key, published_key, served, submit_spec, unchanged, Decision,
    Service, ServiceError, SubmitOutcome,
};

verus! {

/// A moderator or an admin with a valid image always publishes, replacing
/// whatever the level's canonical artifact held.
pub proof fn lemma_privileged_submit_publishes(
    s0: Service,
    s1: Service,
    session: Option<i64>,
    level_id: i64,
    data: Seq<u8>,
    now: i64,
    r: Result<SubmitOutcome, ServiceError>,
)
    requires
        s0.wf(),
        submit_spec(s0, s1, session, level_id, data, now, r),
        auth_spec(s0.db, session) matches Ok(u) && u.role.is_privileged(),
        prepared_image(data) is Some,
        s0.db.uploads@.len() < i64::MAX,
    ensures
        r == Ok::<SubmitOutcome, ServiceError>(
            SubmitOutcome::Published {
                replaced: s0.files@.contains_key(published_key(level_id)),
                upload_id: (s0.db.uploads@.len() + 1) as i64,
            },
        ),
        s1.files@.contains_key(published_key(level_id)),
        s1.files@[published_key(level_id)] == prepared_image(data).unwrap(),
{
}

/// A verified submitter publishes on a level without a canonical artifact, and
/// otherwise never touches it: the submission is queued unless one of theirs
/// already is.
pub proof fn lemma_verified_submit(
    s0: Service,
    s1: Service,
    session: Option<i64>,
    level_id: i64,
    data: Seq<u8>,
    now: i64,
    r: Result<SubmitOutcome, ServiceError>,
)
    requires
        s0.wf(),
        submit_spec(s0, s1, session, level_id, data, now, r),
        auth_spec(s0.db, session) matches Ok(u) && u.role == Role::Verified,
        prepared_image(data) is Some,
        s0.db.uploads@.len() < i64::MAX,
    ensures
        !s0.files@.contains_key(published_key(level_id)) ==> r == Ok::<
            SubmitOutcome,
            ServiceError,
        >(
            SubmitOutcome::Published {
                replaced: false,
                upload_id: (s0.db.uploads@.len() + 1) as i64,
            },
        ),
        s0.files@.contains_key(published_key(level_id)) ==> s1.files@.contains_key(
            published_key(level_id),
        ) && s1.files@[published_key(level_id)] == s0.files@[published_key(level_id)] && !(
        r is Ok && r.unwrap() is Published),
        s0.files@.contains_key(published_key(level_id)) && !s0.files@.contains_key(
            pending_key(auth_spec(s0.db, session).unwrap().id, level_id),
        ) ==> r == Ok::<SubmitOutcome, ServiceError>(
            SubmitOutcome::Pending { upload_id: (s0.db.uploads@.len() + 1) as i64 },
        ),
{
}

/// A plain user never publishes: the canonical artifact of the level is left
/// as it was, whatever the outcome.
pub proof fn lemma_user_never_publishes(
    s0: Service,
    s1: Service,
    session: Option<i64>,
    level_id: i64,
    data: Seq<u8>,
    now: i64,
    r: Result<SubmitOutcome, ServiceError>,
)
    requires
        s0.wf(),
        submit_spec(s0, s1, session, level_id, data, now, r),
        auth_spec(s0.db, session) matches Ok(u) && u.role == Role::User,
    ensures
        !(r is Ok && r.unwrap() is Published),
        s1.files@.contains_key(published_key(level_id)) == s0.files@.contains_key(
            published_key(level_id),
        ),
        s0.files@.contains_key(published_key(level_id)) ==> s1.files@[published_key(level_id)]
            == s0.files@[published_key(level_id)],
{
}

/// A second submission by the same plain user for the same level, while the
/// first one is pending, is a conflict that changes nothing, and exactly one
/// pending record of theirs for the level remains.
pub proof fn lemma_second_pending_submit_conflicts(
    s0: Service,
    s1: Service,
    s2: Service,
    session: Option<i64>,
    level_id: i64,
    data1: Seq<u8>,
    data2: Seq<u8>,
    now1: i64,
    now2: i64,
    r1: Result<SubmitOutcome, ServiceError>,
    r2: Result<SubmitOutcome, ServiceError>,
)
    requires
        s0.wf(),
        s1.wf(),
        submit_spec(s0, s1, session, level_id, data1, now1, r1),
        submit_spec(s1, s2, session, level_id, data2, now2, r2),
        auth_spec(s0.db, session) matches Ok(u) && u.role == Role::User,
        r1 is Ok,
        prepared_image(data2) is Some,
    ensures
        r2 == Err::<SubmitOutcome, ServiceError>(ServiceError::Conflict),
        unchanged(s1, s2),
        ({
            let uid = auth_spec(s0.db, session).unwrap().id;
            exists|i: int|
                0 <= i < s2.db.uploads@.len() && (#[trigger] s2.db.uploads@[i]).is_pending()
                    && s2.db.uploads@[i].user_id == uid && s2.db.uploads@[i].level_id == level_id
                    && forall|j: int|
                    0 <= j < s2.db.uploads@.len() && (#[trigger] s2.db.uploads@[j]).is_pending()
                        && s2.db.uploads@[j].user_id == uid && s2.db.uploads@[j].level_id
                        == level_id ==> j == i
        }),
{
    let n = s0.db.uploads@.len() as int;
    let uid = auth_spec(s0.db, session).unwrap().id;
    assert(auth_spec(s1.db, session) == auth_spec(s0.db, session));
    assert(s2.db.uploads@[n].is_pending());
    assert forall|j: int|
        0 <= j < s2.db.uploads@.len() && (#[trigger] s2.db.uploads@[j]).is_pending()
            && s2.db.uploads@[j].user_id == uid && s2.db.uploads@[j].level_id == level_id implies j
        == n by {
        if j < n {
            assert(s1.db.uploads@[j].is_pending() && s1.db.uploads@[n].is_pending());
        }
    }
}

/// Accepting a pending upload cannot be repeated: a second verdict on it is
/// refused as already decided and changes nothing.
pub proof fn lemma_accept_not_repeatable(
    s0: Service,
    s1: Service,
    s2: Service,
    session1: Option<i64>,
    session2: Option<i64>,
    upload_id: i64,
    reason1: Option<String>,
    accept2: bool,
    reason2: Option<String>,
    now1: i64,
    now2: i64,
    r1: Result<Decision, ServiceError>,
    r2: Result<Decision, ServiceError>,
)
    requires
        s0.wf(),
        decide_spec(s0, s1, session1, upload_id, true, reason1, now1, r1),
        decide_spec(s1, s2, session2, upload_id, accept2, reason2, now2, r2),
        r1 is Ok,
        auth_spec(s1.db, session2) matches Ok(u) && u.role.is_privileged(),
    ensures
        r2 == Err::<Decision, ServiceError>(ServiceError::AlreadyDecided),
        unchanged(s1, s2),
{
    assert(s1.db.uploads@[upload_id - 1].accepted);
}

/// Under an update of position `k` that is accepted for `level` neither
/// before nor after, the active upload of every prefix stays the same.
proof fn lemma_active_ignores_unaccepted(
    a: Seq<Upload>,
    b: Seq<Upload>,
    level: i64,
    k: int,
    n: int,
)
    requires
        a.len() == b.len(),
        0 <= n <= a.len(),
        0 <= k < a.len(),
        forall|j: int| 0 <= j < a.len() && j != k ==> a[j] == b[j],
        !a[k].accepted,
        !b[k].accepted,
    ensures
        active_upto(a, level, n) == active_upto(b, level, n),
    decreases n,
{
    if n > 0 {
        lemma_active_ignores_unaccepted(a, b, level, k, n - 1);
        lemma_first_time_iff_active(a, level, n - 1);
    }
}

/// An accepted upload for `level` at `k` that is newer than every other
/// accepted upload for `level` is the active one of every prefix holding it.
proof fn lemma_newest_is_active(ups: Seq<Upload>, level: i64, k: int, n: int)
    requires
        k < n <= ups.len(),
        0 <= k,
        ups[k].accepted,
        ups[k].level_id == level,
        forall|j: int|
            0 <= j < ups.len() && j != k && ups[j].accepted && ups[j].level_id == level ==> newer(
                ups[k],
                ups[j],
            ),
    ensures
        active_upto(ups, level, n) == Some(k),
    decreases n,
{
    lemma_first_time_iff_active(ups, level, n - 1);
    if n - 1 > k {
        lemma_newest_is_active(ups, level, k, n - 1);
    }
}

/// After an acceptance the resolver returns the accepted submitter and the
/// canonical artifact of the level, provided no other accepted upload of the
/// level is more recent; after a rejection it returns what it did before.
pub proof fn lemma_decision_and_resolver(
    s0: Service,
    s1: Service,
    session: Option<i64>,
    upload_id: i64,
    accept: bool,
    reason: Option<String>,
    now: i64,
    r: Result<Decision, ServiceError>,
)
    requires
        s0.wf(),
        decide_spec(s0, s1, session, upload_id, accept, reason, now, r),
        r is Ok,
        accept ==> forall|j: int|
            0 <= j < s0.db.uploads@.len() && j != upload_id - 1 && s0.db.uploads@[j].accepted
                && s0.db.uploads@[j].level_id == s0.db.uploads@[upload_id - 1].level_id ==> newer(
                s0.db.uploads@[upload_id - 1],
                s0.db.uploads@[j],
            ),
    ensures
        ({
            let u = s0.db.uploads@[upload_id - 1];
            let owner = user_at(s0.db.users@, u.user_id);
            &&& accept ==> resolve(s1.db.users@, s1.db.uploads@, u.level_id) == Some(
                UploadInfo {
                    account_id: owner.account_id,
                    username: owner.username,
                    artifact: published_key(u.level_id),
                },
            )
            &&& !accept ==> forall|level: i64|
                resolve(s1.db.users@, s1.db.uploads@, level) == resolve(
                    s0.db.users@,
                    s0.db.uploads@,
                    level,
                )
        }),
{
    let k = upload_id - 1;
    let a = s0.db.uploads@;
    let b = s1.db.uploads@;
    let u = a[k];
    if accept {
        assert forall|j: int|
            0 <= j < b.len() && j != k && b[j].accepted && b[j].level_id == u.level_id implies newer(
            b[k],
            b[j],
        ) by {
            assert(b[j] == a[j]);
        }
        lemma_newest_is_active(b, u.level_id, k, b.len() as int);
        assert(info_at(s1.db.users@, b, k).artifact == published_key(u.level_id));
    } else {
        assert forall|level: i64|
            resolve(s1.db.users@, b, level) == resolve(s0.db.users@, a, level) by {
            lemma_active_ignores_unaccepted(a, b, level, k, a.len() as int);
            lemma_first_time_iff_active(a, level, a.len() as int);
            if active_index(a, level) is Some {
                let p = active_index(a, level).unwrap();
                assert(p != k);
                assert(a[p] == b[p]);
            }
        }
    }
}

/// An image submitted by a plain user and then accepted is served at full
/// resolution byte for byte as it was stored at submission, provided no
/// accepted upload of the level has a later upload time than the submission.
pub proof fn lemma_submit_accept_round_trip(
    s0: Service,
    s1: Service,
    s2: Service,
    session: Option<i64>,
    moderator: Option<i64>,
    level_id: i64,
    data: Seq<u8>,
    now1: i64,
    now2: i64,
    reason: Option<String>,
    upload_id: i64,
    r2: Result<Decision, ServiceError>,
)
    requires
        s0.wf(),
        s1.wf(),
        auth_spec(s0.db, session) matches Ok(u) && u.role == Role::User,
        submit_spec(
            s0,
            s1,
            session,
            level_id,
            data,
            now1,
            Ok::<SubmitOutcome, ServiceError>(SubmitOutcome::Pending { upload_id }),
        ),
        decide_spec(s1, s2, moderator, upload_id, true, reason, now2, r2),
        r2 is Ok,
        forall|j: int|
            0 <= j < s0.db.uploads@.len() && s0.db.uploads@[j].accepted
                && s0.db.uploads@[j].level_id == level_id ==> s0.db.uploads@[j].upload_time
                <= now1,
    ensures
        served(s2, level_id, Res::High) matches Ok((info, bytes)) && bytes == prepared_image(
            data,
        ).unwrap() && info.artifact == published_key(level_id),
{
    let n = s0.db.uploads@.len() as int;
    let uid = auth_spec(s0.db, session).unwrap().id;
    assert(upload_id == n + 1);
    assert(s1.db.uploads@[n].is_pending());
    assert(s1.files@[pending_key(uid, level_id)] == prepared_image(data).unwrap());
    assert forall|j: int|
        0 <= j < s1.db.uploads@.len() && j != n && s1.db.uploads@[j].accepted
            && s1.db.uploads@[j].level_id == level_id implies newer(
        s1.db.uploads@[n],
        s1.db.uploads@[j],
    ) by {
        assert(s1.db.uploads@[j] == s0.db.uploads@[j]);
    }
    lemma_decision_and_resolver(s1, s2, moderator, upload_id, true, reason, now2, r2);
    assert(variant_of(s2.files@[published_key(level_id)], Res::High) == Some(
        s2.files@[published_key(level_id)],
    ));
}

} // verus!
