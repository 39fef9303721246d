//! The record store: accounts and the append-only history of uploads, with
//! the queries the moderation flow needs (pending queue, active thumbnail,
//! per-account statistics).
use vstd::prelude::*;

use crate::model::{
    ArtifactKey, PendingUpload, Role, Upload, UploadExtended, UploadInfo, User, UserStats,
};

verus! {

/// Why a record-store operation did not take place.
#[derive(Debug, Clone, Copy, PartialEq, Eq, Structural)]
pub enum StoreError {
    /// No record has the requested id.
    NotFound,
    /// The upload exists but was already accepted or rejected.
    AlreadyDecided,
    /// Every id that a new record could take is in use.
    IdsExhausted,
}

/// Accounts and the append-only history of uploads. Record ids are handed out
/// in order from 1, so the record with id `n` sits at position `n - 1`.
pub struct Database {
    pub users: Vec<User>,
    pub uploads: Vec<Upload>,
}

/// `a` is more recent than `b`: a later upload time, or the same time and a
/// later id.
pub open spec fn newer(a: Upload, b: Upload) -> bool {
    a.upload_time > b.upload_time || (a.upload_time == b.upload_time && a.id > b.id)
}

/// Position of the most recent accepted upload for `level` among the first `n`.
pub open spec fn active_upto(ups: Seq<Upload>, level: i64, n: int) -> Option<int>
    decreases n,
{
    if n <= 0 {
        None
    } else {
        let prev = active_upto(ups, level, n - 1);
        let u = ups[n - 1];
        if u.accepted && u.level_id == level && (match prev {
            Some(p) => !newer(ups[p], u),
            None => true,
        }) {
            Some(n - 1)
        } else {
            prev
        }
    }
}

/// Position of the active upload of `level`: the most recent accepted one.
pub open spec fn active_index(ups: Seq<Upload>, level: i64) -> Option<int> {
    active_upto(ups, level, ups.len() as int)
}

/// Earliest upload time among the first `n` accepted uploads for `level`.
pub open spec fn first_time_upto(ups: Seq<Upload>, level: i64, n: int) -> Option<i64>
    decreases n,
{
    if n <= 0 {
        None
    } else {
        let prev = first_time_upto(ups, level, n - 1);
        let u = ups[n - 1];
        if u.accepted && u.level_id == level {
            match prev {
                Some(t) => if u.upload_time < t {
                    Some(u.upload_time)
                } else {
                    Some(t)
                },
                None => Some(u.upload_time),
            }
        } else {
            prev
        }
    }
}

/// What the queue shows of an upload.
pub open spec fn pending_view(u: Upload) -> PendingUpload {
    PendingUpload {
        id: u.id,
        user_id: u.user_id,
        level_id: u.level_id,
        accepted: u.accepted,
        upload_time: u.upload_time,
    }
}

/// The record that `add_upload` appends.
pub open spec fn new_upload(
    id: i64,
    level_id: i64,
    user_id: i64,
    artifact: ArtifactKey,
    accepted: bool,
    now: i64,
) -> Upload {
    Upload {
        id,
        user_id,
        level_id,
        upload_time: now,
        accepted,
        accepted_time: if accepted {
            Some(now)
        } else {
            None
        },
        accepted_by: if accepted {
            Some(user_id)
        } else {
            None
        },
        artifact,
        reason: None,
    }
}

/// An upload after a moderator's verdict. An accepted upload now lives in the
/// canonical slot of its level.
pub open spec fn decided(
    u: Upload,
    accepted_by: i64,
    reason: Option<String>,
    accept: bool,
    now: i64,
) -> Upload {
    Upload {
        accepted: accept,
        accepted_time: Some(now),
        accepted_by: Some(accepted_by),
        reason,
        artifact: if accept {
            ArtifactKey::Published { level_id: u.level_id }
        } else {
            u.artifact
        },
        ..u
    }
}

/// The account behind a valid user id.
pub open spec fn user_at(users: Seq<User>, id: i64) -> User {
    users[id - 1]
}

/// Submitter and location of the upload at position `k`.
pub open spec fn info_at(users: Seq<User>, ups: Seq<Upload>, k: int) -> UploadInfo {
    let u = ups[k];
    let owner = user_at(users, u.user_id);
    UploadInfo { account_id: owner.account_id, username: owner.username, artifact: u.artifact }
}

/// The active thumbnail of `level` joined with its submitter.
pub open spec fn resolve(users: Seq<User>, ups: Seq<Upload>, level: i64) -> Option<UploadInfo> {
    match active_index(ups, level) {
        Some(k) => Some(info_at(users, ups, k)),
        None => None,
    }
}

/// Audit view of the active thumbnail of `level`.
pub open spec fn resolve_extended(users: Seq<User>, ups: Seq<Upload>, level: i64) -> Option<
    UploadExtended,
> {
    match active_index(ups, level) {
        Some(k) => {
            let u = ups[k];
            let owner = user_at(users, u.user_id);
            Some(
                UploadExtended {
                    level_id: u.level_id,
                    account_id: owner.account_id,
                    username: owner.username,
                    upload_time: u.upload_time,
                    first_upload_time: first_time_upto(ups, level, ups.len() as int).unwrap(),
                    accepted_time: u.accepted_time,
                    accepted_by: match u.accepted_by {
                        Some(b) => Some(user_at(users, b).account_id),
                        None => None,
                    },
                    accepted_by_username: match u.accepted_by {
                        Some(b) => Some(user_at(users, b).username),
                        None => None,
                    },
                },
            )
        },
        None => None,
    }
}

/// An accepted upload for the level exists among the first `n` exactly when
/// an earliest time does.
pub proof fn lemma_first_time_iff_active(ups: Seq<Upload>, level: i64, n: int)
    requires
        0 <= n <= ups.len(),
    ensures
        active_upto(ups, level, n) is Some <==> first_time_upto(ups, level, n) is Some,
        active_upto(ups, level, n) matches Some(k) ==> 0 <= k < n && ups[k].accepted
            && ups[k].level_id == level,
    decreases n,
{
    if n > 0 {
        lemma_first_time_iff_active(ups, level, n - 1);
    }
}

/// Which pending uploads a queue listing shows.
#[derive(Debug, Clone, Copy, PartialEq, Eq, Structural)]
pub enum PendingFilter {
    All,
    ByLevel(i64),
    ByUser(i64),
}

/// `u` is pending and passes `f`.
pub open spec fn selected(u: Upload, f: PendingFilter) -> bool {
    u.is_pending() && match f {
        PendingFilter::All => true,
        PendingFilter::ByLevel(level) => u.level_id == level,
        PendingFilter::ByUser(user) => u.user_id == user,
    }
}

/// `a` comes before `b` in a queue listing: a later upload time, or the same
/// time and a later id.
pub open spec fn listed_before(a: PendingUpload, b: PendingUpload) -> bool {
    a.upload_time > b.upload_time || (a.upload_time == b.upload_time && a.id > b.id)
}

/// Most recent first, without repetitions.
pub open spec fn recency_ordered(s: Seq<PendingUpload>) -> bool {
    forall|a: int, b: int| 0 <= a < b < s.len() ==> listed_before(#[trigger] s[a], #[trigger] s[b])
}

/// `x` is what the queue shows of one of the first `n` uploads that `f` selects.
pub open spec fn listed(ups: Seq<Upload>, f: PendingFilter, n: int, x: PendingUpload) -> bool {
    exists|k: int| 0 <= k < n && selected(#[trigger] ups[k], f) && pending_view(ups[k]) == x
}

fn selects(u: &Upload, f: PendingFilter) -> (r: bool)
    ensures
        r == selected(*u, f),
{
    u.pending() && match f {
        PendingFilter::All => true,
        PendingFilter::ByLevel(level) => u.level_id == level,
        PendingFilter::ByUser(user) => u.user_id == user,
    }
}

/// The counts that make up the statistics of an account.
#[derive(Debug, Clone, Copy, PartialEq, Eq, Structural)]
pub enum Tally {
    /// Uploads by the account.
    Uploads,
    /// Accepted uploads by the account.
    AcceptedUploads,
    /// Distinct levels the account uploaded for.
    Levels,
    /// Distinct levels for which an upload of the account was accepted.
    AcceptedLevels,
    /// Levels whose active thumbnail is the account's.
    ActiveThumbnails,
}

/// The upload at `k` is by `id` and is the first one before it, among those by
/// `id` (and accepted, if `accepted_only`), for its level.
pub open spec fn first_for_level(ups: Seq<Upload>, id: i64, k: int, accepted_only: bool) -> bool {
    &&& ups[k].user_id == id
    &&& (accepted_only ==> ups[k].accepted)
    &&& !exists|j: int|
        0 <= j < k && #[trigger] ups[j].user_id == id && ups[j].level_id == ups[k].level_id && (
        accepted_only ==> ups[j].accepted)
}

/// The upload at `k` counts towards tally `t` of account `id`.
pub open spec fn tallied(ups: Seq<Upload>, id: i64, t: Tally, k: int) -> bool {
    match t {
        Tally::Uploads => ups[k].user_id == id,
        Tally::AcceptedUploads => ups[k].user_id == id && ups[k].accepted,
        Tally::Levels => first_for_level(ups, id, k, false),
        Tally::AcceptedLevels => first_for_level(ups, id, k, true),
        Tally::ActiveThumbnails => ups[k].user_id == id && active_index(ups, ups[k].level_id)
            == Some(k),
    }
}

/// Number of the first `n` uploads that count towards tally `t` of `id`.
pub open spec fn tally(ups: Seq<Upload>, id: i64, t: Tally, n: int) -> nat
    decreases n,
{
    if n <= 0 {
        0
    } else {
        tally(ups, id, t, n - 1) + if tallied(ups, id, t, n - 1) {
            1nat
        } else {
            0nat
        }
    }
}

/// Statistics of the account with id `id`.
pub open spec fn stats_of(users: Seq<User>, ups: Seq<Upload>, id: i64) -> Option<UserStats> {
    if 1 <= id <= users.len() {
        let u = user_at(users, id);
        let n = ups.len() as int;
        Some(
            UserStats {
                id: u.id,
                account_id: u.account_id,
                username: u.username,
                role: u.role,
                upload_count: tally(ups, id, Tally::Uploads, n) as i64,
                accepted_upload_count: tally(ups, id, Tally::AcceptedUploads, n) as i64,
                level_count: tally(ups, id, Tally::Levels, n) as i64,
                accepted_level_count: tally(ups, id, Tally::AcceptedLevels, n) as i64,
                active_thumbnail_count: tally(ups, id, Tally::ActiveThumbnails, n) as i64,
            },
        )
    } else {
        None
    }
}

/// Effect of a find-or-create of the account `account_id`: an existing account
/// is returned as it is; otherwise one is created with the `User` role, unless
/// no id is left.
pub open spec fn found_or_created(
    db0: Database,
    db1: Database,
    account_id: i64,
    username: Seq<char>,
    r: Result<User, StoreError>,
) -> bool {
    &&& db1.uploads@ == db0.uploads@
    &&& forall|i: int|
        0 <= i < db0.users@.len() && db0.users@[i].account_id == account_id ==> r == Ok::<
            User,
            StoreError,
        >(db0.users@[i]) && db1.users@ == db0.users@
    &&& (forall|i: int| 0 <= i < db0.users@.len() ==> db0.users@[i].account_id != account_id)
        ==> if db0.users@.len() < i64::MAX {
        match r {
            Ok(u) => u.id == db0.users@.len() + 1 && u.account_id == account_id && u.username@
                == username && u.role == Role::User && db1.users@ == db0.users@.push(u),
            Err(_) => false,
        }
    } else {
        r == Err::<User, StoreError>(StoreError::IdsExhausted) && db1.users@ == db0.users@
    }
}

impl Database {
    pub open spec fn valid_user_id(&self, id: i64) -> bool {
        1 <= id <= self.users@.len()
    }

    pub open spec fn user_spec(&self, id: i64) -> Option<User> {
        if self.valid_user_id(id) {
            Some(self.users@[id - 1])
        } else {
            None
        }
    }

    pub open spec fn upload_spec(&self, id: i64) -> Option<Upload> {
        if 1 <= id <= self.uploads@.len() {
            Some(self.uploads@[id - 1])
        } else {
            None
        }
    }

    pub open spec fn wf(&self) -> bool {
        &&& forall|i: int| 0 <= i < self.users@.len() ==> #[trigger] self.users@[i].id == i + 1
        &&& forall|i: int, j: int|
            0 <= i < j < self.users@.len() ==> #[trigger] self.users@[i].account_id
                != #[trigger] self.users@[j].account_id
        &&& forall|i: int|
            0 <= i < self.uploads@.len() ==> {
                let u = #[trigger] self.uploads@[i];
                &&& u.id == i + 1
                &&& self.valid_user_id(u.user_id)
                &&& (u.accepted ==> u.accepted_time is Some)
                &&& (u.accepted_time is Some <==> u.accepted_by is Some)
                &&& (u.accepted_by matches Some(b) ==> self.valid_user_id(b))
            }
    }

    pub fn new() -> (r: Database)
        ensures
            r.wf(),
            r.users@.len() == 0,
            r.uploads@.len() == 0,
    {
        Database { users: Vec::new(), uploads: Vec::new() }
    }

    pub fn get_user_by_id(&self, id: i64) -> (r: Option<User>)
        requires
            self.wf(),
        ensures
            r == self.user_spec(id),
    {
        if 1 <= id && (id as u64) <= (self.users.len() as u64) {
            Some(self.users[(id - 1) as usize].duplicate())
        } else {
            None
        }
    }
    /// Appends an upload record; an accepted one counts as accepted by its
    /// own submitter at `now`. Returns the new record's id.
    pub fn add_upload(
        &mut self,
        level_id: i64,
        user_id: i64,
        artifact: ArtifactKey,
        accepted: bool,
        now: i64,
    ) -> (r: Result<i64, StoreError>)
        requires
            old(self).wf(),
            old(self).valid_user_id(user_id),
        ensures
            final(self).wf(),
            final(self).users@ == old(self).users@,
            old(self).uploads@.len() < i64::MAX ==> r == Ok::<i64, StoreError>(
                (old(self).uploads@.len() + 1) as i64,
            ) && final(self).uploads@ == old(self).uploads@.push(
                new_upload(
                    (old(self).uploads@.len() + 1) as i64,
                    level_id,
                    user_id,
                    artifact,
                    accepted,
                    now,
                ),
            ),
            old(self).uploads@.len() >= i64::MAX ==> r == Err::<i64, StoreError>(
                StoreError::IdsExhausted,
            ) && final(self).uploads@ == old(self).uploads@,
    {
        let n = self.uploads.len();
        if (n as u64) >= (i64::MAX as u64) {
            return Err(StoreError::IdsExhausted);
        }
        let id = (n as i64) + 1;
        let u = Upload {
            id,
            user_id,
            level_id,
            upload_time: now,
            accepted,
            accepted_time: if accepted {
                Some(now)
            } else {
                None
            },
            accepted_by: if accepted {
                Some(user_id)
            } else {
                None
            },
            artifact,
            reason: None,
        };
        self.uploads.push(u);
        Ok(id)
    }

    /// The pending upload with id `id`.
    pub fn get_pending_upload(&self, id: i64) -> (r: Result<PendingUpload, StoreError>)
        requires
            self.wf(),
        ensures
            match self.upload_spec(id) {
                None => r == Err::<PendingUpload, StoreError>(StoreError::NotFound),
                Some(u) => if u.is_pending() {
                    r == Ok::<PendingUpload, StoreError>(pending_view(u))
                } else {
                    r == Err::<PendingUpload, StoreError>(StoreError::AlreadyDecided)
                },
            },
    {
        if id < 1 || (id as u64) > (self.uploads.len() as u64) {
            return Err(StoreError::NotFound);
        }
        let u = &self.uploads[(id - 1) as usize];
        if u.pending() {
            Ok(
                PendingUpload {
                    id: u.id,
                    user_id: u.user_id,
                    level_id: u.level_id,
                    accepted: u.accepted,
                    upload_time: u.upload_time,
                },
            )
        } else {
            Err(StoreError::AlreadyDecided)
        }
    }

    /// Records a verdict on upload `id`: accepted or rejected at `now` by
    /// `accepted_by`, with an optional reason.
    pub fn accept_upload(
        &mut self,
        id: i64,
        accepted_by: i64,
        reason: Option<String>,
        accept: bool,
        now: i64,
    ) -> (r: Result<(), StoreError>)
        requires
            old(self).wf(),
            old(self).valid_user_id(accepted_by),
        ensures
            final(self).wf(),
            final(self).users@ == old(self).users@,
            match old(self).upload_spec(id) {
                None => r == Err::<(), StoreError>(StoreError::NotFound) && final(self).uploads@
                    == old(self).uploads@,
                Some(u) => r is Ok && final(self).uploads@ == old(self).uploads@.update(
                    id - 1,
                    decided(u, accepted_by, reason, accept, now),
                ),
            },
    {
        if id < 1 || (id as u64) > (self.uploads.len() as u64) {
            return Err(StoreError::NotFound);
        }
        let idx = (id - 1) as usize;
        let cur = &self.uploads[idx];
        let artifact = if accept {
            ArtifactKey::Published { level_id: cur.level_id }
        } else {
            cur.artifact
        };
        let nu = Upload {
            id: cur.id,
            user_id: cur.user_id,
            level_id: cur.level_id,
            upload_time: cur.upload_time,
            accepted: accept,
            accepted_time: Some(now),
            accepted_by: Some(accepted_by),
            artifact,
            reason,
        };
        self.uploads.set(idx, nu);
        Ok(())
    }

    /// The account with `account_id`, created with the `User` role when there
    /// is none yet.
    pub fn find_or_create_user(&mut self, account_id: i64, username: &str) -> (r: Result<
        User,
        StoreError,
    >)
        requires
            old(self).wf(),
        ensures
            final(self).wf(),
            final(self).uploads@ == old(self).uploads@,
            found_or_created(*old(self), *final(self), account_id, username@, r),
    {
        let mut i: usize = 0;
        while i < self.users.len()
            invariant
                self.wf(),
                i <= self.users@.len(),
                forall|j: int| 0 <= j < i ==> self.users@[j].account_id != account_id,
            decreases self.users@.len() - i,
        {
            if self.users[i].account_id == account_id {
                return Ok(self.users[i].duplicate());
            }
            i = i + 1;
        }
        let n = self.users.len();
        if (n as u64) >= (i64::MAX as u64) {
            return Err(StoreError::IdsExhausted);
        }
        let u = User {
            id: (n as i64) + 1,
            account_id,
            username: username.to_owned(),
            role: Role::User,
        };
        let ret = u.duplicate();
        self.users.push(u);
        Ok(ret)
    }

    /// The account with a valid id.
    fn user_ref(&self, id: i64) -> (r: &User)
        requires
            self.wf(),
            self.valid_user_id(id),
        ensures
            *r == user_at(self.users@, id),
    {
        let n = self.users.len();
        assert(id - 1 < n);
        &self.users[(id - 1) as usize]
    }

    /// Position of the active upload of `level`.
    fn active_position(&self, level: i64) -> (r: Option<usize>)
        requires
            self.wf(),
        ensures
            match active_index(self.uploads@, level) {
                Some(k) => r is Some && r.unwrap() as int == k && 0 <= k < self.uploads@.len(),
                None => r is None,
            },
    {
        let mut best: Option<usize> = None;
        let mut i: usize = 0;
        while i < self.uploads.len()
            invariant
                self.wf(),
                i <= self.uploads@.len(),
                match active_upto(self.uploads@, level, i as int) {
                    Some(k) => best is Some && best.unwrap() as int == k && 0 <= k < i,
                    None => best is None,
                },
            decreases self.uploads@.len() - i,
        {
            let u = &self.uploads[i];
            if u.accepted && u.level_id == level {
                let take = match best {
                    Some(p) => {
                        let b = &self.uploads[p];
                        !(b.upload_time > u.upload_time || (b.upload_time == u.upload_time && b.id
                            > u.id))
                    },
                    None => true,
                };
                if take {
                    best = Some(i);
                }
            }
            i = i + 1;
        }
        best
    }

    /// Earliest upload time among the accepted uploads for `level`.
    fn first_accepted_time(&self, level: i64) -> (r: Option<i64>)
        requires
            self.wf(),
        ensures
            r == first_time_upto(self.uploads@, level, self.uploads@.len() as int),
    {
        let mut first: Option<i64> = None;
        let mut i: usize = 0;
        while i < self.uploads.len()
            invariant
                self.wf(),
                i <= self.uploads@.len(),
                first == first_time_upto(self.uploads@, level, i as int),
            decreases self.uploads@.len() - i,
        {
            let u = &self.uploads[i];
            if u.accepted && u.level_id == level {
                first = match first {
                    Some(t) => if u.upload_time < t {
                        Some(u.upload_time)
                    } else {
                        Some(t)
                    },
                    None => Some(u.upload_time),
                };
            }
            i = i + 1;
        }
        first
    }

    /// Submitter and location of the active thumbnail of `level`.
    pub fn get_upload_info(&self, level_id: i64) -> (r: Option<UploadInfo>)
        requires
            self.wf(),
        ensures
            r == resolve(self.users@, self.uploads@, level_id),
    {
        match self.active_position(level_id) {
            Some(k) => {
                let u = &self.uploads[k];
                let owner = self.user_ref(u.user_id);
                Some(
                    UploadInfo {
                        account_id: owner.account_id,
                        username: owner.username.clone(),
                        artifact: u.artifact,
                    },
                )
            },
            None => None,
        }
    }

    /// Audit view of the active thumbnail of `level`.
    pub fn get_upload_extended(&self, level_id: i64) -> (r: Option<UploadExtended>)
        requires
            self.wf(),
        ensures
            r == resolve_extended(self.users@, self.uploads@, level_id),
    {
        proof {
            lemma_first_time_iff_active(self.uploads@, level_id, self.uploads@.len() as int);
        }
        match self.active_position(level_id) {
            Some(k) => {
                let first = self.first_accepted_time(level_id).unwrap();
                let u = &self.uploads[k];
                let owner = self.user_ref(u.user_id);
                let (by_account, by_name) = match u.accepted_by {
                    Some(b) => {
                        let m = self.user_ref(b);
                        (Some(m.account_id), Some(m.username.clone()))
                    },
                    None => (None, None),
                };
                Some(
                    UploadExtended {
                        level_id: u.level_id,
                        account_id: owner.account_id,
                        username: owner.username.clone(),
                        upload_time: u.upload_time,
                        first_upload_time: first,
                        accepted_time: u.accepted_time,
                        accepted_by: by_account,
                        accepted_by_username: by_name,
                    },
                )
            },
            None => None,
        }
    }
    /// The pending uploads that `f` selects, most recent first.
    pub fn pending_matching(&self, f: PendingFilter) -> (r: Vec<PendingUpload>)
        requires
            self.wf(),
        ensures
            recency_ordered(r@),
            forall|x: PendingUpload|
                r@.contains(x) <==> listed(self.uploads@, f, self.uploads@.len() as int, x),
    {
        let mut out: Vec<PendingUpload> = Vec::new();
        let mut i: usize = 0;
        while i < self.uploads.len()
            invariant
                self.wf(),
                i <= self.uploads@.len(),
                recency_ordered(out@),
                forall|x: PendingUpload| out@.contains(x) <==> listed(self.uploads@, f, i as int, x),
                forall|q: int| 0 <= q < out@.len() ==> 1 <= (#[trigger] out@[q]).id <= i,
            decreases self.uploads@.len() - i,
        {
            let u = &self.uploads[i];
            let ghost ups = self.uploads@;
            if selects(u, f) {
                let x = PendingUpload {
                    id: u.id,
                    user_id: u.user_id,
                    level_id: u.level_id,
                    accepted: u.accepted,
                    upload_time: u.upload_time,
                };
                let mut p: usize = 0;
                while p < out.len() && (out[p].upload_time > x.upload_time || (out[p].upload_time
                    == x.upload_time && out[p].id > x.id))
                    invariant
                        p <= out@.len(),
                        forall|q: int| 0 <= q < p ==> listed_before(#[trigger] out@[q], x),
                    decreases out@.len() - p,
                {
                    p = p + 1;
                }
                let ghost o = out@;
                assert(forall|y: PendingUpload| o.contains(y) <==> listed(ups, f, i as int, y));
                proof {
                    assert forall|q: int| p <= q < o.len() implies listed_before(x, #[trigger] o[q]) by {
                        if q > p {
                            assert(listed_before(o[p as int], o[q]));
                        }
                    }
                }
                out.insert(p, x);
                proof {
                    assert forall|a: int, b: int|
                        0 <= a < b < out@.len() implies listed_before(
                        #[trigger] out@[a],
                        #[trigger] out@[b],
                    ) by {
                        if b < p {
                            assert(listed_before(o[a], o[b]));
                        } else if b == p {
                        } else if a < p {
                            assert(listed_before(o[a], x));
                            assert(listed_before(x, o[b - 1]));
                        } else if a == p {
                        } else {
                            assert(listed_before(o[a - 1], o[b - 1]));
                        }
                    }
                    assert forall|y: PendingUpload|
                        out@.contains(y) <==> listed(ups, f, i + 1, y) by {
                        if out@.contains(y) {
                            let a = choose|a: int| 0 <= a < out@.len() && out@[a] == y;
                            if a < p {
                                assert(o[a] == y);
                                assert(o.contains(y));
                            } else if a > p {
                                assert(o[a - 1] == y);
                                assert(o.contains(y));
                            } else {
                                assert(selected(ups[i as int], f));
                            }
                        }
                        if listed(ups, f, i + 1, y) {
                            let k = choose|k: int|
                                0 <= k < i + 1 && selected(#[trigger] ups[k], f) && pending_view(
                                    ups[k],
                                ) == y;
                            if k < i {
                                assert(listed(ups, f, i as int, y));
                                assert(o.contains(y));
                                let a = choose|a: int| 0 <= a < o.len() && o[a] == y;
                                if a < p {
                                    assert(out@[a] == y);
                                } else {
                                    assert(out@[a + 1] == y);
                                }
                            } else {
                                assert(out@[p as int] == y);
                            }
                        }
                    }
                    assert forall|q: int| 0 <= q < out@.len() implies 1 <= (
                    #[trigger] out@[q]).id <= i + 1 by {
                        if q < p {
                            assert(out@[q] == o[q]);
                        } else if q > p {
                            assert(out@[q] == o[q - 1]);
                        }
                    }
                }
            } else {
                proof {
                    assert forall|y: PendingUpload|
                        listed(ups, f, i + 1, y) implies listed(ups, f, i as int, y) by {
                        let k = choose|k: int|
                            0 <= k < i + 1 && selected(#[trigger] ups[k], f) && pending_view(ups[k])
                                == y;
                        assert(k < i);
                    }
                    assert forall|y: PendingUpload|
                        listed(ups, f, i as int, y) implies listed(ups, f, i + 1, y) by {
                        let k = choose|k: int|
                            0 <= k < i && selected(#[trigger] ups[k], f) && pending_view(ups[k])
                                == y;
                        assert(0 <= k < i + 1);
                    }
                }
            }
            i = i + 1;
        }
        out
    }
    pub fn get_pending_uploads(&self) -> (r: Vec<PendingUpload>)
        requires
            self.wf(),
        ensures
            recency_ordered(r@),
            forall|x: PendingUpload|
                r@.contains(x) <==> listed(
                    self.uploads@,
                    PendingFilter::All,
                    self.uploads@.len() as int,
                    x,
                ),
    {
        self.pending_matching(PendingFilter::All)
    }

    pub fn get_pending_uploads_for_level(&self, level_id: i64) -> (r: Vec<PendingUpload>)
        requires
            self.wf(),
        ensures
            recency_ordered(r@),
            forall|x: PendingUpload|
                r@.contains(x) <==> listed(
                    self.uploads@,
                    PendingFilter::ByLevel(level_id),
                    self.uploads@.len() as int,
                    x,
                ),
    {
        self.pending_matching(PendingFilter::ByLevel(level_id))
    }

    pub fn get_pending_uploads_for_user(&self, user_id: i64) -> (r: Vec<PendingUpload>)
        requires
            self.wf(),
        ensures
            recency_ordered(r@),
            forall|x: PendingUpload|
                r@.contains(x) <==> listed(
                    self.uploads@,
                    PendingFilter::ByUser(user_id),
                    self.uploads@.len() as int,
                    x,
                ),
    {
        self.pending_matching(PendingFilter::ByUser(user_id))
    }

    /// Whether an upload before position `k`, by `id` (and accepted, if
    /// `accepted_only`), is for the same level as the one at `k`.
    fn level_seen_before(&self, id: i64, k: usize, accepted_only: bool) -> (r: bool)
        requires
            self.wf(),
            k < self.uploads@.len(),
        ensures
            r == exists|j: int|
                0 <= j < k && #[trigger] self.uploads@[j].user_id == id
                    && self.uploads@[j].level_id == self.uploads@[k as int].level_id && (
                accepted_only ==> self.uploads@[j].accepted),
    {
        let level = self.uploads[k].level_id;
        let mut j: usize = 0;
        while j < k
            invariant
                self.wf(),
                k < self.uploads@.len(),
                level == self.uploads@[k as int].level_id,
                j <= k,
                forall|q: int|
                    0 <= q < j ==> !(#[trigger] self.uploads@[q].user_id == id
                        && self.uploads@[q].level_id == level && (accepted_only
                        ==> self.uploads@[q].accepted)),
            decreases k - j,
        {
            let u = &self.uploads[j];
            if u.user_id == id && u.level_id == level && (!accepted_only || u.accepted) {
                return true;
            }
            j = j + 1;
        }
        false
    }

    /// Upload and acceptance counts of the account with id `id`.
    pub fn get_user_stats(&self, id: i64) -> (r: Option<UserStats>)
        requires
            self.wf(),
        ensures
            r == stats_of(self.users@, self.uploads@, id),
    {
        if id < 1 || (id as u64) > (self.users.len() as u64) {
            return None;
        }
        let ghost ups = self.uploads@;
        let n = self.uploads.len();
        proof {
            if n > 0 {
                assert(ups[n - 1].id == n);
            }
        }
        let mut uploads: i64 = 0;
        let mut accepted: i64 = 0;
        let mut levels: i64 = 0;
        let mut accepted_levels: i64 = 0;
        let mut active: i64 = 0;
        let mut k: usize = 0;
        while k < n
            invariant
                self.wf(),
                ups == self.uploads@,
                n == ups.len(),
                n <= i64::MAX,
                k <= n,
                uploads == tally(ups, id, Tally::Uploads, k as int),
                accepted == tally(ups, id, Tally::AcceptedUploads, k as int),
                levels == tally(ups, id, Tally::Levels, k as int),
                accepted_levels == tally(ups, id, Tally::AcceptedLevels, k as int),
                active == tally(ups, id, Tally::ActiveThumbnails, k as int),
                uploads <= k && accepted <= k && levels <= k && accepted_levels <= k && active <= k,
            decreases n - k,
        {
            let u = &self.uploads[k];
            if u.user_id == id {
                uploads = uploads + 1;
                if u.accepted {
                    accepted = accepted + 1;
                    if !self.level_seen_before(id, k, true) {
                        accepted_levels = accepted_levels + 1;
                    }
                }
                if !self.level_seen_before(id, k, false) {
                    levels = levels + 1;
                }
                match self.active_position(u.level_id) {
                    Some(p) => {
                        if p == k {
                            active = active + 1;
                        }
                    },
                    None => {},
                }
            }
            k = k + 1;
        }
        let owner = self.user_ref(id);
        Some(
            UserStats {
                id: owner.id,
                account_id: owner.account_id,
                username: owner.username.clone(),
                role: owner.role,
                upload_count: uploads,
                accepted_upload_count: accepted,
                level_count: levels,
                accepted_level_count: accepted_levels,
                active_thumbnail_count: active,
            },
        )
    }
    /// Gives the account with id `id` the role `role`.
    pub fn set_role(&mut self, id: i64, role: Role) -> (r: Result<(), StoreError>)
        requires
            old(self).wf(),
        ensures
            final(self).wf(),
            final(self).uploads@ == old(self).uploads@,
            old(self).valid_user_id(id) ==> r is Ok && final(self).users@ == old(self).users@.update(
                id - 1,
                User { role, ..old(self).users@[id - 1] },
            ),
            !old(self).valid_user_id(id) ==> r == Err::<(), StoreError>(StoreError::NotFound)
                && final(self).users@ == old(self).users@,
    {
        if id < 1 || (id as u64) > (self.users.len() as u64) {
            return Err(StoreError::NotFound);
        }
        let idx = (id - 1) as usize;
        let mut u = self.users[idx].duplicate();
        u.role = role;
        self.users.set(idx, u);
        Ok(())
    }
}

} // verus!
