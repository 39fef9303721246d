//! The moderation core: submission gate, decision engine, pending queue and
//! resolver over the record store and the artifact store, kept consistent.
use vstd::prelude::*;

use crate::artifacts::ArtifactStore;
use crate::database::{
    decided, found_or_created, listed, new_upload, pending_view, recency_ordered, resolve,
    resolve_extended, stats_of, Database, PendingFilter, StoreError,
};
use crate::imaging::{derive_variant, prepare_image, prepared_image, variant_of};
use crate::model::{
    ArtifactKey, PendingUpload, PendingUploadAction, Res, Role, UploadExtended, UploadInfo, User,
    UserStats,
};

verus! {

/// Failure classes surfaced to callers.
#[derive(Debug, Clone, Copy, PartialEq, Eq, Structural)]
pub enum ServiceError {
    /// No session identity was presented.
    Unauthorized,
    /// The identity is unknown or lacks the privilege the operation needs.
    Forbidden,
    /// The submitted bytes are not a 1920x1080 image.
    InvalidImage,
    /// The submitter already has a pending thumbnail for the level.
    Conflict,
    /// The upload was already accepted or rejected.
    AlreadyDecided,
    /// No such level, upload, account or artifact.
    NotFound,
    /// The record store or the artifact store could not complete the operation.
    StoreFailure,
}

impl ServiceError {
    pub open spec fn status_spec(self) -> u16 {
        match self {
            ServiceError::Unauthorized => 401,
            ServiceError::Forbidden => 403,
            ServiceError::InvalidImage => 400,
            ServiceError::Conflict => 409,
            ServiceError::AlreadyDecided => 409,
            ServiceError::NotFound => 404,
            ServiceError::StoreFailure => 500,
        }
    }

    /// HTTP status code of this failure.
    pub fn status(&self) -> (r: u16)
        ensures
            r == self.status_spec(),
    {
        match self {
            ServiceError::Unauthorized => 401,
            ServiceError::Forbidden => 403,
            ServiceError::InvalidImage => 400,
            ServiceError::Conflict => 409,
            ServiceError::AlreadyDecided => 409,
            ServiceError::NotFound => 404,
            ServiceError::StoreFailure => 500,
        }
    }
}

/// What the role policy makes of a valid submission.
#[derive(Debug, Clone, Copy, PartialEq, Eq, Structural)]
pub enum Gate {
    /// Write the canonical artifact; `replaced` tells whether one was there.
    Publish { replaced: bool },
    /// Write the submitter's pending artifact and queue it for moderation.
    Enqueue,
    /// The submitter already has a pending artifact for the level.
    Conflict,
}

/// A successful submission.
#[derive(Debug, Clone, Copy, PartialEq, Eq, Structural)]
pub enum SubmitOutcome {
    Published { replaced: bool, upload_id: i64 },
    Pending { upload_id: i64 },
}

impl SubmitOutcome {
    pub open spec fn status_spec(self) -> u16 {
        match self {
            SubmitOutcome::Published { .. } => 201,
            SubmitOutcome::Pending { .. } => 202,
        }
    }

    /// HTTP status code of this outcome.
    pub fn status(&self) -> (r: u16)
        ensures
            r == self.status_spec(),
    {
        match self {
            SubmitOutcome::Published { .. } => 201,
            SubmitOutcome::Pending { .. } => 202,
        }
    }
}

/// A recorded moderation verdict. After an acceptance the cached thumbnail of
/// the level is stale.
#[derive(Debug, Clone, Copy, PartialEq, Eq, Structural)]
pub enum Decision {
    Accepted { level_id: i64 },
    Rejected { level_id: i64 },
}

pub open spec fn gate_spec(role: Role, published_exists: bool, pending_exists: bool) -> Gate {
    match role {
        Role::Admin | Role::Moderator => Gate::Publish { replaced: published_exists },
        Role::Verified => if !published_exists {
            Gate::Publish { replaced: false }
        } else if pending_exists {
            Gate::Conflict
        } else {
            Gate::Enqueue
        },
        Role::User => if pending_exists {
            Gate::Conflict
        } else {
            Gate::Enqueue
        },
    }
}

/// The role policy, given whether the level has a canonical artifact and
/// whether the submitter has a pending one for it.
pub fn gate(role: Role, published_exists: bool, pending_exists: bool) -> (r: Gate)
    ensures
        r == gate_spec(role, published_exists, pending_exists),
{
    match role {
        Role::Admin | Role::Moderator => Gate::Publish { replaced: published_exists },
        Role::Verified => {
            if !published_exists {
                Gate::Publish { replaced: false }
            } else if pending_exists {
                Gate::Conflict
            } else {
                Gate::Enqueue
            }
        },
        Role::User => {
            if pending_exists {
                Gate::Conflict
            } else {
                Gate::Enqueue
            }
        },
    }
}

pub open spec fn published_key(level_id: i64) -> ArtifactKey {
    ArtifactKey::Published { level_id }
}

pub open spec fn pending_key(user_id: i64, level_id: i64) -> ArtifactKey {
    ArtifactKey::Pending { user_id, level_id }
}

/// The account that a session identity resolves to.
pub open spec fn auth_spec(db: Database, session: Option<i64>) -> Result<User, ServiceError> {
    match session {
        None => Err(ServiceError::Unauthorized),
        Some(id) => match db.user_spec(id) {
            Some(u) => Ok(u),
            None => Err(ServiceError::Forbidden),
        },
    }
}

/// The record store and the artifact store, kept consistent with each other.
pub struct Service {
    pub db: Database,
    pub files: ArtifactStore,
}

/// `s1` equals `s0` in both stores.
pub open spec fn unchanged(s0: Service, s1: Service) -> bool {
    s1.db.users@ == s0.db.users@ && s1.db.uploads@ == s0.db.uploads@ && s1.files@ == s0.files@
}

/// The record insert that completes a submission: a new record with the next
/// id, or a store failure that leaves the records as they were.
pub open spec fn inserted(
    s0: Service,
    s1: Service,
    level_id: i64,
    user_id: i64,
    key: ArtifactKey,
    accepted: bool,
    now: i64,
    r: Result<SubmitOutcome, ServiceError>,
    outcome: SubmitOutcome,
) -> bool {
    let n = s0.db.uploads@.len();
    &&& s1.db.users@ == s0.db.users@
    &&& if n < i64::MAX {
        &&& r == Ok::<SubmitOutcome, ServiceError>(outcome)
        &&& s1.db.uploads@ == s0.db.uploads@.push(
            new_upload((n + 1) as i64, level_id, user_id, key, accepted, now),
        )
    } else {
        &&& r == Err::<SubmitOutcome, ServiceError>(ServiceError::StoreFailure)
        &&& s1.db.uploads@ == s0.db.uploads@
    }
}

/// Effect of a submission of `data` for `level_id` at `now`.
pub open spec fn submit_spec(
    s0: Service,
    s1: Service,
    session: Option<i64>,
    level_id: i64,
    data: Seq<u8>,
    now: i64,
    r: Result<SubmitOutcome, ServiceError>,
) -> bool {
    match auth_spec(s0.db, session) {
        Err(e) => r == Err::<SubmitOutcome, ServiceError>(e) && unchanged(s0, s1),
        Ok(user) => match prepared_image(data) {
            None => r == Err::<SubmitOutcome, ServiceError>(ServiceError::InvalidImage)
                && unchanged(s0, s1),
            Some(img) => {
                let n = s0.db.uploads@.len();
                let pk = pending_key(user.id, level_id);
                match gate_spec(
                    user.role,
                    s0.files@.contains_key(published_key(level_id)),
                    s0.files@.contains_key(pk),
                ) {
                    Gate::Conflict => r == Err::<SubmitOutcome, ServiceError>(ServiceError::Conflict)
                        && unchanged(s0, s1),
                    Gate::Publish { replaced } => {
                        &&& s1.files@ == s0.files@.insert(published_key(level_id), img)
                        &&& inserted(
                            s0,
                            s1,
                            level_id,
                            user.id,
                            published_key(level_id),
                            true,
                            now,
                            r,
                            SubmitOutcome::Published { replaced, upload_id: (n + 1) as i64 },
                        )
                    },
                    Gate::Enqueue => {
                        &&& s1.files@ == s0.files@.insert(pk, img)
                        &&& inserted(
                            s0,
                            s1,
                            level_id,
                            user.id,
                            pk,
                            false,
                            now,
                            r,
                            SubmitOutcome::Pending { upload_id: (n + 1) as i64 },
                        )
                    },
                }
            },
        },
    }
}

/// Effect of a verdict on upload `upload_id` at `now`.
pub open spec fn decide_spec(
    s0: Service,
    s1: Service,
    session: Option<i64>,
    upload_id: i64,
    accept: bool,
    reason: Option<String>,
    now: i64,
    r: Result<Decision, ServiceError>,
) -> bool {
    match auth_spec(s0.db, session) {
        Err(e) => r == Err::<Decision, ServiceError>(e) && unchanged(s0, s1),
        Ok(user) => if !user.role.is_privileged() {
            r == Err::<Decision, ServiceError>(ServiceError::Forbidden) && unchanged(s0, s1)
        } else {
            match s0.db.upload_spec(upload_id) {
                None => r == Err::<Decision, ServiceError>(ServiceError::NotFound) && unchanged(
                    s0,
                    s1,
                ),
                Some(u) => if !u.is_pending() {
                    r == Err::<Decision, ServiceError>(ServiceError::AlreadyDecided) && unchanged(
                        s0,
                        s1,
                    )
                } else {
                    let pk = pending_key(u.user_id, u.level_id);
                    &&& s1.db.users@ == s0.db.users@
                    &&& s1.db.uploads@ == s0.db.uploads@.update(
                        upload_id - 1,
                        decided(u, user.id, reason, accept, now),
                    )
                    &&& if accept {
                        &&& r == Ok::<Decision, ServiceError>(
                            Decision::Accepted { level_id: u.level_id },
                        )
                        &&& s1.files@ == s0.files@.remove(pk).insert(
                            published_key(u.level_id),
                            s0.files@[pk],
                        )
                    } else {
                        &&& r == Ok::<Decision, ServiceError>(
                            Decision::Rejected { level_id: u.level_id },
                        )
                        &&& s1.files@ == s0.files@.remove(pk)
                    }
                },
            }
        },
    }
}

/// A thumbnail as served: who submitted it, and the bytes at the asked resolution.
#[derive(Debug)]
pub struct Thumbnail {
    pub level_id: i64,
    pub info: UploadInfo,
    pub bytes: Vec<u8>,
}

/// The bytes of a pending submission, for review.
#[derive(Debug)]
pub struct PendingImage {
    pub upload_id: i64,
    pub user_id: i64,
    pub bytes: Vec<u8>,
}

/// What fetching the thumbnail of `level_id` at `res` yields: the active
/// upload's submitter, and the canonical artifact or a variant derived from it.
pub open spec fn served(s: Service, level_id: i64, res: Res) -> Result<
    (UploadInfo, Seq<u8>),
    ServiceError,
> {
    match resolve(s.db.users@, s.db.uploads@, level_id) {
        None => Err(ServiceError::NotFound),
        Some(info) => if s.files@.contains_key(published_key(level_id)) {
            match variant_of(s.files@[published_key(level_id)], res) {
                Some(b) => Ok((info, b)),
                None => Err(ServiceError::StoreFailure),
            }
        } else {
            Err(ServiceError::NotFound)
        },
    }
}

/// The pending upload `upload_id` as a moderator sees it.
pub open spec fn pending_lookup(s: Service, session: Option<i64>, upload_id: i64) -> Result<
    PendingUpload,
    ServiceError,
> {
    match auth_spec(s.db, session) {
        Err(e) => Err(e),
        Ok(user) => if !user.role.is_privileged() {
            Err(ServiceError::Forbidden)
        } else {
            match s.db.upload_spec(upload_id) {
                Some(u) => if u.is_pending() {
                    Ok(pending_view(u))
                } else {
                    Err(ServiceError::NotFound)
                },
                None => Err(ServiceError::NotFound),
            }
        },
    }
}

/// What the identity-verification service concluded of a login attempt.
#[derive(Debug)]
pub enum Verdict {
    Strong,
    /// Verified weakly; carries the username that was checked.
    Weak(String),
    /// Not verified; carries the cause.
    Invalid(String),
}

/// Why a login did not yield an account.
#[derive(Debug)]
pub enum LoginError {
    Weak(String),
    Invalid(String),
    Store(StoreError),
}

/// Whoever holds `user` may list the queue that `f` selects: moderators and
/// admins any, others only their own.
pub open spec fn may_list(user: User, f: PendingFilter) -> bool {
    user.role.is_privileged() || f == PendingFilter::ByUser(user.id)
}

impl Service {
    pub open spec fn wf(&self) -> bool {
        &&& self.db.wf()
        &&& self.files.wf()
        &&& forall|i: int|
            0 <= i < self.db.uploads@.len() ==> {
                let u = #[trigger] self.db.uploads@[i];
                &&& u.is_pending() ==> u.artifact == pending_key(u.user_id, u.level_id)
                    && self.files@.contains_key(pending_key(u.user_id, u.level_id))
                &&& u.accepted ==> u.artifact == published_key(u.level_id)
            }
        &&& forall|i: int, j: int|
            0 <= i < j < self.db.uploads@.len() && (#[trigger] self.db.uploads@[i]).is_pending()
                && (#[trigger] self.db.uploads@[j]).is_pending() ==> (self.db.uploads@[i].user_id,
            self.db.uploads@[i].level_id) != (self.db.uploads@[j].user_id,
            self.db.uploads@[j].level_id)
    }

    pub fn new() -> (r: Service)
        ensures
            r.wf(),
            r.db.users@.len() == 0,
            r.db.uploads@.len() == 0,
            r.files@ == Map::<ArtifactKey, Seq<u8>>::empty(),
    {
        Service { db: Database::new(), files: ArtifactStore::new() }
    }

    /// The account behind a session identity: `Unauthorized` without one,
    /// `Forbidden` for an id that names no account.
    pub fn auth_middleware(&self, session: Option<i64>) -> (r: Result<User, ServiceError>)
        requires
            self.wf(),
        ensures
            r == auth_spec(self.db, session),
    {
        match session {
            None => Err(ServiceError::Unauthorized),
            Some(id) => match self.db.get_user_by_id(id) {
                Some(u) => Ok(u),
                None => Err(ServiceError::Forbidden),
            },
        }
    }

    /// Submission gate: validates the image, applies the role policy, writes
    /// the artifact and then records the upload.
    pub fn upload(&mut self, session: Option<i64>, level_id: i64, data: &[u8], now: i64) -> (r:
        Result<SubmitOutcome, ServiceError>)
        requires
            old(self).wf(),
        ensures
            final(self).wf(),
            submit_spec(*old(self), *final(self), session, level_id, data@, now, r),
    {
        let user = match self.auth_middleware(session) {
            Ok(u) => u,
            Err(e) => return Err(e),
        };
        let img = match prepare_image(data) {
            Some(b) => b,
            None => return Err(ServiceError::InvalidImage),
        };
        let canonical = ArtifactKey::Published { level_id };
        let own = ArtifactKey::Pending { user_id: user.id, level_id };
        let published_exists = self.files.contains(canonical);
        let pending_exists = self.files.contains(own);
        let (key, accepted) = match gate(user.role, published_exists, pending_exists) {
            Gate::Conflict => return Err(ServiceError::Conflict),
            Gate::Publish { .. } => (canonical, true),
            Gate::Enqueue => (own, false),
        };
        let ghost s0 = *self;
        self.files.write(key, img);
        let res = self.db.add_upload(level_id, user.id, key, accepted, now);
        proof {
            let n = s0.db.uploads@.len();
            if n < i64::MAX {
                let nu = self.db.uploads@[n as int];
                assert forall|i: int, j: int|
                    0 <= i < j < self.db.uploads@.len() && (#[trigger] self.db.uploads@[i]).is_pending()
                        && (#[trigger] self.db.uploads@[j]).is_pending() implies (
                    self.db.uploads@[i].user_id,
                    self.db.uploads@[i].level_id,
                ) != (self.db.uploads@[j].user_id, self.db.uploads@[j].level_id) by {
                    if j == n {
                        assert(s0.db.uploads@[i].is_pending());
                    } else {
                        assert(s0.db.uploads@[i] == self.db.uploads@[i]);
                        assert(s0.db.uploads@[j] == self.db.uploads@[j]);
                    }
                }
            }
        }
        match res {
            Ok(id) => if accepted {
                Ok(SubmitOutcome::Published { replaced: published_exists, upload_id: id })
            } else {
                Ok(SubmitOutcome::Pending { upload_id: id })
            },
            Err(_) => Err(ServiceError::StoreFailure),
        }
    }
    /// Moderation decision: relocates or deletes the pending artifact, then
    /// records the verdict. A relocation or deletion that fails leaves the
    /// upload pending.
    pub fn pending_action(
        &mut self,
        session: Option<i64>,
        upload_id: i64,
        action: PendingUploadAction,
        now: i64,
    ) -> (r: Result<Decision, ServiceError>)
        requires
            old(self).wf(),
        ensures
            final(self).wf(),
            decide_spec(
                *old(self),
                *final(self),
                session,
                upload_id,
                action.accepted,
                action.reason,
                now,
                r,
            ),
    {
        let user = match self.auth_middleware(session) {
            Ok(u) => u,
            Err(e) => return Err(e),
        };
        if !user.role.privileged() {
            return Err(ServiceError::Forbidden);
        }
        let pending = match self.db.get_pending_upload(upload_id) {
            Ok(p) => p,
            Err(StoreError::AlreadyDecided) => {
                return Err(ServiceError::AlreadyDecided);
            },
            Err(_) => return Err(ServiceError::NotFound),
        };
        let ghost s0 = *self;
        let ghost idx = upload_id - 1;
        let own = ArtifactKey::Pending { user_id: pending.user_id, level_id: pending.level_id };
        let moved = if action.accepted {
            self.files.rename(own, ArtifactKey::Published { level_id: pending.level_id })
        } else {
            self.files.remove(own)
        };
        if moved.is_err() {
            return Err(ServiceError::StoreFailure);
        }
        let recorded = self.db.accept_upload(upload_id, user.id, action.reason, action.accepted, now);
        if recorded.is_err() {
            return Err(ServiceError::StoreFailure);
        }
        proof {
            assert forall|i: int|
                0 <= i < self.db.uploads@.len() && (#[trigger] self.db.uploads@[i]).is_pending()
                    implies self.files@.contains_key(
                pending_key(self.db.uploads@[i].user_id, self.db.uploads@[i].level_id),
            ) by {
                assert(i != idx);
                assert(s0.db.uploads@[i] == self.db.uploads@[i]);
                if i < idx {
                    assert(s0.db.uploads@[i].is_pending() && s0.db.uploads@[idx].is_pending());
                } else {
                    assert(s0.db.uploads@[idx].is_pending() && s0.db.uploads@[i].is_pending());
                }
            }
            assert forall|i: int, j: int|
                0 <= i < j < self.db.uploads@.len() && (#[trigger] self.db.uploads@[i]).is_pending()
                    && (#[trigger] self.db.uploads@[j]).is_pending() implies (
                self.db.uploads@[i].user_id,
                self.db.uploads@[i].level_id,
            ) != (self.db.uploads@[j].user_id, self.db.uploads@[j].level_id) by {
                assert(s0.db.uploads@[i] == self.db.uploads@[i]);
                assert(s0.db.uploads@[j] == self.db.uploads@[j]);
            }
        }
        if action.accepted {
            Ok(Decision::Accepted { level_id: pending.level_id })
        } else {
            Ok(Decision::Rejected { level_id: pending.level_id })
        }
    }
    /// The thumbnail of `level_id` at `res`, with its submitter.
    pub fn handle_image(&self, level_id: i64, res: Res) -> (r: Result<Thumbnail, ServiceError>)
        requires
            self.wf(),
        ensures
            match r {
                Ok(t) => t.level_id == level_id && served(*self, level_id, res) == Ok::<
                    (UploadInfo, Seq<u8>),
                    ServiceError,
                >((t.info, t.bytes@)),
                Err(e) => served(*self, level_id, res) == Err::<(UploadInfo, Seq<u8>), ServiceError>(
                    e,
                ),
            },
    {
        let info = match self.db.get_upload_info(level_id) {
            Some(i) => i,
            None => return Err(ServiceError::NotFound),
        };
        let stored = match self.files.read(ArtifactKey::Published { level_id }) {
            Some(b) => b,
            None => return Err(ServiceError::NotFound),
        };
        match derive_variant(stored.as_slice(), res) {
            Some(bytes) => Ok(Thumbnail { level_id, info, bytes }),
            None => Err(ServiceError::StoreFailure),
        }
    }

    /// Audit view of the active thumbnail of `level_id`.
    pub fn thumbnail_info_handler(&self, level_id: i64) -> (r: Result<UploadExtended, ServiceError>)
        requires
            self.wf(),
        ensures
            match resolve_extended(self.db.users@, self.db.uploads@, level_id) {
                Some(x) => r == Ok::<UploadExtended, ServiceError>(x),
                None => r == Err::<UploadExtended, ServiceError>(ServiceError::NotFound),
            },
    {
        match self.db.get_upload_extended(level_id) {
            Some(x) => Ok(x),
            None => Err(ServiceError::NotFound),
        }
    }

    /// A pending upload, for moderators.
    pub fn get_pending_info(&self, session: Option<i64>, upload_id: i64) -> (r: Result<
        PendingUpload,
        ServiceError,
    >)
        requires
            self.wf(),
        ensures
            r == pending_lookup(*self, session, upload_id),
    {
        let user = match self.auth_middleware(session) {
            Ok(u) => u,
            Err(e) => return Err(e),
        };
        if !user.role.privileged() {
            return Err(ServiceError::Forbidden);
        }
        match self.db.get_pending_upload(upload_id) {
            Ok(p) => Ok(p),
            Err(_) => Err(ServiceError::NotFound),
        }
    }

    /// The submitted bytes of a pending upload, for moderators.
    pub fn get_pending_image(&self, session: Option<i64>, upload_id: i64) -> (r: Result<
        PendingImage,
        ServiceError,
    >)
        requires
            self.wf(),
        ensures
            match pending_lookup(*self, session, upload_id) {
                Err(e) => r == Err::<PendingImage, ServiceError>(e),
                Ok(p) => match r {
                    Ok(img) => img.upload_id == upload_id && img.user_id == p.user_id && img.bytes@
                        == self.files@[pending_key(p.user_id, p.level_id)],
                    Err(_) => false,
                },
            },
    {
        let p = match self.get_pending_info(session, upload_id) {
            Ok(p) => p,
            Err(e) => return Err(e),
        };
        match self.files.read(ArtifactKey::Pending { user_id: p.user_id, level_id: p.level_id }) {
            Some(bytes) => Ok(PendingImage { upload_id, user_id: p.user_id, bytes }),
            None => Err(ServiceError::StoreFailure),
        }
    }
    /// A queue listing, most recent first.
    pub fn get_pending_uploads(&self, session: Option<i64>, filter: PendingFilter) -> (r: Result<
        Vec<PendingUpload>,
        ServiceError,
    >)
        requires
            self.wf(),
        ensures
            match auth_spec(self.db, session) {
                Err(e) => r == Err::<Vec<PendingUpload>, ServiceError>(e),
                Ok(user) => if !may_list(user, filter) {
                    r == Err::<Vec<PendingUpload>, ServiceError>(ServiceError::Forbidden)
                } else {
                    match r {
                        Ok(v) => recency_ordered(v@) && forall|x: PendingUpload|
                            v@.contains(x) <==> listed(
                                self.db.uploads@,
                                filter,
                                self.db.uploads@.len() as int,
                                x,
                            ),
                        Err(_) => false,
                    }
                },
            },
    {
        let user = match self.auth_middleware(session) {
            Ok(u) => u,
            Err(e) => return Err(e),
        };
        let own = match filter {
            PendingFilter::ByUser(id) => id == user.id,
            _ => false,
        };
        if !user.role.privileged() && !own {
            return Err(ServiceError::Forbidden);
        }
        Ok(self.db.pending_matching(filter))
    }

    /// Statistics of the account with id `id`.
    pub fn get_user_info(&self, id: i64) -> (r: Result<UserStats, ServiceError>)
        requires
            self.wf(),
        ensures
            match stats_of(self.db.users@, self.db.uploads@, id) {
                Some(st) => r == Ok::<UserStats, ServiceError>(st),
                None => r == Err::<UserStats, ServiceError>(ServiceError::NotFound),
            },
    {
        match self.db.get_user_stats(id) {
            Some(st) => Ok(st),
            None => Err(ServiceError::NotFound),
        }
    }

    /// Statistics of the account behind a session identity.
    pub fn get_me(&self, session: Option<i64>) -> (r: Result<UserStats, ServiceError>)
        requires
            self.wf(),
        ensures
            match auth_spec(self.db, session) {
                Err(e) => r == Err::<UserStats, ServiceError>(e),
                Ok(user) => match stats_of(self.db.users@, self.db.uploads@, user.id) {
                    Some(st) => r == Ok::<UserStats, ServiceError>(st),
                    None => r == Err::<UserStats, ServiceError>(ServiceError::NotFound),
                },
            },
    {
        match self.auth_middleware(session) {
            Ok(user) => self.get_user_info(user.id),
            Err(e) => Err(e),
        }
    }

    /// Login: a strong verdict finds or creates the account; any other
    /// verdict is refused with what it carries.
    pub fn login(&mut self, account_id: i64, username: &str, verdict: Verdict) -> (r: Result<
        User,
        LoginError,
    >)
        requires
            old(self).wf(),
        ensures
            final(self).wf(),
            final(self).files@ == old(self).files@,
            match verdict {
                Verdict::Strong => match r {
                    Ok(u) => found_or_created(
                        old(self).db,
                        final(self).db,
                        account_id,
                        username@,
                        Ok::<User, StoreError>(u),
                    ),
                    Err(LoginError::Store(e)) => found_or_created(
                        old(self).db,
                        final(self).db,
                        account_id,
                        username@,
                        Err::<User, StoreError>(e),
                    ),
                    Err(_) => false,
                },
                Verdict::Weak(name) => r matches Err(LoginError::Weak(x)) && x == name && unchanged(
                    *old(self),
                    *final(self),
                ),
                Verdict::Invalid(cause) => r matches Err(LoginError::Invalid(x)) && x == cause
                    && unchanged(*old(self), *final(self)),
            },
    {
        match verdict {
            Verdict::Strong => match self.db.find_or_create_user(account_id, username) {
                Ok(u) => Ok(u),
                Err(e) => Err(LoginError::Store(e)),
            },
            Verdict::Weak(name) => Err(LoginError::Weak(name)),
            Verdict::Invalid(cause) => Err(LoginError::Invalid(cause)),
        }
    }
}

} // verus!
