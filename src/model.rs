//! Records and values exchanged by the moderation core.
use vstd::prelude::*;

verus! {

/// Privilege of an account, from least to most trusted.
#[derive(Debug, Clone, Copy, PartialEq, Eq, Structural)]
pub enum Role {
    /// Regular account: every submission waits for moderation.
    User,
    /// May publish a thumbnail for a level that has none yet.
    Verified,
    /// May publish directly and decide on pending submissions.
    Moderator,
    /// Same powers as a moderator, plus account management.
    Admin,
}

impl Role {
    /// Position in the privilege order.
    pub open spec fn rank(self) -> nat {
        match self {
            Role::User => 0,
            Role::Verified => 1,
            Role::Moderator => 2,
            Role::Admin => 3,
        }
    }

    pub open spec fn is_privileged(self) -> bool {
        self == Role::Moderator || self == Role::Admin
    }

    /// Whether this role may moderate (Moderator or Admin).
    pub fn privileged(&self) -> (r: bool)
        ensures
            r == self.is_privileged(),
    {
        match self {
            Role::Moderator | Role::Admin => true,
            _ => false,
        }
    }
}

/// Where an artifact lives in the artifact store: the canonical slot of a
/// level, or the pending slot of one submitter for one level.
#[derive(Debug, Clone, Copy, PartialEq, Eq, Structural)]
pub enum ArtifactKey {
    Published { level_id: i64 },
    Pending { user_id: i64, level_id: i64 },
}

/// A registered account.
#[derive(Debug)]
pub struct User {
    pub id: i64,
    pub account_id: i64,
    pub username: String,
    pub role: Role,
}

impl User {
    pub fn duplicate(&self) -> (r: User)
        ensures
            r == *self,
    {
        User {
            id: self.id,
            account_id: self.account_id,
            username: self.username.clone(),
            role: self.role,
        }
    }
}

/// One submission attempt; rows are never deleted.
#[derive(Debug)]
pub struct Upload {
    pub id: i64,
    pub user_id: i64,
    pub level_id: i64,
    pub upload_time: i64,
    pub accepted: bool,
    pub accepted_time: Option<i64>,
    pub accepted_by: Option<i64>,
    pub artifact: ArtifactKey,
    pub reason: Option<String>,
}

impl Upload {
    /// Neither accepted nor rejected yet.
    pub open spec fn is_pending(self) -> bool {
        !self.accepted && self.accepted_time.is_none()
    }

    pub fn pending(&self) -> (r: bool)
        ensures
            r == self.is_pending(),
    {
        !self.accepted && self.accepted_time.is_none()
    }
}

/// Submitter of the active thumbnail of a level, and where it is stored.
#[derive(Debug)]
pub struct UploadInfo {
    pub account_id: i64,
    pub username: String,
    pub artifact: ArtifactKey,
}

/// Audit view of the active thumbnail of a level.
#[derive(Debug)]
pub struct UploadExtended {
    pub level_id: i64,
    pub account_id: i64,
    pub username: String,
    pub upload_time: i64,
    /// Upload time of the earliest accepted upload for the level.
    pub first_upload_time: i64,
    pub accepted_time: Option<i64>,
    /// Account id of the moderator who accepted it.
    pub accepted_by: Option<i64>,
    pub accepted_by_username: Option<String>,
}

/// The fields of an upload that the pending queue shows.
#[derive(Debug, Clone, Copy, PartialEq, Eq, Structural)]
pub struct PendingUpload {
    pub id: i64,
    pub user_id: i64,
    pub level_id: i64,
    pub accepted: bool,
    pub upload_time: i64,
}

/// Upload and acceptance counts of one account.
#[derive(Debug)]
pub struct UserStats {
    pub id: i64,
    pub account_id: i64,
    pub username: String,
    pub role: Role,
    pub upload_count: i64,
    pub accepted_upload_count: i64,
    pub level_count: i64,
    pub accepted_level_count: i64,
    pub active_thumbnail_count: i64,
}

/// A moderator's verdict on a pending upload.
#[derive(Debug)]
pub struct PendingUploadAction {
    pub accepted: bool,
    pub reason: Option<String>,
}

/// Resolution in which a thumbnail is served.
#[derive(Debug, Clone, Copy, PartialEq, Eq, Structural)]
pub enum Res {
    /// 1920x1080, the stored artifact itself.
    High,
    /// 1280x720.
    Medium,
    /// 640x360.
    Small,
}

/// Identity claims sent to the login endpoint.
#[derive(Debug)]
pub struct LoginPayload {
    pub account_id: i64,
    pub user_id: i64,
    pub username: String,
    pub argon_token: String,
}

/// Authorization code handed back by the OAuth provider.
#[derive(Debug)]
pub struct DiscordOAuthPayload {
    pub code: String,
}

} // verus!
