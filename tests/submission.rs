use level_thumbnails::model::{ArtifactKey, Role};
use level_thumbnails::service::{Decision, Service, ServiceError, SubmitOutcome, Verdict};
use level_thumbnails::model::PendingUploadAction;

fn png(width: u32, height: u32, shade: u8) -> Vec<u8> {
    let img = image::RgbImage::from_pixel(width, height, image::Rgb([shade, 40, 90]));
    let mut out = std::io::Cursor::new(Vec::new());
    img.write_to(&mut out, image::ImageFormat::Png).unwrap();
    out.into_inner()
}

fn account(svc: &mut Service, account_id: i64, name: &str, role: Role) -> i64 {
    let user = svc.login(account_id, name, Verdict::Strong).ok().unwrap();
    svc.db.set_role(user.id, role).unwrap();
    user.id
}

#[test]
fn user_submission_then_moderator_accepts() {
    let mut svc = Service::new();
    let u = account(&mut svc, 1001, "builder", Role::User);
    let m = account(&mut svc, 1002, "mod", Role::Moderator);
    let out = svc.upload(Some(u), 42, &png(1920, 1080, 10), 100).unwrap();
    assert_eq!(out, SubmitOutcome::Pending { upload_id: 1 });
    assert_eq!(out.status(), 202);
    assert!(svc.files.contains(ArtifactKey::Pending { user_id: u, level_id: 42 }));
    assert!(svc.db.get_upload_info(42).is_none());

    let action = PendingUploadAction { accepted: true, reason: Some("looks good".to_string()) };
    let d = svc.pending_action(Some(m), 1, action, 200).unwrap();
    assert_eq!(d, Decision::Accepted { level_id: 42 });
    let rec = &svc.db.uploads[0];
    assert!(rec.accepted);
    assert_eq!(rec.accepted_by, Some(m));
    assert_eq!(rec.accepted_time, Some(200));
    assert_eq!(rec.reason.as_deref(), Some("looks good"));

    let info = svc.db.get_upload_info(42).unwrap();
    assert_eq!(info.account_id, 1001);
    assert_eq!(info.username, "builder");
    assert_eq!(info.artifact, ArtifactKey::Published { level_id: 42 });
    assert!(!svc.files.contains(ArtifactKey::Pending { user_id: u, level_id: 42 }));
}

#[test]
fn second_pending_submission_conflicts() {
    let mut svc = Service::new();
    let u = account(&mut svc, 1001, "builder", Role::User);
    let img = png(1920, 1080, 20);
    assert!(matches!(svc.upload(Some(u), 42, &img, 100), Ok(SubmitOutcome::Pending { .. })));
    let again = svc.upload(Some(u), 42, &img, 101);
    assert_eq!(again, Err(ServiceError::Conflict));
    assert_eq!(ServiceError::Conflict.status(), 409);
    assert_eq!(svc.db.uploads.len(), 1);
    let pending = svc.db.get_pending_uploads_for_user(u);
    assert_eq!(pending.len(), 1);
}

#[test]
fn verified_publishes_new_level_then_queues() {
    let mut svc = Service::new();
    let v = account(&mut svc, 2001, "trusted", Role::Verified);
    let first = svc.upload(Some(v), 7, &png(1920, 1080, 30), 100).unwrap();
    assert_eq!(first, SubmitOutcome::Published { replaced: false, upload_id: 1 });
    assert_eq!(first.status(), 201);
    let stored = svc.files.read(ArtifactKey::Published { level_id: 7 }).unwrap();

    let second = svc.upload(Some(v), 7, &png(1920, 1080, 31), 150).unwrap();
    assert_eq!(second, SubmitOutcome::Pending { upload_id: 2 });
    assert_eq!(second.status(), 202);
    assert_eq!(svc.files.read(ArtifactKey::Published { level_id: 7 }).unwrap(), stored);
    assert_eq!(svc.db.get_upload_info(7).unwrap().account_id, 2001);
}

#[test]
fn wrong_size_is_refused_for_every_role() {
    let mut svc = Service::new();
    let roles = [Role::User, Role::Verified, Role::Moderator, Role::Admin];
    let small = png(640, 360, 5);
    for (i, role) in roles.iter().enumerate() {
        let id = account(&mut svc, 3000 + i as i64, "someone", *role);
        assert_eq!(svc.upload(Some(id), 9, &small, 100), Err(ServiceError::InvalidImage));
    }
    assert_eq!(ServiceError::InvalidImage.status(), 400);
    assert_eq!(svc.db.uploads.len(), 0);
    assert_eq!(svc.files.entries.len(), 0);
}

#[test]
fn undecodable_bytes_are_refused() {
    let mut svc = Service::new();
    let a = account(&mut svc, 1, "admin", Role::Admin);
    assert_eq!(svc.upload(Some(a), 9, b"not an image", 100), Err(ServiceError::InvalidImage));
    assert_eq!(svc.db.uploads.len(), 0);
}

#[test]
fn privileged_submissions_always_publish_and_replace() {
    let mut svc = Service::new();
    let a = account(&mut svc, 1, "admin", Role::Admin);
    let m = account(&mut svc, 2, "mod", Role::Moderator);
    let first = svc.upload(Some(a), 5, &png(1920, 1080, 1), 100).unwrap();
    assert_eq!(first, SubmitOutcome::Published { replaced: false, upload_id: 1 });
    let before = svc.files.read(ArtifactKey::Published { level_id: 5 }).unwrap();
    let second = svc.upload(Some(m), 5, &png(1920, 1080, 2), 110).unwrap();
    assert_eq!(second, SubmitOutcome::Published { replaced: true, upload_id: 2 });
    let after = svc.files.read(ArtifactKey::Published { level_id: 5 }).unwrap();
    assert_ne!(before, after);
    assert_eq!(svc.db.get_upload_info(5).unwrap().account_id, 2);
    let rec = &svc.db.uploads[1];
    assert!(rec.accepted);
    assert_eq!(rec.accepted_by, Some(m));
}

#[test]
fn plain_user_never_publishes() {
    let mut svc = Service::new();
    let a = account(&mut svc, 1, "admin", Role::Admin);
    let u = account(&mut svc, 2, "user", Role::User);
    svc.upload(Some(a), 5, &png(1920, 1080, 1), 100).unwrap();
    let before = svc.files.read(ArtifactKey::Published { level_id: 5 }).unwrap();
    let out = svc.upload(Some(u), 5, &png(1920, 1080, 2), 110).unwrap();
    assert_eq!(out, SubmitOutcome::Pending { upload_id: 2 });
    assert_eq!(svc.files.read(ArtifactKey::Published { level_id: 5 }).unwrap(), before);
    let out = svc.upload(Some(u), 6, &png(1920, 1080, 3), 120).unwrap();
    assert_eq!(out, SubmitOutcome::Pending { upload_id: 3 });
    assert!(!svc.files.contains(ArtifactKey::Published { level_id: 6 }));
}

#[test]
fn submission_needs_a_known_session() {
    let mut svc = Service::new();
    let img = png(1920, 1080, 1);
    assert_eq!(svc.upload(None, 5, &img, 100), Err(ServiceError::Unauthorized));
    assert_eq!(svc.upload(Some(77), 5, &img, 100), Err(ServiceError::Forbidden));
    assert_eq!(ServiceError::Unauthorized.status(), 401);
    assert_eq!(ServiceError::Forbidden.status(), 403);
    assert_eq!(svc.db.uploads.len(), 0);
}
