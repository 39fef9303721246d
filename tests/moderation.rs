use level_thumbnails::model::{ArtifactKey, PendingUploadAction, Res, Role};
use level_thumbnails::service::{Decision, Service, ServiceError, SubmitOutcome, Verdict};

fn png(width: u32, height: u32, shade: u8) -> Vec<u8> {
    let img = image::RgbImage::from_pixel(width, height, image::Rgb([90, shade, 40]));
    let mut out = std::io::Cursor::new(Vec::new());
    img.write_to(&mut out, image::ImageFormat::Png).unwrap();
    out.into_inner()
}

fn account(svc: &mut Service, account_id: i64, name: &str, role: Role) -> i64 {
    let user = svc.login(account_id, name, Verdict::Strong).ok().unwrap();
    svc.db.set_role(user.id, role).unwrap();
    user.id
}

fn verdict(accepted: bool, reason: Option<&str>) -> PendingUploadAction {
    PendingUploadAction { accepted, reason: reason.map(|r| r.to_string()) }
}

#[test]
fn accepting_twice_is_already_decided() {
    let mut svc = Service::new();
    let u = account(&mut svc, 10, "u", Role::User);
    let m = account(&mut svc, 11, "m", Role::Moderator);
    let a = account(&mut svc, 12, "a", Role::Admin);
    svc.upload(Some(u), 3, &png(1920, 1080, 1), 100).unwrap();
    assert_eq!(svc.pending_action(Some(m), 1, verdict(true, None), 200), Ok(Decision::Accepted { level_id: 3 }));
    let bytes = svc.files.read(ArtifactKey::Published { level_id: 3 }).unwrap();
    let second = svc.pending_action(Some(a), 1, verdict(true, Some("again")), 300);
    assert_eq!(second, Err(ServiceError::AlreadyDecided));
    assert_eq!(ServiceError::AlreadyDecided.status(), 409);
    assert_eq!(svc.db.uploads[0].accepted_time, Some(200));
    assert_eq!(svc.db.uploads[0].accepted_by, Some(m));
    assert_eq!(svc.db.uploads[0].reason, None);
    assert_eq!(svc.files.read(ArtifactKey::Published { level_id: 3 }).unwrap(), bytes);
}

#[test]
fn rejection_leaves_the_resolver_unchanged() {
    let mut svc = Service::new();
    let v = account(&mut svc, 20, "v", Role::Verified);
    let u = account(&mut svc, 21, "u", Role::User);
    let m = account(&mut svc, 22, "m", Role::Moderator);
    svc.upload(Some(v), 8, &png(1920, 1080, 1), 100).unwrap();
    svc.upload(Some(u), 8, &png(1920, 1080, 2), 110).unwrap();
    let before = svc.db.get_upload_info(8).unwrap();
    let published = svc.files.read(ArtifactKey::Published { level_id: 8 }).unwrap();
    let d = svc.pending_action(Some(m), 2, verdict(false, Some("blurry")), 120).unwrap();
    assert_eq!(d, Decision::Rejected { level_id: 8 });
    let after = svc.db.get_upload_info(8).unwrap();
    assert_eq!(after.account_id, before.account_id);
    assert_eq!(after.username, before.username);
    assert_eq!(after.artifact, before.artifact);
    assert_eq!(svc.files.read(ArtifactKey::Published { level_id: 8 }).unwrap(), published);
    assert!(!svc.files.contains(ArtifactKey::Pending { user_id: u, level_id: 8 }));
    let rec = &svc.db.uploads[1];
    assert!(!rec.accepted);
    assert_eq!(rec.accepted_time, Some(120));
    assert_eq!(rec.accepted_by, Some(m));
    assert_eq!(rec.reason.as_deref(), Some("blurry"));
    assert_eq!(svc.pending_action(Some(m), 2, verdict(true, None), 130), Err(ServiceError::AlreadyDecided));
}

#[test]
fn acceptance_moves_the_active_thumbnail() {
    let mut svc = Service::new();
    let v = account(&mut svc, 30, "first", Role::Verified);
    let u = account(&mut svc, 31, "second", Role::User);
    let m = account(&mut svc, 32, "m", Role::Moderator);
    svc.upload(Some(v), 4, &png(1920, 1080, 1), 100).unwrap();
    svc.upload(Some(u), 4, &png(1920, 1080, 2), 110).unwrap();
    assert_eq!(svc.db.get_upload_info(4).unwrap().account_id, 30);
    svc.pending_action(Some(m), 2, verdict(true, None), 120).unwrap();
    let info = svc.db.get_upload_info(4).unwrap();
    assert_eq!(info.account_id, 31);
    assert_eq!(info.username, "second");
    assert_eq!(info.artifact, ArtifactKey::Published { level_id: 4 });
}

#[test]
fn accepted_image_is_served_byte_for_byte() {
    let mut svc = Service::new();
    let u = account(&mut svc, 40, "u", Role::User);
    let m = account(&mut svc, 41, "m", Role::Moderator);
    let out = svc.upload(Some(u), 12, &png(1920, 1080, 7), 100).unwrap();
    let id = match out {
        SubmitOutcome::Pending { upload_id } => upload_id,
        other => panic!("unexpected outcome {:?}", other),
    };
    let pending = svc.get_pending_image(Some(m), id).unwrap();
    assert_eq!(pending.user_id, u);
    svc.pending_action(Some(m), id, verdict(true, None), 200).unwrap();
    let served = svc.handle_image(12, Res::High).unwrap();
    assert_eq!(served.bytes, pending.bytes);
    assert_eq!(served.info.account_id, 40);
    assert_eq!(&served.bytes[0..4], b"RIFF");
}

#[test]
fn decisions_need_privilege_and_a_pending_upload() {
    let mut svc = Service::new();
    let u = account(&mut svc, 50, "u", Role::User);
    let v = account(&mut svc, 51, "v", Role::Verified);
    let m = account(&mut svc, 52, "m", Role::Moderator);
    svc.upload(Some(u), 1, &png(1920, 1080, 1), 100).unwrap();
    assert_eq!(svc.pending_action(Some(u), 1, verdict(true, None), 110), Err(ServiceError::Forbidden));
    assert_eq!(svc.pending_action(Some(v), 1, verdict(true, None), 110), Err(ServiceError::Forbidden));
    assert_eq!(svc.pending_action(None, 1, verdict(true, None), 110), Err(ServiceError::Unauthorized));
    assert_eq!(svc.pending_action(Some(m), 2, verdict(true, None), 110), Err(ServiceError::NotFound));
    assert_eq!(svc.pending_action(Some(m), 0, verdict(false, None), 110), Err(ServiceError::NotFound));
    assert_eq!(ServiceError::NotFound.status(), 404);
    assert!(svc.db.uploads[0].pending());
}

#[test]
fn moderators_may_decide_on_their_own_submission() {
    let mut svc = Service::new();
    let u = account(&mut svc, 60, "u", Role::User);
    svc.upload(Some(u), 2, &png(1920, 1080, 1), 100).unwrap();
    svc.db.set_role(u, Role::Moderator).unwrap();
    assert_eq!(svc.pending_action(Some(u), 1, verdict(true, None), 120), Ok(Decision::Accepted { level_id: 2 }));
    assert_eq!(svc.db.get_upload_info(2).unwrap().account_id, 60);
}

#[test]
fn undecodable_artifact_fails_variant_but_serves_full_size() {
    let mut svc = Service::new();
    let a = account(&mut svc, 70, "a", Role::Admin);
    svc.upload(Some(a), 13, &png(1920, 1080, 1), 100).unwrap();
    svc.files.write(ArtifactKey::Published { level_id: 13 }, b"broken".to_vec());
    assert_eq!(svc.handle_image(13, Res::Small).err(), Some(ServiceError::StoreFailure));
    assert_eq!(ServiceError::StoreFailure.status(), 500);
    assert_eq!(svc.handle_image(13, Res::High).unwrap().bytes, b"broken".to_vec());
}

#[test]
fn newer_direct_publish_stays_active_after_older_acceptance() {
    let mut svc = Service::new();
    let u = account(&mut svc, 80, "u", Role::User);
    let a = account(&mut svc, 81, "a", Role::Admin);
    svc.upload(Some(u), 14, &png(1920, 1080, 1), 100).unwrap();
    svc.upload(Some(a), 14, &png(1920, 1080, 2), 200).unwrap();
    svc.pending_action(Some(a), 1, verdict(true, None), 300).unwrap();
    // the active thumbnail is the accepted upload with the latest upload time
    assert_eq!(svc.db.get_upload_info(14).unwrap().account_id, 81);
}

#[test]
fn equal_upload_times_resolve_to_the_later_record() {
    let mut svc = Service::new();
    let a = account(&mut svc, 90, "a", Role::Admin);
    let m = account(&mut svc, 91, "m", Role::Moderator);
    svc.upload(Some(a), 15, &png(1920, 1080, 1), 100).unwrap();
    svc.upload(Some(m), 15, &png(1920, 1080, 2), 100).unwrap();
    assert_eq!(svc.db.get_upload_info(15).unwrap().account_id, 91);
}
