use level_thumbnails::database::{Database, PendingFilter, StoreError};
use level_thumbnails::model::{ArtifactKey, PendingUploadAction, Role};
use level_thumbnails::service::{LoginError, Service, ServiceError, Verdict};

fn png(shade: u8) -> Vec<u8> {
    let img = image::RgbImage::from_pixel(1920, 1080, image::Rgb([shade, shade, 0]));
    let mut out = std::io::Cursor::new(Vec::new());
    img.write_to(&mut out, image::ImageFormat::Png).unwrap();
    out.into_inner()
}

fn account(svc: &mut Service, account_id: i64, name: &str, role: Role) -> i64 {
    let user = svc.login(account_id, name, Verdict::Strong).ok().unwrap();
    svc.db.set_role(user.id, role).unwrap();
    user.id
}

#[test]
fn pending_queue_is_most_recent_first() {
    let mut db = Database::new();
    let u = db.find_or_create_user(1, "u").unwrap().id;
    let w = db.find_or_create_user(2, "w").unwrap().id;
    let k = |user: i64, level: i64| ArtifactKey::Pending { user_id: user, level_id: level };
    db.add_upload(5, u, k(u, 5), false, 300).unwrap();
    db.add_upload(6, u, k(u, 6), false, 100).unwrap();
    db.add_upload(5, w, k(w, 5), false, 300).unwrap();
    db.add_upload(7, w, ArtifactKey::Published { level_id: 7 }, true, 400).unwrap();
    let all = db.get_pending_uploads();
    let ids: Vec<i64> = all.iter().map(|p| p.id).collect();
    assert_eq!(ids, vec![3, 1, 2]);
    let level5: Vec<i64> = db.get_pending_uploads_for_level(5).iter().map(|p| p.id).collect();
    assert_eq!(level5, vec![3, 1]);
    let of_u: Vec<i64> = db.get_pending_uploads_for_user(u).iter().map(|p| p.id).collect();
    assert_eq!(of_u, vec![1, 2]);
    assert!(db.get_pending_uploads_for_level(9).is_empty());
}

#[test]
fn queue_access_rules() {
    let mut svc = Service::new();
    let u = account(&mut svc, 1, "u", Role::User);
    let v = account(&mut svc, 2, "v", Role::Verified);
    let m = account(&mut svc, 3, "m", Role::Moderator);
    svc.upload(Some(u), 5, &png(1), 100).unwrap();
    assert_eq!(svc.get_pending_uploads(Some(u), PendingFilter::ByUser(u)).unwrap().len(), 1);
    assert_eq!(svc.get_pending_uploads(Some(v), PendingFilter::ByUser(u)), Err(ServiceError::Forbidden));
    assert_eq!(svc.get_pending_uploads(Some(u), PendingFilter::All), Err(ServiceError::Forbidden));
    assert_eq!(svc.get_pending_uploads(Some(u), PendingFilter::ByLevel(5)), Err(ServiceError::Forbidden));
    assert_eq!(svc.get_pending_uploads(None, PendingFilter::All), Err(ServiceError::Unauthorized));
    assert_eq!(svc.get_pending_uploads(Some(m), PendingFilter::ByLevel(5)).unwrap().len(), 1);
    assert_eq!(svc.get_pending_uploads(Some(m), PendingFilter::ByUser(u)).unwrap().len(), 1);
    assert!(svc.get_pending_uploads(Some(m), PendingFilter::ByUser(m)).unwrap().is_empty());
    let info = svc.get_pending_info(Some(m), 1).unwrap();
    assert_eq!((info.id, info.user_id, info.level_id, info.accepted, info.upload_time), (1, u, 5, false, 100));
    assert_eq!(svc.get_pending_info(Some(u), 1), Err(ServiceError::Forbidden));
    assert_eq!(svc.get_pending_info(Some(m), 9), Err(ServiceError::NotFound));
    let action = PendingUploadAction { accepted: false, reason: None };
    svc.pending_action(Some(m), 1, action, 110).unwrap();
    assert_eq!(svc.get_pending_info(Some(m), 1), Err(ServiceError::NotFound));
    assert!(svc.get_pending_image(Some(m), 1).is_err());
}

#[test]
fn user_statistics_count_uploads_levels_and_active_thumbnails() {
    let mut db = Database::new();
    let u = db.find_or_create_user(1, "u").unwrap().id;
    let w = db.find_or_create_user(2, "w").unwrap().id;
    let p = |level: i64| ArtifactKey::Published { level_id: level };
    db.add_upload(5, u, p(5), true, 100).unwrap();
    db.add_upload(5, u, p(5), true, 110).unwrap();
    db.add_upload(6, u, p(6), true, 120).unwrap();
    db.add_upload(6, w, p(6), true, 130).unwrap();
    db.add_upload(7, u, ArtifactKey::Pending { user_id: u, level_id: 7 }, false, 140).unwrap();
    let s = db.get_user_stats(u).unwrap();
    assert_eq!((s.id, s.account_id, s.username.as_str(), s.role), (u, 1, "u", Role::User));
    assert_eq!(s.upload_count, 4);
    assert_eq!(s.accepted_upload_count, 3);
    assert_eq!(s.level_count, 3);
    assert_eq!(s.accepted_level_count, 2);
    assert_eq!(s.active_thumbnail_count, 1);
    let t = db.get_user_stats(w).unwrap();
    assert_eq!((t.upload_count, t.level_count, t.active_thumbnail_count), (1, 1, 1));
    assert!(db.get_user_stats(3).is_none());
    assert!(db.get_user_stats(0).is_none());
}

#[test]
fn extended_info_reports_first_acceptance_and_moderator() {
    let mut svc = Service::new();
    let v = account(&mut svc, 100, "v", Role::Verified);
    let u = account(&mut svc, 101, "u", Role::User);
    let m = account(&mut svc, 102, "mod", Role::Moderator);
    svc.upload(Some(v), 9, &png(3), 50).unwrap();
    svc.upload(Some(u), 9, &png(4), 60).unwrap();
    let action = PendingUploadAction { accepted: true, reason: None };
    svc.pending_action(Some(m), 2, action, 70).unwrap();
    let x = svc.thumbnail_info_handler(9).unwrap();
    assert_eq!(x.level_id, 9);
    assert_eq!(x.account_id, 101);
    assert_eq!(x.username, "u");
    assert_eq!(x.upload_time, 60);
    assert_eq!(x.first_upload_time, 50);
    assert_eq!(x.accepted_time, Some(70));
    assert_eq!(x.accepted_by, Some(102));
    assert_eq!(x.accepted_by_username.as_deref(), Some("mod"));
    assert_eq!(svc.thumbnail_info_handler(10).err(), Some(ServiceError::NotFound));
}

#[test]
fn login_finds_or_creates_accounts() {
    let mut svc = Service::new();
    let a = svc.login(500, "alice", Verdict::Strong).ok().unwrap();
    assert_eq!((a.id, a.account_id, a.username.as_str(), a.role), (1, 500, "alice", Role::User));
    let again = svc.login(500, "renamed", Verdict::Strong).ok().unwrap();
    assert_eq!((again.id, again.username.as_str()), (1, "alice"));
    let b = svc.login(501, "bob", Verdict::Strong).ok().unwrap();
    assert_eq!(b.id, 2);
    match svc.login(502, "carol", Verdict::Weak("carol".to_string())) {
        Err(LoginError::Weak(name)) => assert_eq!(name, "carol"),
        other => panic!("unexpected {:?}", other),
    }
    match svc.login(502, "carol", Verdict::Invalid("expired".to_string())) {
        Err(LoginError::Invalid(cause)) => assert_eq!(cause, "expired"),
        other => panic!("unexpected {:?}", other),
    }
    assert_eq!(svc.db.users.len(), 2);
    assert_eq!(svc.get_me(Some(2)).unwrap().username, "bob");
    assert_eq!(svc.get_user_info(3).err(), Some(ServiceError::NotFound));
}

#[test]
fn record_store_errors() {
    let mut db = Database::new();
    let u = db.find_or_create_user(1, "u").unwrap().id;
    assert_eq!(db.accept_upload(1, u, None, true, 10), Err(StoreError::NotFound));
    assert_eq!(db.get_pending_upload(1), Err(StoreError::NotFound));
    db.add_upload(3, u, ArtifactKey::Published { level_id: 3 }, true, 5).unwrap();
    assert_eq!(db.get_pending_upload(1), Err(StoreError::AlreadyDecided));
    assert!(db.get_user_by_id(2).is_none());
    assert_eq!(db.get_user_by_id(1).unwrap().account_id, 1);
}

#[test]
fn missing_thumbnail_is_not_found() {
    let svc = Service::new();
    assert_eq!(svc.handle_image(1, level_thumbnails::model::Res::High).err(), Some(ServiceError::NotFound));
    assert!(svc.db.get_upload_extended(1).is_none());
}
