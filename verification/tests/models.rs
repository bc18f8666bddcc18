use reddyt::models::oauth::{OAuthType, ProfileOAuth};
use reddyt::models::profile_overrides::ProfileOverrides;
use reddyt::models::profiles::Profile;
use reddyt::models::upload_platforms::{UploadPlatform, UploadPlatformType};
use reddyt::utils::text::VideoText;
use reddyt::utils::time::{utc_from_reading, UtcDateTime};

fn at(seconds: i64) -> UtcDateTime {
    UtcDateTime { seconds, nanoseconds: 0 }
}

#[test]
fn oauth_accessors_and_updates() {
    let mut oauth = ProfileOAuth::new(1, 2, OAuthType::Youtube, Some("refresh".to_string()), None);
    assert_eq!(oauth.id(), 1);
    assert_eq!(oauth.profile_id(), 2);
    assert_eq!(oauth.oauth_type(), OAuthType::Youtube);
    assert_eq!(oauth.refresh_token(), &Some("refresh".to_string()));
    assert_eq!(oauth.auth_token(), &None);
    oauth.set_auth_token(Some("auth".to_string()));
    assert_eq!(oauth.auth_token(), &Some("auth".to_string()));
    assert_eq!(oauth.refresh_token(), &Some("refresh".to_string()));
    oauth.set_refresh_token(None);
    assert_eq!(oauth.refresh_token(), &None);
    assert_eq!(oauth.auth_token(), &Some("auth".to_string()));
}

#[test]
fn deletion_outcomes() {
    assert_eq!(ProfileOAuth::deletion_outcome(0), None);
    assert_eq!(ProfileOAuth::deletion_outcome(1), Some(()));
    assert_eq!(ProfileOverrides::deletion_outcome(0), None);
    assert_eq!(ProfileOverrides::deletion_outcome(2), Some(()));
}

#[test]
fn override_run_date_updates() {
    let mut o = ProfileOverrides::new(4, 5, at(100), false);
    assert!(!o.run_date_changes(at(100)));
    assert!(o.run_date_changes(at(200)));
    assert!(o.run_date_changes(UtcDateTime { seconds: 100, nanoseconds: 1 }));
    o.set_run_date(at(200));
    assert_eq!(o.runs_at(), at(200));
    assert!(!o.run_date_changes(at(200)));
    assert_eq!(o.id(), 4);
    assert_eq!(o.profile_id(), 5);
}

#[test]
fn override_claim_is_idempotent() {
    let mut o = ProfileOverrides::new(4, 5, at(100), false);
    assert!(o.claim_needed());
    assert!(!o.claimed());
    o.mark_claimed();
    assert!(o.claimed());
    assert!(!o.claim_needed());
    o.mark_claimed();
    assert!(o.claimed());
    assert_eq!(o.runs_at(), at(100));
}

#[test]
fn profile_accessors() {
    let p = Profile::new(
        1,
        "name".to_string(),
        "0 0 * * *".to_string(),
        true,
        "question".to_string(),
        "answer".to_string(),
        "*.mp4".to_string(),
        "voice".to_string(),
        "Roboto".to_string(),
    );
    assert_eq!(p.id(), 1);
    assert_eq!(p.name(), "name");
    assert_eq!(p.upload_schedule(), "0 0 * * *");
    assert!(p.paused());
    assert_eq!(p.question_prompt(), "question");
    assert_eq!(p.answer_prompt(), "answer");
    assert_eq!(p.background_glob(), "*.mp4");
    assert_eq!(p.voice_name(), "voice");
    assert_eq!(p.font_name(), "Roboto");
}

#[test]
fn upload_platform_accessors() {
    let u = UploadPlatform::new(1, 2, UploadPlatformType::YoutubeShorts, vec![1, 2], vec![3]);
    assert_eq!(u.id(), 1);
    assert_eq!(u.profile_id(), 2);
    assert_eq!(u.platform(), UploadPlatformType::YoutubeShorts);
    assert_eq!(u.oauth_refresh(), &[1, 2]);
    assert_eq!(u.oauth_token(), &[3]);
}

#[test]
fn video_text_accessors() {
    let t = VideoText::new("Why?".to_string(), "Because.".to_string());
    assert_eq!(t.prompt(), "Why?");
    assert_eq!(t.answer(), "Because.");
}

#[test]
fn clock_reading_conversion() {
    assert_eq!(utc_from_reading(Some((1_700_000_000, 5))), Some(UtcDateTime { seconds: 1_700_000_000, nanoseconds: 5 }));
    assert_eq!(utc_from_reading(Some((u64::MAX, 0))), None);
    assert_eq!(utc_from_reading(Some((i64::MAX as u64, 0))), Some(UtcDateTime { seconds: i64::MAX, nanoseconds: 0 }));
    assert_eq!(utc_from_reading(None), None);
}
