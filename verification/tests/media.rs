use darkhorse_store::authentication::{
    bind_step, checked, login_key, session_facts, stored_epoch, AuthError, SessionRow,
};
use darkhorse_store::directory::SessionError;
use darkhorse_store::media::{
    administrator_error, asset_metadata, branding, kind, media_event, optional, phone,
    profile_target, public_target, removal, resolved, session_error, storage_binding, Branding,
    Kind, MediaTarget, ProfileError,
};
use darkhorse_store::registration::RegistrationError;

#[test]
fn kinds_are_stored_by_name() {
    assert_eq!(kind(Kind::Portrait), "portrait");
    assert_eq!(kind(Kind::Logo), "logo");
    assert_eq!(kind(Kind::Background), "background");
}

#[test]
fn only_branding_slots_are_public() {
    let logo = MediaTarget { kind: Kind::Logo, principal: None };
    assert_eq!(public_target(logo), Ok(logo));
    assert_eq!(public_target(MediaTarget { kind: Kind::Portrait, principal: None }), Err(ProfileError::Invalid));
    assert_eq!(public_target(MediaTarget { kind: Kind::Background, principal: Some(1) }), Err(ProfileError::Invalid));
}

#[test]
fn portraits_default_to_the_actor() {
    assert_eq!(resolved(MediaTarget { kind: Kind::Portrait, principal: None }, 5).principal, Some(5));
    assert_eq!(resolved(MediaTarget { kind: Kind::Portrait, principal: Some(6) }, 5).principal, Some(6));
    let logo = resolved(MediaTarget { kind: Kind::Logo, principal: Some(6) }, 5);
    assert_eq!((logo.kind, logo.principal), (Kind::Logo, None));
    assert_eq!(profile_target(None, 5), 5);
    assert_eq!(profile_target(Some(6), 5), 6);
}

#[test]
fn profile_errors() {
    assert_eq!(administrator_error(RegistrationError::Forbidden), ProfileError::Forbidden);
    assert_eq!(administrator_error(RegistrationError::Unauthorized), ProfileError::Unauthorized);
    assert_eq!(administrator_error(RegistrationError::RecentAuthenticationRequired), ProfileError::RecentAuthentication);
    assert_eq!(administrator_error(RegistrationError::Invalid), ProfileError::Unavailable);
    assert_eq!(session_error(SessionError::Unavailable), ProfileError::Unavailable);
    assert_eq!(session_error(SessionError::Unauthorized), ProfileError::Unauthorized);
}

#[test]
fn media_changes() {
    assert_eq!(media_event(Some(1)), "published");
    assert_eq!(media_event(None), "removed");
    assert_eq!(removal(4, None, 5), (4, false));
    assert_eq!(removal(4, Some(9), 5), (5, true));
    assert_eq!(branding(3, Some(1), None), Branding { revision: 3, logo: true, background: false });
}

#[test]
fn object_storage_binding() {
    assert_eq!(storage_binding(&[7; 32], &[7; 32]), Ok(()));
    let mut other = [7u8; 32];
    other[31] = 8;
    assert_eq!(storage_binding(&other, &[7; 32]), Err(ProfileError::Conflict));
    assert_eq!(storage_binding(&[7; 31], &[7; 32]), Err(ProfileError::Conflict));
}

#[test]
fn stored_profile_columns() {
    assert_eq!(optional(None), "");
    assert_eq!(optional(Some("Ana".into())), "Ana");
    assert_eq!(phone(None, None), Ok(None));
    assert_eq!(phone(Some("+34".into()), Some("600".into())), Ok(Some(("+34".to_string(), "600".to_string()))));
    assert_eq!(phone(Some("+34".into()), None), Err(ProfileError::Unavailable));
    assert_eq!(phone(None, Some("600".into())), Err(ProfileError::Unavailable));
    assert_eq!(asset_metadata(10, &vec![1; 32]), Ok((10, [1; 32])));
    assert_eq!(asset_metadata(-1, &vec![1; 32]), Err(ProfileError::Unavailable));
    assert_eq!(asset_metadata(10, &vec![1; 33]), Err(ProfileError::Unavailable));
}

fn session_row() -> SessionRow {
    SessionRow {
        active: true,
        credential_live: true,
        revoked: false,
        credential_epoch: 2,
        current_epoch: 2,
        created_ms: 10,
        seen_ms: 20,
        expires_ms: 30,
    }
}

#[test]
fn session_rows_become_facts() {
    let f = session_facts(session_row()).expect("well formed");
    assert!(f.active && f.credential_live && !f.revoked);
    assert_eq!((f.issued_epoch, f.current_epoch, f.created_ms, f.seen_ms, f.expires_ms), (2, 2, 10, 20, 30));
    let mut bad = session_row();
    bad.seen_ms = -1;
    assert_eq!(session_facts(bad), Err(AuthError::Unavailable));
}

#[test]
fn sign_in_decisions() {
    assert_eq!(checked(true), Ok(()));
    assert_eq!(checked(false), Err(AuthError::Denied));
    assert_eq!(stored_epoch(7), Ok(7));
    assert_eq!(stored_epoch(u64::MAX), Err(AuthError::Unavailable));
    assert_eq!(login_key(&[7; 32], &[7; 32]), Ok(()));
    assert_eq!(login_key(&[7; 32], &[8; 32]), Err(AuthError::Unavailable));
    assert_eq!(login_key(&[7; 31], &[7; 32]), Err(AuthError::Unavailable));
    assert_eq!(darkhorse_store::authentication::session_error(SessionError::Unauthorized), AuthError::Denied);
    assert_eq!(darkhorse_store::authentication::session_error(SessionError::Unavailable), AuthError::Unavailable);
}

#[test]
fn the_login_key_is_pinned_once_and_never_replaced() {
    let (pinned, answer) = bind_step(None, &[1; 32]);
    assert_eq!(pinned, vec![1; 32]);
    assert_eq!(answer, Ok(()));
    let (again, answer) = bind_step(Some(pinned.clone()), &[2; 32]);
    assert_eq!(again, pinned);
    assert_eq!(answer, Err(AuthError::Unavailable));
    let (again, answer) = bind_step(Some(pinned.clone()), &[1; 32]);
    assert_eq!(again, pinned);
    assert_eq!(answer, Ok(()));
}
