use auth_core::role::Role;
use auth_core::store::{Artifact, ConsumeError, Purpose, UserStore};
use auth_core::user::User;

fn plain_user(id: u64, email: &str) -> User {
    User {
        id,
        email: email.to_string(),
        password_hash: "$placeholder".to_string(),
        first_name: "A".to_string(),
        last_name: "B".to_string(),
        role: Role::User,
        is_email_verified: false,
        is_active: true,
        created_at: 0,
        updated_at: 0,
        last_login: None,
    }
}

fn art(v: u64, uid: u64, purpose: Purpose, expires_at: u64) -> Artifact {
    Artifact { token_value: v, user_id: uid, purpose, expires_at, consumed: false }
}

#[test]
fn consume_exactly_once() {
    let mut st = UserStore::new();
    st.create_user(plain_user(1, "a@example.com")).unwrap();
    st.put_artifact(art(77, 1, Purpose::EmailVerification, 100)).unwrap();
    assert_eq!(st.consume_artifact(77, Purpose::EmailVerification, 10), Ok(1));
    assert_eq!(
        st.consume_artifact(77, Purpose::EmailVerification, 10),
        Err(ConsumeError::AlreadyUsed)
    );
}

#[test]
fn consume_respects_expiry_instant() {
    let mut st = UserStore::new();
    st.create_user(plain_user(1, "a@example.com")).unwrap();
    st.put_artifact(art(77, 1, Purpose::PasswordReset, 100)).unwrap();
    assert_eq!(
        st.consume_artifact(77, Purpose::PasswordReset, 100),
        Err(ConsumeError::Expired)
    );
    assert_eq!(st.consume_artifact(77, Purpose::PasswordReset, 99), Ok(1));
}

#[test]
fn consume_unknown_value_or_wrong_purpose() {
    let mut st = UserStore::new();
    st.create_user(plain_user(1, "a@example.com")).unwrap();
    st.put_artifact(art(77, 1, Purpose::EmailVerification, 100)).unwrap();
    assert_eq!(
        st.consume_artifact(78, Purpose::EmailVerification, 10),
        Err(ConsumeError::NotFound)
    );
    assert_eq!(
        st.consume_artifact(77, Purpose::PasswordReset, 10),
        Err(ConsumeError::NotFound)
    );
}

#[test]
fn newer_artifact_supersedes_older() {
    let mut st = UserStore::new();
    st.create_user(plain_user(1, "a@example.com")).unwrap();
    st.put_artifact(art(10, 1, Purpose::EmailVerification, 100)).unwrap();
    st.put_artifact(art(20, 1, Purpose::EmailVerification, 100)).unwrap();
    assert_eq!(
        st.consume_artifact(10, Purpose::EmailVerification, 5),
        Err(ConsumeError::AlreadyUsed)
    );
    assert_eq!(st.consume_artifact(20, Purpose::EmailVerification, 5), Ok(1));
}

#[test]
fn get_artifact_looks_up_by_value() {
    let mut st = UserStore::new();
    st.create_user(plain_user(1, "a@example.com")).unwrap();
    st.put_artifact(art(77, 1, Purpose::EmailVerification, 100)).unwrap();
    let a = st.get_artifact(77).unwrap();
    assert_eq!(a.user_id, 1);
    assert!(!a.consumed);
    assert!(st.get_artifact(78).is_none());
    st.consume_artifact(77, Purpose::EmailVerification, 10).unwrap();
    assert!(st.get_artifact(77).unwrap().consumed);
}

#[test]
fn duplicate_email_rejected() {
    let mut st = UserStore::new();
    st.create_user(plain_user(1, "a@example.com")).unwrap();
    let r = st.create_user(plain_user(2, "a@example.com"));
    assert_eq!(r, Err(auth_core::errors::AuthError::EmailAlreadyExists));
    assert!(st.find_by_id(2).is_none());
}

#[test]
fn find_by_email_sees_created_user() {
    let mut st = UserStore::new();
    st.create_user(plain_user(5, "x@example.com")).unwrap();
    let u = st.find_by_email("x@example.com").unwrap();
    assert_eq!(u.id, 5);
    assert!(st.find_by_email("y@example.com").is_none());
}

#[test]
fn update_user_rejects_stealing_an_email() {
    let mut st = UserStore::new();
    st.create_user(plain_user(1, "a@example.com")).unwrap();
    st.create_user(plain_user(2, "b@example.com")).unwrap();
    let mut u = st.find_by_id(2).unwrap();
    u.email = "a@example.com".to_string();
    assert_eq!(st.update_user(u), Err(auth_core::errors::AuthError::EmailAlreadyExists));
    let mut u = st.find_by_id(2).unwrap();
    u.first_name = "Renamed".to_string();
    st.update_user(u).unwrap();
    assert_eq!(st.find_by_id(2).unwrap().first_name, "Renamed");
}
