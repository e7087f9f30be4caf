use pointercrate::cistring::CiString;
use pointercrate::context::{ConnectionKind, Me, RequestData, User};
use pointercrate::error::PointercrateError;
use pointercrate::operation::{DeleteMessage, GetMessage, PaginateMessage, PatchMessage};
use pointercrate::pagination::Paginator;

fn me() -> Me {
    Me(User { id: 3, name: CiString("bob".to_string()), salt: vec![] })
}

#[test]
fn authenticated_requests_use_audited_connections() {
    let data = RequestData::External { user: Some(me()), if_match: None };
    assert_eq!(GetMessage::<i32, ()>::new(1, data).connection(), ConnectionKind::Audited(3));
    let anon = RequestData::External { user: None, if_match: None };
    assert_eq!(GetMessage::<i32, ()>::new(1, anon).connection(), ConnectionKind::Plain);
    assert_eq!(DeleteMessage::<i32, ()>::new(1, RequestData::Internal).connection(), ConnectionKind::Plain);
}

#[test]
fn patch_with_stale_marker_fails() {
    let data = RequestData::External { user: Some(me()), if_match: Some(11) };
    let msg = PatchMessage::<i32, (), &str>::new(5, "fix", data);
    assert_eq!(msg.decide(Some(12)), Err(PointercrateError::PreconditionFailed));
    assert_eq!(msg.decide(Some(11)), Ok(()));
    assert_eq!(msg.decide(None), Err(PointercrateError::ModelNotFound));
    assert_eq!(msg.connection(), ConnectionKind::Audited(3));
}

#[test]
fn patch_without_marker_applies() {
    let msg = PatchMessage::<i32, (), u8>::new(5, 1, RequestData::Internal);
    assert_eq!(msg.decide(Some(99)), Ok(()));
}

#[test]
fn second_delete_finds_nothing() {
    let msg = DeleteMessage::<i32, ()>::new(5, RequestData::Internal);
    assert_eq!(msg.decide(true), Ok(()));
    assert_eq!(msg.decide(false), Err(PointercrateError::ModelNotFound));
}

#[test]
fn paginate_message_keeps_its_parts() {
    let p = Paginator { limit: 2, after: None, before: None };
    let msg = PaginateMessage::<()>::new(p, "/b".to_string(), RequestData::Internal);
    assert_eq!(msg.0, p);
    assert_eq!(msg.1, "/b");
}

#[test]
fn if_match_check() {
    let data = RequestData::External { user: None, if_match: Some(4) };
    assert_eq!(data.check_if_match(4), Ok(()));
    assert_eq!(data.check_if_match(5), Err(PointercrateError::PreconditionFailed));
}
