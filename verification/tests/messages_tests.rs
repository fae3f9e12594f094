use content_integrity::messages::{FromDaemon, Request, Response, ToDaemon};

#[test]
fn a_request_keeps_its_id_and_content() {
    let msg = ToDaemon::new(42, Request::SetBrightness((1, 80)));
    assert_eq!(msg.id(), 42);
    assert_eq!(*msg.request(), Request::SetBrightness((1, 80)));
    let other = ToDaemon::new(u64::MAX, Request::Reboot);
    assert_eq!(other.id(), u64::MAX);
    assert_eq!(*other.request(), Request::Reboot);
}

#[test]
fn a_response_keeps_its_id_and_content() {
    let msg = FromDaemon::new(7, Response::GetBrightnessSuccess((0, 55)));
    assert_eq!(msg.id(), 7);
    assert_eq!(*msg.response(), Response::GetBrightnessSuccess((0, 55)));
    let other = FromDaemon::new(0, Response::GenericError);
    assert_eq!(other.id(), 0);
    assert_eq!(*other.response(), Response::GenericError);
}
