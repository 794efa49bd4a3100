use dommer::element::{InsertPosition, InvalidCharacter, InvalidPointerId, InvalidSelector};

#[test]
fn insert_positions_have_their_keywords() {
    assert_eq!(InsertPosition::BeforeBegin.as_web_sys(), "beforebegin");
    assert_eq!(InsertPosition::AfterBegin.as_web_sys(), "afterbegin");
    assert_eq!(InsertPosition::BeforeEnd.as_web_sys(), "beforeend");
    assert_eq!(InsertPosition::AfterEnd.as_web_sys(), "afterend");
}

#[test]
fn host_success_is_passed_on() {
    let found: Result<Option<u32>, String> = Ok(Some(7));
    assert_eq!(InvalidSelector::from_host(found), Ok(Some(7)));
    let nothing: Result<Option<u32>, String> = Ok(None);
    assert_eq!(InvalidSelector::from_host(nothing), Ok(None));
    let done: Result<(), String> = Ok(());
    assert_eq!(InvalidPointerId::from_host(done), Ok(()));
    let toggled: Result<bool, String> = Ok(true);
    assert_eq!(InvalidCharacter::from_host(toggled), Ok(true));
}

#[test]
fn host_failure_becomes_the_typed_error() {
    let thrown: Result<bool, String> = Err("SyntaxError".to_string());
    assert_eq!(InvalidSelector::from_host(thrown), Err(InvalidSelector));
    let thrown: Result<(), u8> = Err(3);
    assert_eq!(InvalidPointerId::from_host(thrown), Err(InvalidPointerId));
    let thrown: Result<bool, ()> = Err(());
    assert_eq!(InvalidCharacter::from_host(thrown), Err(InvalidCharacter));
}
