use wormhole_bridge::add;
use wormhole_bridge::code::{validate_code, CodeError};

#[test]
fn empty_code_is_refused() {
    assert_eq!(validate_code(""), Err(CodeError::Empty));
}

#[test]
fn malformed_codes_are_refused() {
    assert_eq!(validate_code("purple"), Err(CodeError::Malformed));
    assert_eq!(validate_code("x1-purple-sausages"), Err(CodeError::Malformed));
    assert_eq!(validate_code("0-purple-sausages"), Err(CodeError::Malformed));
    assert_eq!(validate_code("4-ab"), Err(CodeError::Malformed));
}

#[test]
fn code_without_nameplate_is_refused() {
    assert_eq!(validate_code("-abcd"), Err(CodeError::Malformed));
    assert_eq!(validate_code("-purple-sausages"), Err(CodeError::Malformed));
}

#[test]
fn short_password_is_refused() {
    assert_eq!(validate_code("5-abc"), Err(CodeError::Malformed));
}

#[test]
fn well_formed_code_is_kept_verbatim() {
    assert_eq!(validate_code("4-purple-sausages"), Ok("4-purple-sausages".to_string()));
    assert_eq!(validate_code("15-abcd"), Ok("15-abcd".to_string()));
}

#[test]
fn add_sums() {
    assert_eq!(add(2, 3), 5);
    assert_eq!(add(-7, 7), 0);
}
