use validate_branchname::HeadState;
use validate_branchname::hex_encode;
use validate_branchname::head_state_from_parts;
use validate_branchname::exit_code;
use validate_branchname::CheckError;
use validate_branchname::ResolutionError;

#[test]
fn hex_encode_renders_lowercase_pairs() {
    assert_eq!(hex_encode(&vec![0xde, 0xad, 0xbe, 0xef]), "deadbeef");
    assert_eq!(hex_encode(&vec![0x00, 0x0f, 0xf0]), "000ff0");
    assert_eq!(hex_encode(&vec![]), "");
}

#[test]
fn named_branch_keeps_the_short_name_exactly() {
    let r = head_state_from_parts(true, Some(String::from("feature/x")), None);
    match r {
        Ok(HeadState::NamedBranch(name)) => assert_eq!(name, "feature/x"),
        _ => panic!("expected a named branch"),
    }
}

#[test]
fn named_branch_display_preserves_case_and_prefix_free_form() {
    let r = head_state_from_parts(true, Some(String::from("Feature/X")), None).unwrap();
    assert_eq!(r.display(), "Feature/X");
}

#[test]
fn underivable_short_name_falls_back_to_unknown() {
    let r = head_state_from_parts(true, None, None);
    match r {
        Ok(HeadState::NamedBranch(name)) => assert_eq!(name, "unknown"),
        _ => panic!("expected the lenient fallback"),
    }
}

#[test]
fn detached_head_renders_first_seven_hex_characters() {
    let bytes = vec![
        0xab, 0xcd, 0xef, 0x12, 0x34, 0x56, 0x78, 0x90, 0xab, 0xcd, 0xef, 0x12, 0x34, 0x56, 0x78,
        0x90, 0xab, 0xcd, 0xef, 0x12,
    ];
    let r = head_state_from_parts(false, None, Some(bytes)).unwrap();
    match &r {
        HeadState::Detached(id) => assert_eq!(id, "abcdef1234567890abcdef1234567890abcdef12"),
        _ => panic!("expected a detached state"),
    }
    assert_eq!(r.display(), "DETACHED@abcdef1");
}

#[test]
fn detached_head_without_target_is_a_hard_failure() {
    let r = head_state_from_parts(false, None, None);
    match r {
        Err(e) => assert_eq!(e.msg, "No target OID"),
        Ok(_) => panic!("an unresolvable target must not be a fallback"),
    }
}

#[test]
fn short_identifier_is_truncated_not_a_panic() {
    let st = HeadState::Detached(String::from("abc"));
    assert_eq!(st.display(), "DETACHED@abc");
}

#[test]
fn exit_codes_share_one_for_non_match_and_errors() {
    assert_eq!(exit_code(&Ok(true)), 0);
    assert_eq!(exit_code(&Ok(false)), 1);
    let e = CheckError::Resolution(ResolutionError { msg: String::from("No target OID") });
    assert_eq!(exit_code(&Err(e)), 1);
}

#[test]
fn resolution_error_message_carries_stage_context() {
    let e = CheckError::Resolution(ResolutionError { msg: String::from("No target OID") });
    assert_eq!(e.message(), "Error getting branch name: No target OID");
}
