use pop_cli::vcs::{VcsError, VcsErrorClass, VcsErrorCode};

#[test]
fn test_identity_missing_classification() {
    let e = VcsError { class: VcsErrorClass::Config, code: VcsErrorCode::NotFound };
    assert!(e.is_identity_missing());
}

#[test]
fn test_other_failures_not_identity_missing() {
    let cases = [
        VcsError { class: VcsErrorClass::Config, code: VcsErrorCode::Other },
        VcsError { class: VcsErrorClass::Other, code: VcsErrorCode::NotFound },
        VcsError { class: VcsErrorClass::Other, code: VcsErrorCode::Other },
    ];
    for e in cases {
        assert!(!e.is_identity_missing());
    }
}
