use screencast::gl::{check_error, GlError, GlExt, GL_INVALID_OPERATION, GL_NO_ERROR};

#[test]
fn no_error_is_ok() {
    assert_eq!(check_error(GL_NO_ERROR), Ok(()));
    assert_eq!(GL_NO_ERROR, 0);
}

#[test]
fn nonzero_codes_are_errors() {
    assert_eq!(
        check_error(GL_INVALID_OPERATION),
        Err(GlError(GL_INVALID_OPERATION))
    );
    assert_eq!(check_error(0x0500), Err(GlError(0x0500)));
    assert_eq!(check_error(7), Err(GlError(7)));
}

#[test]
fn error_messages() {
    assert_eq!(GlError(0).message(), "Ok");
    assert_eq!(GlError(0x0500).message(), "Invalid enum");
    assert_eq!(GlError(0x0501).message(), "Invalid value");
    assert_eq!(GlError(0x0502).message(), "Invalid operation");
    assert_eq!(GlError(0x0503).message(), "Stack overflow");
    assert_eq!(GlError(0x0504).message(), "Stack underflow");
    assert_eq!(GlError(0x0505).message(), "Out of memory");
    assert_eq!(GlError(0x0506).message(), "Invalid framebuffer operation");
    assert_eq!(GlError(12345).message(), "Unrecognized");
}

#[test]
fn interop_capability_record() {
    assert!(GlExt::load(true).can_bind_imported_texture());
    assert!(!GlExt::load(false).can_bind_imported_texture());
}
