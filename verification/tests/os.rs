use nx::identity::ThreadIdentity;
use nx::os::{get_current_process_handle, get_current_thread_handle, is_nro};

#[test]
fn pseudo_handles() {
    assert_eq!(get_current_thread_handle(), 0xffff_8000);
    assert_eq!(get_current_process_handle(), 0xffff_8001);
    assert!(ThreadIdentity::new(get_current_thread_handle()).is_some());
}

#[test]
fn nro_is_what_is_not_nso() {
    assert!(is_nro(false));
    assert!(!is_nro(true));
}
