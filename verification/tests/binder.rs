use tauri_plugin_screenshot_hd::binder::SurfaceBinder;

#[test]
fn binder_starts_unbound() {
    let binder: SurfaceBinder<u32> = SurfaceBinder::new();
    assert!(!binder.is_bound());
    assert_eq!(binder.handle(), None);
}

#[test]
fn binder_holds_nothing_after_a_lookup_that_found_nothing() {
    let mut binder: SurfaceBinder<u32> = SurfaceBinder::new();
    assert!(!binder.offer(None));
    assert!(!binder.offer(None));
    assert!(!binder.is_bound());
    assert_eq!(binder.handle(), None);
}

#[test]
fn binder_keeps_what_a_lookup_found() {
    let mut binder = SurfaceBinder::new();
    assert!(!binder.offer(None));
    assert!(binder.offer(Some(7)));
    assert!(binder.is_bound());
    assert_eq!(binder.handle(), Some(&7));
}

#[test]
fn binder_never_swaps_the_handle() {
    let mut binder = SurfaceBinder::new();
    assert!(binder.offer(Some("first".to_string())));
    assert!(binder.offer(Some("second".to_string())));
    assert_eq!(binder.handle(), Some(&"first".to_string()));
    assert!(binder.offer(None));
    assert_eq!(binder.handle(), Some(&"first".to_string()));
}
