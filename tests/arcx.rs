use rmod::arcx::ArcX;

#[test]
fn test_arcx_new_get() {
    let a = ArcX::new(10);
    assert_eq!(a.get(), 10);
}

#[test]
fn test_arcx_set() {
    let a = ArcX::new(10);
    a.set(20);
    assert_eq!(a.get(), 20);
}

#[test]
fn test_arcx_lock() {
    let a = ArcX::new(10);
    {
        let mut lock = a.lock();
        *lock += 5;
    }
    assert_eq!(a.get(), 15);
}

#[test]
fn test_arcx_clone() {
    let a = ArcX::new(10);
    let b = a.clone();
    a.set(20);
    assert_eq!(b.get(), 20);
}

#[test]
fn test_arcx_debug() {
    let a = ArcX::new(10);
    assert_eq!(a.debug_string(), "ArcX(10)");
}

#[test]
fn test_arcx_macro() {
    let a = ArcX::new(10);
    assert_eq!(a.get(), 10);
}
