use filedialog::context::Context;

#[test]
fn context_keeps_its_handle() {
    let context = Context::new(0x1000);
    assert_eq!(context.handle(), 0x1000);
    assert_eq!(context.into_handle(), 0x1000);
}

#[test]
fn largest_handle_is_kept() {
    let context = Context::new(usize::MAX);
    assert_eq!(context.handle(), usize::MAX);
}
