use mulib::session::Context;

#[test]
fn append_and_prepend_list_names() {
    let mut context = Context::default();
    assert_eq!(context.listing(), "");
    assert_eq!(context.append(String::from("bob")), "bob");
    assert_eq!(context.append(String::from("carol")), "bob, carol");
    assert_eq!(context.prepend(String::from("alice")), "alice, bob, carol");
    assert_eq!(context.listing(), "alice, bob, carol");
}
