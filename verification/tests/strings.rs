use virtual_machine::strings::{choose_str, ret_string};

#[test]
fn ret_string_holds_the_sample_text() {
    let s = ret_string();
    assert_eq!(s, "  A String object  ");
    assert_eq!(s.trim(), "A String object");
}

#[test]
fn choose_str_selects_between_its_arguments() {
    let s1 = "  Hello, world.  ";
    let s2 = "  Hello, world!  ";
    assert_eq!(choose_str(s1, s2, true), s1);
    assert_eq!(choose_str(s1, s2, false), s2);
}
