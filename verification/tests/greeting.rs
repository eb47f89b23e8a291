use greeter::greeting::{greeting_for, make_greeting, resolve_name};

#[test]
fn it_works() {
    assert_eq!(2 + 2, 4);
}

#[test]
fn it_makes_greeting() {
    let greeting = &make_greeting("world");

    assert_eq!(greeting, "Hello world!");
}

#[test]
fn greeting_of_empty_name() {
    assert_eq!(make_greeting(""), "Hello !");
}

#[test]
fn greeting_concatenates_parts() {
    let name = "Ada Lovelace";
    let expected = format!("Hello {}!", name);
    assert_eq!(make_greeting(name), expected);
}

#[test]
fn resolve_keeps_present_name() {
    assert_eq!(resolve_name(Some(String::from("Ada"))), "Ada");
}

#[test]
fn resolve_substitutes_default() {
    assert_eq!(resolve_name(None), "stranger");
}

#[test]
fn greeting_for_present_name() {
    assert_eq!(greeting_for(Some(String::from("Ada"))), "Hello Ada!");
}

#[test]
fn greeting_for_absent_name() {
    assert_eq!(greeting_for(None), "Hello stranger!");
}
