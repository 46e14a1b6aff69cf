use rustyscript::traits::{module_specifier_from, ToModuleSpecifier};
use rustyscript::Error;

#[test]
fn relative_path_is_taken_from_the_base() {
    let url = "test.js".to_module_specifier("/home/user").unwrap();
    assert_eq!(url.as_str(), "file:///home/user/test.js");
    let url = "lib/mod.ts".to_module_specifier("/srv").unwrap();
    assert_eq!(url.as_str(), "file:///srv/lib/mod.ts");
}

#[test]
fn absolute_path_stands_for_itself() {
    let url = "/opt/app/main.js".to_module_specifier("/home/user").unwrap();
    assert_eq!(url.as_str(), "file:///opt/app/main.js");
}

#[test]
fn dots_are_normalized_away() {
    let url = "./a/../b/./c.js".to_module_specifier("/x/y").unwrap();
    assert_eq!(url.as_str(), "file:///x/y/b/c.js");
    let url = "../up.js".to_module_specifier("/x/y").unwrap();
    assert_eq!(url.as_str(), "file:///x/up.js");
    // the joined path differs from what comes back
    assert_ne!(url.as_str(), "file:///x/y/../up.js");
}

#[test]
fn special_characters_are_encoded() {
    let url = "a file.js".to_module_specifier("/dir").unwrap();
    assert_eq!(url.as_str(), "file:///dir/a%20file.js");
}

#[test]
fn path_without_an_absolute_base_is_a_module_not_found() {
    match "test.js".to_module_specifier("relative/base") {
        Err(Error::ModuleNotFound(message)) => {
            assert!(message.contains("relative/base"));
            assert!(message.contains("test.js"));
        }
        other => panic!("expected a module that is not found, got {other:?}"),
    }
    assert!(matches!("".to_module_specifier(""), Err(Error::ModuleNotFound(_))));
}

#[test]
fn specifier_from_the_outcome_of_the_conversion() {
    let url = "/a.js".to_module_specifier("/").unwrap();
    assert_eq!(module_specifier_from(Ok(url.clone())), Ok(url));
    assert_eq!(
        module_specifier_from(Err("no such path".to_string())),
        Err(Error::ModuleNotFound("no such path".to_string()))
    );
    assert_eq!(module_specifier_from(Err(String::new())), Err(Error::ModuleNotFound(String::new())));
}
