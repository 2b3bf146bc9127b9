use actix_governor::method::clone_methods;
use actix_governor::method::contains_method;
use actix_governor::method::method_applies;
use actix_governor::method::same_methods;
use actix_governor::method::Method;

#[test]
fn method_is_the_same_as_itself_only() {
    let all = [
        Method::Options,
        Method::Get,
        Method::Post,
        Method::Put,
        Method::Delete,
        Method::Head,
        Method::Trace,
        Method::Connect,
        Method::Patch,
        Method::Extension(String::from("PURGE")),
        Method::Extension(String::from("LINK")),
    ];
    for (i, a) in all.iter().enumerate() {
        for (j, b) in all.iter().enumerate() {
            assert_eq!(a.same(b), i == j);
            assert_eq!(a == b, i == j);
        }
        assert!(a.same(&a.clone()));
    }
}

#[test]
fn list_holds_its_methods() {
    let list = vec![Method::Get, Method::Extension(String::from("PURGE"))];
    assert!(contains_method(&list, &Method::Get));
    assert!(contains_method(&list, &Method::Extension(String::from("PURGE"))));
    assert!(!contains_method(&list, &Method::Extension(String::from("purge"))));
    assert!(!contains_method(&list, &Method::Post));
    assert!(!contains_method(&Vec::new(), &Method::Get));
}

#[test]
fn no_list_applies_to_every_method() {
    assert!(method_applies(&None, &Method::Post));
    assert!(method_applies(&None, &Method::Extension(String::from("X"))));
}

#[test]
fn list_applies_to_its_methods_only() {
    let methods = Some(vec![Method::Get]);
    assert!(method_applies(&methods, &Method::Get));
    assert!(!method_applies(&methods, &Method::Post));
    assert!(!method_applies(&Some(Vec::new()), &Method::Get));
}

#[test]
fn copy_of_a_list_is_the_same_list() {
    let methods = Some(vec![Method::Get, Method::Extension(String::from("PURGE")), Method::Get]);
    let copy = clone_methods(&methods);
    assert_eq!(copy, methods);
    assert!(same_methods(&copy, &methods));
    assert_eq!(clone_methods(&None), None);
}

#[test]
fn lists_are_the_same_where_order_and_length_are() {
    let a = Some(vec![Method::Get, Method::Post]);
    assert!(same_methods(&a, &Some(vec![Method::Get, Method::Post])));
    assert!(!same_methods(&a, &Some(vec![Method::Post, Method::Get])));
    assert!(!same_methods(&a, &Some(vec![Method::Get])));
    assert!(!same_methods(&a, &None));
    assert!(!same_methods(&None, &Some(Vec::new())));
    assert!(same_methods(&None, &None));
    assert!(same_methods(&Some(Vec::new()), &Some(Vec::new())));
}
