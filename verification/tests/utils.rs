use shallow_decl::utils::{add_ns, strip_ns};

#[test]
fn add_ns_test() {
    let test_string = "\\MyTestClass";
    assert_eq!(add_ns(&test_string), "\\MyTestClass");

    let test_string2 = "MyTestClass";
    assert_eq!(add_ns(&test_string2), "\\MyTestClass");

    let test_string3 = "SubNamespace\\MyTestClass";
    assert_eq!(add_ns(&test_string3), "\\SubNamespace\\MyTestClass");

    let test_string4 = "\\SubNamespace\\MyTestClass";
    assert_eq!(add_ns(&test_string4), "\\SubNamespace\\MyTestClass");

    let test_string5 = "";
    assert_eq!(add_ns(&test_string5), "\\");
}

#[test]
fn strip_ns_test() {
    let test_string = "\\MyTestClass";
    assert_eq!(strip_ns(&test_string), "MyTestClass");

    let test_string2 = "MyTestClass";
    assert_eq!(strip_ns(&test_string2), "MyTestClass");

    let test_string3 = "SubNamespace\\MyTestClass";
    assert_eq!(strip_ns(&test_string3), "SubNamespace\\MyTestClass");

    let test_string4 = "\\SubNamespace\\MyTestClass";
    assert_eq!(strip_ns(&test_string4), "SubNamespace\\MyTestClass");

    let test_string5 = "";
    assert_eq!(strip_ns(&test_string5), "");
}
