use kotlin_bindgen::filters::{
    class_name_kt, enum_variant_kt, exception_name_kt, fn_name_kt, type_ffi, var_name_kt,
};
use kotlin_bindgen::interface::FFIType;
use kotlin_bindgen::naming::exception_name;
use kotlin_bindgen::oracle::KotlinLanguageOracle;

#[test]
fn class_names_are_camel_case() {
    assert_eq!(class_name_kt("foo_bar"), "FooBar");
    assert_eq!(class_name_kt("fooBar"), "FooBar");
    assert_eq!(class_name_kt("XMLHttpRequest"), "XmlHttpRequest");
    assert_eq!(class_name_kt("point"), "Point");
}

#[test]
fn function_and_variable_names_are_mixed_case() {
    assert_eq!(fn_name_kt("do_the_thing"), "doTheThing");
    assert_eq!(var_name_kt("DoTheThing"), "doTheThing");
    assert_eq!(var_name_kt("my_value"), "myValue");
}

#[test]
fn enum_variants_are_shouty_snake_case() {
    assert_eq!(enum_variant_kt("fooBar"), "FOO_BAR");
    assert_eq!(enum_variant_kt("red"), "RED");
    assert_eq!(enum_variant_kt("Dark Blue"), "DARK_BLUE");
}

#[test]
fn conventional_names_are_kept() {
    assert_eq!(class_name_kt("FooBar"), "FooBar");
    assert_eq!(class_name_kt(&class_name_kt("foo_bar")), class_name_kt("foo_bar"));
    assert_eq!(fn_name_kt("fooBar"), "fooBar");
    assert_eq!(fn_name_kt(&fn_name_kt("foo_bar")), fn_name_kt("foo_bar"));
    assert_eq!(var_name_kt("fooBar"), "fooBar");
    assert_eq!(var_name_kt(&var_name_kt("Foo Bar")), var_name_kt("Foo Bar"));
    assert_eq!(enum_variant_kt("FOO_BAR"), "FOO_BAR");
    assert_eq!(enum_variant_kt(&enum_variant_kt("fooBar")), enum_variant_kt("fooBar"));
}

#[test]
fn oracle_methods_match_the_filters() {
    let oracle = KotlinLanguageOracle::default();
    assert_eq!(oracle.class_name("foo_bar"), class_name_kt("foo_bar"));
    assert_eq!(oracle.fn_name("foo_bar"), fn_name_kt("foo_bar"));
    assert_eq!(oracle.var_name("foo_bar"), var_name_kt("foo_bar"));
    assert_eq!(oracle.enum_variant("foo_bar"), enum_variant_kt("foo_bar"));
    assert_eq!(oracle.exception_name("FooError"), exception_name_kt("FooError"));
}

#[test]
fn exception_name_replaces_a_trailing_error() {
    assert_eq!(exception_name_kt("FooError"), "FooException");
    assert_eq!(exception_name("FooError"), "FooException");
}

#[test]
fn exception_name_keeps_other_names() {
    assert_eq!(exception_name_kt("Foo"), "Foo");
    assert_eq!(exception_name_kt("ErrorFoo"), "ErrorFoo");
    assert_eq!(exception_name_kt("FooErrors"), "FooErrors");
    assert_eq!(exception_name_kt("Fooerror"), "Fooerror");
    assert_eq!(exception_name_kt("rror"), "rror");
    assert_eq!(exception_name_kt(""), "");
}

#[test]
fn exception_name_edge_cases() {
    assert_eq!(exception_name_kt("Error"), "Exception");
    assert_eq!(exception_name_kt("ErrorError"), "ErrorException");
    assert_eq!(exception_name_kt("Über\u{e9}Error"), "Über\u{e9}Exception");
    assert_eq!(exception_name_kt("Äx"), "Äx");
}

#[test]
fn exception_name_twice_is_exception_name_once() {
    for name in ["FooError", "Foo", "Error", "ErrorError", "FooException", ""] {
        let once = exception_name_kt(name);
        assert_eq!(exception_name_kt(&once), once);
    }
}

#[test]
fn unsigned_scalars_have_the_signed_label() {
    assert_eq!(type_ffi(&FFIType::UInt8), "Byte");
    assert_eq!(type_ffi(&FFIType::Int8), "Byte");
    assert_eq!(type_ffi(&FFIType::UInt16), "Short");
    assert_eq!(type_ffi(&FFIType::Int16), "Short");
    assert_eq!(type_ffi(&FFIType::UInt32), "Int");
    assert_eq!(type_ffi(&FFIType::Int32), "Int");
    assert_eq!(type_ffi(&FFIType::UInt64), "Long");
    assert_eq!(type_ffi(&FFIType::Int64), "Long");
}

#[test]
fn other_scalars_have_their_labels() {
    let oracle = KotlinLanguageOracle;
    assert_eq!(oracle.ffi_type_label(&FFIType::Float32), "Float");
    assert_eq!(oracle.ffi_type_label(&FFIType::Float64), "Double");
    assert_eq!(oracle.ffi_type_label(&FFIType::RustArcPtr), "Pointer");
    assert_eq!(oracle.ffi_type_label(&FFIType::RustBuffer), "RustBuffer.ByValue");
    assert_eq!(oracle.ffi_type_label(&FFIType::ForeignBytes), "ForeignBytes.ByValue");
    assert_eq!(oracle.ffi_type_label(&FFIType::ForeignCallback), "ForeignCallback");
}

#[test]
fn oracle_reports_concurrency_primitives() {
    let oracle = KotlinLanguageOracle;
    assert_eq!(oracle.atomic_counter_class(), "java.util.concurrent.atomic.AtomicLong");
    assert_eq!(oracle.atomic_flag_class(), "java.util.concurrent.atomic.AtomicBoolean");
    assert_eq!(oracle.lock_class(), "java.util.concurrent.locks.ReentrantLock");
    assert_eq!(oracle.lock_scope_function(), "kotlin.concurrent.withLock");
}
