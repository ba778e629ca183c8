use kotlin_bindgen::callback_interface::{CallbackInterfaceCodeType, KotlinCallbackInterface};
use kotlin_bindgen::code_type::CodeType;
use kotlin_bindgen::enum_::EnumCodeType;
use kotlin_bindgen::fallback::FallbackCodeType;
use kotlin_bindgen::filters::{definition_code, lift_kt, lower_kt, read_kt, type_kt, write_kt};
use kotlin_bindgen::interface::{CallbackInterface, Literal, Object, Primitive, Radix, Type};
use kotlin_bindgen::labels::{canonical_name, type_label};
use kotlin_bindgen::object::{KotlinObject, ObjectCodeType};
use kotlin_bindgen::oracle::KotlinLanguageOracle;

fn string() -> Type {
    Type::Primitive(Primitive::String)
}

fn optional(inner: Type) -> Type {
    Type::Optional(Box::new(inner))
}

fn sequence(inner: Type) -> Type {
    Type::Sequence(Box::new(inner))
}

fn mapping(key: Type, value: Type) -> Type {
    Type::Mapping(Box::new(key), Box::new(value))
}

#[test]
fn find_gives_each_kind_its_strategy() {
    let oracle = KotlinLanguageOracle;
    assert!(matches!(oracle.find(&Type::Enum("color".into())), CodeType::Enum(_)));
    assert!(matches!(oracle.find(&Type::Object("thing".into())), CodeType::Object(_)));
    assert!(matches!(
        oracle.find(&Type::CallbackInterface("listener".into())),
        CodeType::CallbackInterface(_)
    ));
    assert!(matches!(oracle.find(&Type::Record("point".into())), CodeType::Fallback(_)));
    assert!(matches!(oracle.find(&string()), CodeType::Fallback(_)));
    assert!(matches!(oracle.find(&optional(string())), CodeType::Fallback(_)));
    assert!(matches!(oracle.find(&sequence(string())), CodeType::Fallback(_)));
    assert!(matches!(oracle.find(&mapping(string(), string())), CodeType::Fallback(_)));
    assert!(matches!(
        oracle.find(&Type::External { name: "other".into(), crate_name: "dep".into() }),
        CodeType::Fallback(_)
    ));
    assert!(matches!(
        oracle.create_code_type(Type::Object("thing".into())),
        CodeType::Object(_)
    ));
}

#[test]
fn repeated_lookups_render_the_same() {
    let oracle = KotlinLanguageOracle;
    let types = vec![
        Type::Enum("color".into()),
        Type::Object("thing".into()),
        Type::CallbackInterface("listener".into()),
        Type::Record("point".into()),
        optional(sequence(Type::Primitive(Primitive::UInt16))),
    ];
    for t in types.iter() {
        let first = oracle.find(t);
        let second = oracle.find(&t.clone());
        assert_eq!(first.type_label(&oracle), second.type_label(&oracle));
        assert_eq!(first.canonical_name(&oracle), second.canonical_name(&oracle));
        assert_eq!(first.lower(&oracle, "a_b"), second.lower(&oracle, "a_b"));
        assert_eq!(first.write(&oracle, "a_b", "buf"), second.write(&oracle, "a_b", "buf"));
        assert_eq!(first.lift(&oracle, "x"), second.lift(&oracle, "x"));
        assert_eq!(first.read(&oracle, "buf"), second.read(&oracle, "buf"));
        assert_eq!(first.helper_code(&oracle), second.helper_code(&oracle));
        assert_eq!(first.import_code(&oracle), second.import_code(&oracle));
    }
}

#[test]
fn a_cloned_type_equals_its_source() {
    let t = mapping(
        optional(Type::Record("point".into())),
        sequence(Type::External { name: "other".into(), crate_name: "dep".into() }),
    );
    assert_eq!(t.clone(), t);
}

#[test]
fn object_strategy_texts() {
    let oracle = KotlinLanguageOracle;
    let object = ObjectCodeType::new("my_thing".to_string());
    assert_eq!(object.type_label(&oracle), "MyThing");
    assert_eq!(object.canonical_name(&oracle), "ObjectMyThing");
    assert_eq!(object.lower(&oracle, "the_thing"), "theThing.lower()");
    assert_eq!(object.write(&oracle, "the_thing", "buf"), "theThing.write(buf)");
    assert_eq!(object.lift(&oracle, "ptr"), "MyThing.lift(ptr)");
    assert_eq!(object.read(&oracle, "buf"), "MyThing.read(buf)");
    assert_eq!(
        object.helper_code(&oracle),
        Some("// Helper code for MyThing class is found in ObjectTemplate.kt".to_string())
    );
    assert_eq!(
        object.import_code(&oracle),
        Some(vec![
            "java.util.concurrent.atomic.AtomicLong".to_string(),
            "java.util.concurrent.atomic.AtomicBoolean".to_string(),
        ])
    );
}

#[test]
fn callback_interface_strategy_texts() {
    let oracle = KotlinLanguageOracle;
    let callback = CallbackInterfaceCodeType::new("on_event".to_string());
    assert_eq!(callback.type_label(&oracle), "OnEvent");
    assert_eq!(callback.canonical_name(&oracle), "CallbackInterfaceOnEvent");
    assert_eq!(callback.internals(&oracle), "CallbackInterfaceOnEventInternals");
    assert_eq!(
        callback.lower(&oracle, "the_cb"),
        "CallbackInterfaceOnEventInternals.lower(theCb)"
    );
    assert_eq!(
        callback.write(&oracle, "the_cb", "buf"),
        "CallbackInterfaceOnEventInternals.write(theCb, buf)"
    );
    assert_eq!(
        callback.lift(&oracle, "handle"),
        "CallbackInterfaceOnEventInternals.lift(OnEvent, handle)"
    );
    assert_eq!(
        callback.read(&oracle, "buf"),
        "CallbackInterfaceOnEventInternals.read(OnEvent, buf)"
    );
    assert_eq!(
        callback.helper_code(&oracle),
        Some(
            "// Helper code for OnEvent callback interface is found in CallbackInterfaceTemplate.kt"
                .to_string()
        )
    );
    assert_eq!(callback.import_code(&oracle), None);
}

#[test]
fn enum_strategy_texts() {
    let oracle = KotlinLanguageOracle;
    let color = EnumCodeType::new("paint_color".to_string());
    assert_eq!(color.type_label(&oracle), "PaintColor");
    assert_eq!(color.canonical_name(&oracle), "EnumPaintColor");
    assert_eq!(color.lower(&oracle, "the_color"), "theColor.lower()");
    assert_eq!(color.write(&oracle, "the_color", "buf"), "theColor.write(buf)");
    assert_eq!(color.lift(&oracle, "v"), "PaintColor.lift(v)");
    assert_eq!(color.read(&oracle, "buf"), "PaintColor.read(buf)");
    assert_eq!(
        color.helper_code(&oracle),
        Some("// Helper code for PaintColor enum is found in EnumTemplate.kt".to_string())
    );
    assert_eq!(color.import_code(&oracle), None);
    let literal = Literal::Enum("dark_red".to_string(), Type::Enum("paint_color".to_string()));
    assert_eq!(color.literal(&oracle, &literal), "PaintColor.DARK_RED");
}

#[test]
fn fallback_strategy_for_plain_types() {
    let oracle = KotlinLanguageOracle;
    let int = FallbackCodeType::new(Type::Primitive(Primitive::Int32));
    assert_eq!(int.type_label(&oracle), "Int");
    assert_eq!(int.canonical_name(&oracle), "Int32");
    assert_eq!(int.lower(&oracle, "my_value"), "myValue.lower()");
    assert_eq!(int.write(&oracle, "my_value", "buf"), "myValue.write(buf)");
    assert_eq!(int.lift(&oracle, "x"), "Int.lift(x)");
    assert_eq!(int.read(&oracle, "buf"), "Int.read(buf)");
    assert_eq!(int.helper_code(&oracle), None);
    assert_eq!(int.import_code(&oracle), None);

    let record = FallbackCodeType::new(Type::Record("geo_point".into()));
    assert_eq!(record.type_label(&oracle), "GeoPoint");
    assert_eq!(record.canonical_name(&oracle), "RecordGeoPoint");
    assert_eq!(record.lift(&oracle, "x"), "GeoPoint.lift(x)");
    assert_eq!(record.read(&oracle, "buf"), "GeoPoint.read(buf)");
}

#[test]
fn fallback_strategy_for_compound_types() {
    let oracle = KotlinLanguageOracle;
    let t = FallbackCodeType::new(optional(string()));
    assert_eq!(t.type_label(&oracle), "String?");
    assert_eq!(t.canonical_name(&oracle), "OptionalString");
    assert_eq!(t.lower(&oracle, "my_value"), "lowerOptionalString(myValue)");
    assert_eq!(t.write(&oracle, "my_value", "buf"), "writeOptionalString(myValue, buf)");
    assert_eq!(t.lift(&oracle, "x"), "liftOptionalString(x)");
    assert_eq!(t.read(&oracle, "buf"), "readOptionalString(buf)");

    let t = FallbackCodeType::new(sequence(Type::Object("my_thing".into())));
    assert_eq!(t.lower(&oracle, "things"), "lowerSequenceObjectMyThing(things)");
    assert_eq!(t.lift(&oracle, "x"), "liftSequenceObjectMyThing(x)");

    let t = FallbackCodeType::new(mapping(string(), Type::Primitive(Primitive::UInt8)));
    assert_eq!(t.write(&oracle, "m", "buf"), "writeMapStringUInt8(m, buf)");
    assert_eq!(t.read(&oracle, "buf"), "readMapStringUInt8(buf)");
}

#[test]
fn lowering_and_lifting_use_the_same_helper() {
    let types = vec![
        optional(string()),
        sequence(optional(Type::Enum("color".into()))),
        mapping(string(), sequence(Type::Record("point".into()))),
    ];
    let oracle = KotlinLanguageOracle;
    for t in types.iter() {
        let name = canonical_name(t, &oracle);
        assert_eq!(lower_kt("v", t), format!("lower{}(v)", name));
        assert_eq!(lift_kt("v", t), format!("lift{}(v)", name));
        assert_eq!(write_kt("v", "buf", t), format!("write{}(v, buf)", name));
        assert_eq!(read_kt("buf", t), format!("read{}(buf)", name));
    }
}

#[test]
fn labels_of_primitives() {
    let expected = [
        (Primitive::UInt8, "UByte", "UInt8"),
        (Primitive::Int8, "Byte", "Int8"),
        (Primitive::UInt16, "UShort", "UInt16"),
        (Primitive::Int16, "Short", "Int16"),
        (Primitive::UInt32, "UInt", "UInt32"),
        (Primitive::Int32, "Int", "Int32"),
        (Primitive::UInt64, "ULong", "UInt64"),
        (Primitive::Int64, "Long", "Int64"),
        (Primitive::Float32, "Float", "Float32"),
        (Primitive::Float64, "Double", "Float64"),
        (Primitive::Boolean, "Boolean", "Boolean"),
        (Primitive::String, "String", "String"),
        (Primitive::Timestamp, "java.time.Instant", "Timestamp"),
        (Primitive::Duration, "java.time.Duration", "Duration"),
    ];
    let oracle = KotlinLanguageOracle;
    for (primitive, label, canonical) in expected {
        assert_eq!(type_kt(&Type::Primitive(primitive)), label);
        assert_eq!(canonical_name(&Type::Primitive(primitive), &oracle), canonical);
    }
}

#[test]
fn labels_of_nested_types() {
    let oracle = KotlinLanguageOracle;
    assert_eq!(type_kt(&optional(sequence(string()))), "List<String>?");
    assert_eq!(
        type_kt(&mapping(string(), Type::Primitive(Primitive::UInt32))),
        "Map<String, UInt>"
    );
    assert_eq!(type_kt(&sequence(optional(Type::Object("my_thing".into())))), "List<MyThing?>");
    assert_eq!(type_kt(&Type::Enum("paint_color".into())), "PaintColor");
    assert_eq!(type_kt(&Type::CallbackInterface("on_event".into())), "OnEvent");
    assert_eq!(
        type_kt(&Type::External { name: "their_type".into(), crate_name: "dep".into() }),
        "TheirType"
    );
    assert_eq!(
        canonical_name(&mapping(Type::Enum("color".into()), optional(string())), &oracle),
        "MapEnumColorOptionalString"
    );
    assert_eq!(
        canonical_name(
            &Type::External { name: "their_type".into(), crate_name: "dep".into() },
            &oracle
        ),
        "ExternalTheirType"
    );
    assert_eq!(type_label(&Type::Record("geo_point".into()), &oracle), "GeoPoint");
}

#[test]
fn strategy_names_agree_with_labels() {
    let oracle = KotlinLanguageOracle;
    let types = vec![
        Type::Enum("color".into()),
        Type::Object("thing".into()),
        Type::CallbackInterface("listener".into()),
        Type::Record("point".into()),
        optional(Type::Object("thing".into())),
    ];
    for t in types.iter() {
        assert_eq!(oracle.find(t).type_label(&oracle), type_label(t, &oracle));
        assert_eq!(oracle.find(t).canonical_name(&oracle), canonical_name(t, &oracle));
    }
}

#[test]
fn filters_delegate_to_the_strategy() {
    let object = Type::Object("my_thing".into());
    assert_eq!(lower_kt("the_thing", &object), "theThing.lower()");
    assert_eq!(write_kt("the_thing", "buf", &object), "theThing.write(buf)");
    assert_eq!(lift_kt("ptr", &object), "MyThing.lift(ptr)");
    assert_eq!(read_kt("buf", &object), "MyThing.read(buf)");
    assert_eq!(
        definition_code(&object),
        Some("// Helper code for MyThing class is found in ObjectTemplate.kt".to_string())
    );

    let callback = Type::CallbackInterface("on_event".into());
    assert_eq!(lower_kt("cb", &callback), "CallbackInterfaceOnEventInternals.lower(cb)");
    assert_eq!(lift_kt("h", &callback), "CallbackInterfaceOnEventInternals.lift(OnEvent, h)");
    assert_eq!(definition_code(&string()), None);
}

#[test]
fn lift_and_read_keep_the_name_as_given() {
    let object = Type::Object("my_thing".into());
    assert_eq!(lift_kt("some_name", &object), "MyThing.lift(some_name)");
    assert_eq!(read_kt("some_buf", &object), "MyThing.read(some_buf)");
    assert_eq!(write_kt("v", "some_buf", &object), "v.write(some_buf)");
}

#[test]
fn object_declaration() {
    let oracle = KotlinLanguageOracle;
    let inner = Object::new(
        "my_thing".to_string(),
        vec![string(), optional(Type::Primitive(Primitive::UInt32)), Type::Object("other".into())],
    );
    assert!(inner.contains_unsigned_types());
    let declaration = KotlinObject::new(inner);
    assert!(declaration.contains_unsigned_types());
    assert_eq!(declaration.inner().name(), "my_thing");
    assert_eq!(declaration.inner().types().len(), 3);
    assert_eq!(declaration.type_identifier(), Type::Object("my_thing".to_string()));
    assert_eq!(
        declaration.imports(&oracle),
        vec![
            "java.util.concurrent.atomic.AtomicLong".to_string(),
            "java.util.concurrent.atomic.AtomicBoolean".to_string(),
            "java.util.concurrent.atomic.AtomicLong".to_string(),
            "java.util.concurrent.atomic.AtomicBoolean".to_string(),
        ]
    );

    let plain = KotlinObject::new(Object::new("plain".to_string(), vec![string()]));
    assert!(!plain.contains_unsigned_types());
    let copy = plain.inner().clone();
    assert_eq!(copy.name(), "plain");
    assert_eq!(copy.types(), plain.inner().types());
}

#[test]
fn callback_interface_declaration() {
    let oracle = KotlinLanguageOracle;
    let inner = CallbackInterface::new(
        "on_event".to_string(),
        vec![Type::Primitive(Primitive::Int64), sequence(string())],
    );
    assert!(!inner.contains_unsigned_types());
    let declaration = KotlinCallbackInterface::new(inner);
    assert!(!declaration.contains_unsigned_types());
    assert_eq!(declaration.inner().name(), "on_event");
    assert_eq!(
        declaration.type_identifier(),
        Type::CallbackInterface("on_event".to_string())
    );
    assert_eq!(
        declaration.initialization_code(&oracle),
        Some("CallbackInterfaceOnEventInternals.register(lib)".to_string())
    );
    assert_eq!(
        declaration.import_code(&oracle),
        Some(vec![
            "java.util.concurrent.locks.ReentrantLock".to_string(),
            "kotlin.concurrent.withLock".to_string(),
        ])
    );
    assert_eq!(
        declaration.imports(&oracle),
        vec![
            "java.util.concurrent.locks.ReentrantLock".to_string(),
            "kotlin.concurrent.withLock".to_string(),
        ]
    );

    let unsigned = KotlinCallbackInterface::new(CallbackInterface::new(
        "cb".to_string(),
        vec![mapping(string(), Type::Primitive(Primitive::UInt64))],
    ));
    assert!(unsigned.contains_unsigned_types());
    let copy = unsigned.inner().clone();
    assert_eq!(copy.name(), "cb");
}

#[test]
fn unsigned_types_are_found_inside_compound_types() {
    assert!(Type::Primitive(Primitive::UInt8).contains_unsigned_types());
    assert!(!Type::Primitive(Primitive::Int8).contains_unsigned_types());
    assert!(optional(sequence(Type::Primitive(Primitive::UInt16))).contains_unsigned_types());
    assert!(mapping(Type::Primitive(Primitive::UInt32), string()).contains_unsigned_types());
    assert!(!mapping(string(), Type::Record("has_unsigned".into())).contains_unsigned_types());
    assert!(!Type::Object("thing".into()).contains_unsigned_types());
    assert!(Primitive::UInt64.unsigned());
    assert!(!Primitive::Float64.unsigned());
}

#[test]
fn only_some_strategies_render_literals() {
    let oracle = KotlinLanguageOracle;
    let variant = Literal::Enum("red".to_string(), Type::Enum("color".to_string()));
    let number = Literal::Int(1, Radix::Decimal, Type::Primitive(Primitive::Int32));
    assert!(oracle.find(&Type::Enum("color".into())).can_render(&variant));
    assert!(!oracle.find(&Type::Enum("color".into())).can_render(&number));
    assert!(!oracle.find(&Type::Object("thing".into())).can_render(&variant));
    assert!(!oracle.find(&Type::CallbackInterface("cb".into())).can_render(&Literal::Null));
    assert!(oracle.find(&Type::Primitive(Primitive::Int32)).can_render(&number));
    assert!(oracle.find(&optional(string())).can_render(&Literal::Null));
    assert_eq!(
        oracle.find(&Type::Primitive(Primitive::Int32)).literal(&oracle, &number),
        "1"
    );
    assert_eq!(
        oracle.find(&Type::Enum("color".into())).literal(&oracle, &variant),
        "Color.RED"
    );
}
