use kotlin_bindgen::filters::literal_kt;
use kotlin_bindgen::interface::{Literal, Primitive, Radix, Type};
use kotlin_bindgen::literal::{signed_number, typed_number, unsigned_number};
use kotlin_bindgen::text::{
    apply1, apply2, call0, call1, call2, concat2, concat3, render_signed_decimal,
    render_signed_hex, render_unsigned_decimal, render_unsigned_hex,
};

fn prim(p: Primitive) -> Type {
    Type::Primitive(p)
}

#[test]
fn untyped_literals() {
    assert_eq!(literal_kt(&Literal::Boolean(true)), "true");
    assert_eq!(literal_kt(&Literal::Boolean(false)), "false");
    assert_eq!(literal_kt(&Literal::String("hi there".to_string())), "\"hi there\"");
    assert_eq!(literal_kt(&Literal::String(String::new())), "\"\"");
    assert_eq!(literal_kt(&Literal::Null), "null");
    assert_eq!(literal_kt(&Literal::EmptySequence), "listOf()");
    assert_eq!(literal_kt(&Literal::EmptyMap), "mapOf()");
}

#[test]
fn signed_integer_literals() {
    assert_eq!(literal_kt(&Literal::Int(-5, Radix::Decimal, prim(Primitive::Int64))), "-5L");
    assert_eq!(literal_kt(&Literal::Int(0, Radix::Decimal, prim(Primitive::Int8))), "0");
    assert_eq!(literal_kt(&Literal::Int(127, Radix::Decimal, prim(Primitive::Int8))), "127");
    assert_eq!(literal_kt(&Literal::Int(-300, Radix::Decimal, prim(Primitive::Int16))), "-300");
    assert_eq!(literal_kt(&Literal::Int(42, Radix::Decimal, prim(Primitive::Int32))), "42");
    assert_eq!(
        literal_kt(&Literal::Int(i64::MIN, Radix::Decimal, prim(Primitive::Int64))),
        "-9223372036854775808L"
    );
    assert_eq!(
        literal_kt(&Literal::Int(i64::MAX, Radix::Decimal, prim(Primitive::Int64))),
        "9223372036854775807L"
    );
    assert_eq!(literal_kt(&Literal::Int(255, Radix::Hexadecimal, prim(Primitive::Int32))), "0xff");
    assert_eq!(literal_kt(&Literal::Int(8, Radix::Octal, prim(Primitive::Int32))), "0x8");
    assert_eq!(
        literal_kt(&Literal::Int(-1, Radix::Hexadecimal, prim(Primitive::Int64))),
        "0xffffffffffffffffL"
    );
}

#[test]
fn unsigned_integer_literals() {
    assert_eq!(literal_kt(&Literal::UInt(255, Radix::Hexadecimal, prim(Primitive::UInt8))), "0xffu");
    assert_eq!(literal_kt(&Literal::UInt(7, Radix::Decimal, prim(Primitive::UInt16))), "7u");
    assert_eq!(literal_kt(&Literal::UInt(70000, Radix::Decimal, prim(Primitive::UInt32))), "70000u");
    assert_eq!(
        literal_kt(&Literal::UInt(u64::MAX, Radix::Decimal, prim(Primitive::UInt64))),
        "18446744073709551615uL"
    );
    assert_eq!(literal_kt(&Literal::UInt(0, Radix::Octal, prim(Primitive::UInt64))), "0x0uL");
    assert_eq!(literal_kt(&Literal::UInt(3, Radix::Decimal, prim(Primitive::Int32))), "3");
    assert_eq!(literal_kt(&Literal::UInt(3, Radix::Decimal, prim(Primitive::Float32))), "3f");
}

#[test]
fn float_literals() {
    assert_eq!(literal_kt(&Literal::Float("1.5".to_string(), prim(Primitive::Float32))), "1.5f");
    assert_eq!(literal_kt(&Literal::Float("1.5".to_string(), prim(Primitive::Float64))), "1.5");
    assert_eq!(literal_kt(&Literal::Float("-2e10".to_string(), prim(Primitive::Float64))), "-2e10");
}

#[test]
fn enum_literals() {
    let literal = Literal::Enum("dark_red".to_string(), Type::Enum("paint_color".to_string()));
    assert_eq!(literal_kt(&literal), "PaintColor.DARK_RED");
}

#[test]
fn well_typed_literals_are_recognised() {
    assert!(Literal::Null.is_well_typed());
    assert!(Literal::Boolean(true).is_well_typed());
    assert!(Literal::String("x".into()).is_well_typed());
    assert!(Literal::EmptySequence.is_well_typed());
    assert!(Literal::EmptyMap.is_well_typed());
    assert!(Literal::Int(1, Radix::Decimal, prim(Primitive::Int8)).is_well_typed());
    assert!(Literal::UInt(1, Radix::Decimal, prim(Primitive::Float64)).is_well_typed());
    assert!(Literal::Float("1".into(), prim(Primitive::Float32)).is_well_typed());
    assert!(Literal::Enum("a".into(), Type::Enum("e".into())).is_well_typed());

    assert!(!Literal::Int(1, Radix::Decimal, prim(Primitive::String)).is_well_typed());
    assert!(!Literal::Int(1, Radix::Decimal, prim(Primitive::Boolean)).is_well_typed());
    assert!(!Literal::UInt(1, Radix::Decimal, prim(Primitive::Timestamp)).is_well_typed());
    assert!(!Literal::Float("1".into(), prim(Primitive::Duration)).is_well_typed());
    assert!(!Literal::Int(1, Radix::Decimal, Type::Object("o".into())).is_well_typed());
    assert!(!Literal::Float("1".into(), Type::Record("r".into())).is_well_typed());
    assert!(!Literal::Enum("a".into(), Type::Object("o".into())).is_well_typed());
    assert!(!Literal::Enum("a".into(), Type::CallbackInterface("c".into())).is_well_typed());
    assert!(!Literal::Enum("a".into(), prim(Primitive::Int32)).is_well_typed());
}

#[test]
fn declared_types_of_literals() {
    let t = prim(Primitive::Int8);
    assert_eq!(Literal::Int(1, Radix::Decimal, prim(Primitive::Int8)).declared_type(), Some(&t));
    assert_eq!(Literal::Null.declared_type(), None);
    assert_eq!(Literal::String("x".into()).declared_type(), None);
    assert!(prim(Primitive::Float64).is_numeric());
    assert!(!prim(Primitive::String).is_numeric());
    assert!(!Type::Enum("e".into()).is_numeric());
    assert!(Primitive::UInt8.numeric());
    assert!(!Primitive::Duration.numeric());
}

#[test]
fn decimal_rendering_matches_the_standard_library() {
    let unsigned = [0u64, 1, 9, 10, 11, 99, 100, 101, 12345, 4294967295, 4294967296, u64::MAX];
    for n in unsigned {
        assert_eq!(render_unsigned_decimal(n), format!("{}", n));
        assert_eq!(unsigned_number(n, Radix::Decimal), format!("{}", n));
    }
    let signed = [0i64, 1, -1, 9, -9, 10, -10, 1234567, -1234567, i64::MAX, i64::MIN, i64::MIN + 1];
    for i in signed {
        assert_eq!(render_signed_decimal(i), format!("{}", i));
        assert_eq!(signed_number(i, Radix::Decimal), format!("{}", i));
    }
}

#[test]
fn hexadecimal_rendering_matches_the_standard_library() {
    let unsigned = [0u64, 1, 9, 10, 15, 16, 17, 255, 256, 0xdeadbeef, u64::MAX];
    for n in unsigned {
        assert_eq!(render_unsigned_hex(n), format!("{:#x}", n));
        assert_eq!(unsigned_number(n, Radix::Hexadecimal), format!("{:#x}", n));
        assert_eq!(unsigned_number(n, Radix::Octal), format!("{:#x}", n));
    }
    let signed = [0i64, 1, -1, 15, -15, 16, -16, 0x7fff, -0x8000, i64::MAX, i64::MIN];
    for i in signed {
        assert_eq!(render_signed_hex(i), format!("{:#x}", i));
        assert_eq!(signed_number(i, Radix::Hexadecimal), format!("{:#x}", i));
        assert_eq!(signed_number(i, Radix::Octal), format!("{:#x}", i));
    }
}

#[test]
fn number_suffixes() {
    let cases = [
        (Primitive::Int8, "7"),
        (Primitive::Int16, "7"),
        (Primitive::Int32, "7"),
        (Primitive::Int64, "7L"),
        (Primitive::UInt8, "7u"),
        (Primitive::UInt16, "7u"),
        (Primitive::UInt32, "7u"),
        (Primitive::UInt64, "7uL"),
        (Primitive::Float32, "7f"),
        (Primitive::Float64, "7"),
    ];
    for (primitive, expected) in cases {
        assert_eq!(typed_number(&prim(primitive), "7".to_string()), expected);
    }
}

#[test]
fn text_builders() {
    assert_eq!(concat2("a", "b"), "ab");
    assert_eq!(concat3("a", "", "c"), "ac");
    assert_eq!(call0("x", "lower"), "x.lower()");
    assert_eq!(call1("x", "write", "buf"), "x.write(buf)");
    assert_eq!(call2("T", "lift", "a", "b"), "T.lift(a, b)");
    assert_eq!(apply1("f", "a"), "f(a)");
    assert_eq!(apply2("f", "a", "b"), "f(a, b)");
}
