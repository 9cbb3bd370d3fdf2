use endify::generate::{gen_method, Method};
use endify::shape::{Data, DeriveInput, Fields, Generics};
use endify::Endify;

fn little_endian_host() -> bool {
    u16::from_ne_bytes([1, 0]) == 1
}

fn shape(name: &str, fields: Fields) -> DeriveInput {
    DeriveInput {
        ident: name.to_string(),
        generics: Generics {
            impl_generics: String::new(),
            ty_generics: String::new(),
            where_clause: String::new(),
        },
        data: Data::Struct(fields),
    }
}

fn generated(input: &DeriveInput) -> [String; 4] {
    [
        gen_method(input, Method::ToLe).unwrap(),
        gen_method(input, Method::ToBe).unwrap(),
        gen_method(input, Method::FromLe).unwrap(),
        gen_method(input, Method::FromBe).unwrap(),
    ]
}

#[derive(Debug, Clone, Copy, PartialEq, Eq)]
struct Pair {
    a: u32,
    b: u16,
}

// The four methods are what the generator gives for `Pair`, letter for letter.
impl Endify for Pair {
    fn to_le(self) -> Self { Self { a: Endify::to_le(self.a), b: Endify::to_le(self.b) } }
    fn to_be(self) -> Self { Self { a: Endify::to_be(self.a), b: Endify::to_be(self.b) } }
    fn from_le(self) -> Self { Self { a: Endify::from_le(self.a), b: Endify::from_le(self.b) } }
    fn from_be(self) -> Self { Self { a: Endify::from_be(self.a), b: Endify::from_be(self.b) } }
}

#[derive(Debug, Clone, Copy, PartialEq, Eq)]
struct Byte {
    x: u8,
}

impl Endify for Byte {
    fn to_le(self) -> Self { Self { x: Endify::to_le(self.x) } }
    fn to_be(self) -> Self { Self { x: Endify::to_be(self.x) } }
    fn from_le(self) -> Self { Self { x: Endify::from_le(self.x) } }
    fn from_be(self) -> Self { Self { x: Endify::from_be(self.x) } }
}

#[derive(Debug, Clone, Copy, PartialEq, Eq)]
struct Marker;

impl Endify for Marker {
    fn to_le(self) -> Self { self }
    fn to_be(self) -> Self { self }
    fn from_le(self) -> Self { self }
    fn from_be(self) -> Self { self }
}

#[derive(Debug, Clone, Copy, PartialEq, Eq)]
struct Point(i64, [u16; 2]);

impl Endify for Point {
    fn to_le(self) -> Self { Self(Endify::to_le(self.0), Endify::to_le(self.1)) }
    fn to_be(self) -> Self { Self(Endify::to_be(self.0), Endify::to_be(self.1)) }
    fn from_le(self) -> Self { Self(Endify::from_le(self.0), Endify::from_le(self.1)) }
    fn from_be(self) -> Self { Self(Endify::from_be(self.0), Endify::from_be(self.1)) }
}

#[derive(Debug, Clone, Copy, PartialEq, Eq)]
struct Frame {
    head: Pair,
    tail: Point,
}

impl Endify for Frame {
    fn to_le(self) -> Self { Self { head: Endify::to_le(self.head), tail: Endify::to_le(self.tail) } }
    fn to_be(self) -> Self { Self { head: Endify::to_be(self.head), tail: Endify::to_be(self.tail) } }
    fn from_le(self) -> Self { Self { head: Endify::from_le(self.head), tail: Endify::from_le(self.tail) } }
    fn from_be(self) -> Self { Self { head: Endify::from_be(self.head), tail: Endify::from_be(self.tail) } }
}

#[test]
fn the_records_above_hold_the_generated_methods() {
    assert_eq!(
        generated(&shape("Pair", Fields::Named(vec!["a".to_string(), "b".to_string()]))),
        [
            "fn to_le(self) -> Self { Self { a: Endify::to_le(self.a), b: Endify::to_le(self.b) } }",
            "fn to_be(self) -> Self { Self { a: Endify::to_be(self.a), b: Endify::to_be(self.b) } }",
            "fn from_le(self) -> Self { Self { a: Endify::from_le(self.a), b: Endify::from_le(self.b) } }",
            "fn from_be(self) -> Self { Self { a: Endify::from_be(self.a), b: Endify::from_be(self.b) } }",
        ]
    );
    assert_eq!(
        generated(&shape("Byte", Fields::Named(vec!["x".to_string()]))),
        [
            "fn to_le(self) -> Self { Self { x: Endify::to_le(self.x) } }",
            "fn to_be(self) -> Self { Self { x: Endify::to_be(self.x) } }",
            "fn from_le(self) -> Self { Self { x: Endify::from_le(self.x) } }",
            "fn from_be(self) -> Self { Self { x: Endify::from_be(self.x) } }",
        ]
    );
    assert_eq!(
        generated(&shape("Marker", Fields::Unit)),
        [
            "fn to_le(self) -> Self { self }",
            "fn to_be(self) -> Self { self }",
            "fn from_le(self) -> Self { self }",
            "fn from_be(self) -> Self { self }",
        ]
    );
    assert_eq!(
        generated(&shape("Point", Fields::Unnamed(2))),
        [
            "fn to_le(self) -> Self { Self(Endify::to_le(self.0), Endify::to_le(self.1)) }",
            "fn to_be(self) -> Self { Self(Endify::to_be(self.0), Endify::to_be(self.1)) }",
            "fn from_le(self) -> Self { Self(Endify::from_le(self.0), Endify::from_le(self.1)) }",
            "fn from_be(self) -> Self { Self(Endify::from_be(self.0), Endify::from_be(self.1)) }",
        ]
    );
    assert_eq!(
        generated(&shape("Frame", Fields::Named(vec!["head".to_string(), "tail".to_string()]))),
        [
            "fn to_le(self) -> Self { Self { head: Endify::to_le(self.head), tail: Endify::to_le(self.tail) } }",
            "fn to_be(self) -> Self { Self { head: Endify::to_be(self.head), tail: Endify::to_be(self.tail) } }",
            "fn from_le(self) -> Self { Self { head: Endify::from_le(self.head), tail: Endify::from_le(self.tail) } }",
            "fn from_be(self) -> Self { Self { head: Endify::from_be(self.head), tail: Endify::from_be(self.tail) } }",
        ]
    );
}

#[test]
fn two_field_record() {
    let value = Pair { a: 0x0102_0304, b: 0x0A0B };
    let reversed = Pair { a: 0x0403_0201, b: 0x0B0A };
    if little_endian_host() {
        assert_eq!(value.to_be(), reversed);
        assert_eq!(reversed.from_be(), value);
        assert_eq!(value.to_le(), value);
        assert_eq!(value.from_le(), value);
    } else {
        assert_eq!(value.to_le(), reversed);
        assert_eq!(reversed.from_le(), value);
        assert_eq!(value.to_be(), value);
        assert_eq!(value.from_be(), value);
    }
    assert_eq!(value.to_be().from_be(), value);
    assert_eq!(value.to_le().from_le(), value);
}

#[test]
fn record_of_a_single_byte() {
    let value = Byte { x: 7 };
    assert_eq!(value.to_le(), Byte { x: 7 });
    assert_eq!(value.to_be(), Byte { x: 7 });
    assert_eq!(value.from_le(), Byte { x: 7 });
    assert_eq!(value.from_be(), Byte { x: 7 });
}

#[test]
fn record_without_fields() {
    assert_eq!(Marker.to_le(), Marker);
    assert_eq!(Marker.to_be(), Marker);
    assert_eq!(Marker.from_le(), Marker);
    assert_eq!(Marker.from_be(), Marker);
}

#[test]
fn each_field_is_converted_by_itself() {
    let value = Point(-0x0102_0304_0506_0708, [0x0102, 0x0304]);
    assert_eq!(value.to_le().0, Endify::to_le(value.0));
    assert_eq!(value.to_le().1, Endify::to_le(value.1));
    assert_eq!(value.to_be().0, Endify::to_be(value.0));
    assert_eq!(value.to_be().1, Endify::to_be(value.1));
    assert_eq!(value.from_le().0, Endify::from_le(value.0));
    assert_eq!(value.from_le().1, Endify::from_le(value.1));
    assert_eq!(value.from_be().0, Endify::from_be(value.0));
    assert_eq!(value.from_be().1, Endify::from_be(value.1));
}

#[test]
fn record_inside_a_record() {
    let value = Frame {
        head: Pair { a: 0x0102_0304, b: 0x0A0B },
        tail: Point(1, [0x0102, 0x0304]),
    };
    let reversed = Frame {
        head: Pair { a: 0x0403_0201, b: 0x0B0A },
        tail: Point(0x0100_0000_0000_0000, [0x0201, 0x0403]),
    };
    if little_endian_host() {
        assert_eq!(value.to_be(), reversed);
        assert_eq!(value.to_le(), value);
    } else {
        assert_eq!(value.to_le(), reversed);
        assert_eq!(value.to_be(), value);
    }
    assert_eq!(value.to_be().from_be(), value);
    assert_eq!(value.to_le().from_le(), value);
    assert_eq!(value.to_be().head, value.head.to_be());
    assert_eq!(value.to_be().tail, value.tail.to_be());
}

#[test]
fn arrays_of_records() {
    let values = [Pair { a: 1, b: 2 }, Pair { a: 0x0102_0304, b: 0x0A0B }];
    let converted = Endify::to_be(values);
    assert_eq!(converted[0], values[0].to_be());
    assert_eq!(converted[1], values[1].to_be());
    assert_eq!(Endify::from_be(converted), values);
}
