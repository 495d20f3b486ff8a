use std::collections::BTreeMap;
use std::fmt;
use std::marker::PhantomData;

use serde::de::{Deserialize, Deserializer, Error as _, MapAccess, Visitor};
use serde::Serialize;
use serde_dyn::de::{
    DeserializeError, DeserializerError, Ending, InplaceDeserializeSeed, InplaceDeserializer,
    InplaceEnumAccess, InplaceMapAccess, InplaceSeqAccess, InplaceVisitor,
};

type JsonDe<'a> = &'a mut serde_json::Deserializer<serde_json::de::StrRead<'a>>;

/// A visitor that hands each callback on to the visitor held in a bridge.
struct Forward<'b, 'de, V: Visitor<'de>>(&'b mut InplaceVisitor<V, V::Value>, PhantomData<&'de ()>);

fn forward<'b, 'de, V: Visitor<'de>>(bridge: &'b mut InplaceVisitor<V, V::Value>) -> Forward<'b, 'de, V> {
    Forward(bridge, PhantomData)
}

type Plain = serde::de::value::Error;

fn lift<T>(r: Result<T, Plain>) -> Result<T, DeserializeError> {
    r.map_err(|e| DeserializeError::custom(e.to_string()))
}

fn to_codec<E: serde::de::Error>(e: DeserializeError) -> E {
    E::custom(e.message())
}

impl<'b, 'de, V: Visitor<'de>> Visitor<'de> for Forward<'b, 'de, V> {
    type Value = ();

    fn expecting(&self, f: &mut fmt::Formatter<'_>) -> fmt::Result {
        match self.0.visitor() {
            Some(v) => v.expecting(f),
            None => f.write_str("nothing (the visitor is not ready)"),
        }
    }

    fn visit_u64<E: serde::de::Error>(self, v: u64) -> Result<(), E> {
        let inner = self.0.take_visitor().map_err(to_codec::<E>)?;
        self.0.store(lift(inner.visit_u64::<Plain>(v))).map_err(to_codec::<E>)
    }

    fn visit_str<E: serde::de::Error>(self, v: &str) -> Result<(), E> {
        let inner = self.0.take_visitor().map_err(to_codec::<E>)?;
        self.0.store(lift(inner.visit_str::<Plain>(v))).map_err(to_codec::<E>)
    }

    fn visit_map<A: MapAccess<'de>>(self, map: A) -> Result<(), A::Error> {
        let mut access = InplaceMapAccess::new(map);
        let inner = self.0.take_visitor().map_err(to_codec::<A::Error>)?;
        let mut a = access.take_access().unwrap();
        let result = inner.visit_map(&mut a);
        let status = access.resume(a, result);
        let stored = self.0.store(status.map_err(DeserializeError::from));
        match access.failure() {
            Some(e) => Err(e),
            None => stored.map_err(to_codec::<A::Error>),
        }
    }
}

/// Runs one hint of a JSON deserializer through the bridges, into `visitor`.
fn consume<'de, V, F>(text: &'de str, visitor: V, hint: F) -> Result<V::Value, DeserializeError>
where
    V: Visitor<'de>,
    F: for<'b> FnOnce(JsonDe<'de>, Forward<'b, 'de, V>) -> Result<(), serde_json::Error>,
{
    let json = Box::leak(Box::new(serde_json::Deserializer::from_str(text)));
    let mut de: InplaceDeserializer<JsonDe<'de>, serde_json::Error> = InplaceDeserializer::new(json);
    let mut vis = InplaceVisitor::new(visitor);
    let status = match de.take_deserializer() {
        Ok(d) => de.record(hint(d, forward(&mut vis))),
        Err(status) => Err(status),
    };
    if let Some(e) = de.failure() {
        return Err(DeserializeError::custom(e.to_string()));
    }
    vis.conclude(status)
}

#[derive(Debug, PartialEq)]
struct Point {
    x: u64,
    y: u64,
}

struct PointVisitor;

impl<'de> Visitor<'de> for PointVisitor {
    type Value = Point;

    fn expecting(&self, f: &mut fmt::Formatter<'_>) -> fmt::Result {
        f.write_str("struct Point")
    }

    fn visit_map<A: MapAccess<'de>>(self, mut map: A) -> Result<Point, A::Error> {
        let (mut x, mut y) = (None, None);
        while let Some(key) = map.next_key::<String>()? {
            match key.as_str() {
                "x" => x = Some(map.next_value()?),
                "y" => y = Some(map.next_value()?),
                other => return Err(A::Error::unknown_field(other, &["x", "y"])),
            }
        }
        Ok(Point {
            x: x.ok_or_else(|| A::Error::missing_field("x"))?,
            y: y.ok_or_else(|| A::Error::missing_field("y"))?,
        })
    }
}

struct U8Visitor;

impl<'de> Visitor<'de> for U8Visitor {
    type Value = u8;

    fn expecting(&self, f: &mut fmt::Formatter<'_>) -> fmt::Result {
        f.write_str("a u8")
    }

    fn visit_u64<E: serde::de::Error>(self, v: u64) -> Result<u8, E> {
        u8::try_from(v).map_err(|_| E::custom("out of range"))
    }
}

struct CharVisitor;

impl<'de> Visitor<'de> for CharVisitor {
    type Value = char;

    fn expecting(&self, f: &mut fmt::Formatter<'_>) -> fmt::Result {
        f.write_str("a character")
    }

    fn visit_str<E: serde::de::Error>(self, v: &str) -> Result<char, E> {
        let mut chars = v.chars();
        match (chars.next(), chars.next()) {
            (Some(c), None) => Ok(c),
            _ => Err(E::custom("not one character")),
        }
    }
}

#[test]
fn struct_hint_through_the_bridges() {
    let value = consume(r#"{"x":1,"y":2}"#, PointVisitor, |d, v| {
        d.deserialize_struct("Point", &["x", "y"], v)
    });
    assert_eq!(value.unwrap(), Point { x: 1, y: 2 });
}

#[test]
fn struct_hint_reports_unknown_field() {
    let value = consume(r#"{"x":1,"z":2}"#, PointVisitor, |d, v| {
        d.deserialize_struct("Point", &["x", "y"], v)
    });
    let text = value.unwrap_err().message();
    assert!(text.starts_with("unknown field `z`, expected `x` or `y`"), "{}", text);
}

#[test]
fn u8_hint_through_the_bridges() {
    let value = consume("255", U8Visitor, |d, v| d.deserialize_u8(v));
    assert_eq!(value.unwrap(), 255);
}

#[test]
fn char_hint_through_the_bridges() {
    let value = consume(r#""A""#, CharVisitor, |d, v| d.deserialize_char(v));
    assert_eq!(value.unwrap(), 'A');
}

#[test]
fn visitor_never_fed_is_reported() {
    let value = consume("255", U8Visitor, |_, _| Ok(()));
    assert!(matches!(
        value,
        Err(DeserializeError::DeserializerError(DeserializerError::Visitor))
    ));
}

#[test]
fn used_deserializer_refuses() {
    let json = Box::leak(Box::new(serde_json::Deserializer::from_str("1")));
    let mut de: InplaceDeserializer<JsonDe<'_>, serde_json::Error> = InplaceDeserializer::new(json);
    assert!(de.deserializer().is_some());
    let d = de.take_deserializer().unwrap();
    assert_eq!(de.record(u8::deserialize(d).map(|_| ())), Ok(()));
    assert!(matches!(de.take_deserializer(), Err(DeserializerError::Deserializer)));
    assert!(de.deserializer().is_none());
    let err = serde_json::Error::custom("boom");
    assert_eq!(de.record(Err(err)), Err(DeserializerError::Error));
    assert!(matches!(de.take_deserializer(), Err(DeserializerError::Deserializer)));
    assert!(matches!(de.take_deserializer(), Err(DeserializerError::Deserializer)));
    // The refused calls left the stored error in place.
    match de.settle(Err(DeserializerError::Error)) {
        Ending::Failed(e) => assert_eq!(e.to_string(), "boom"),
        _ => panic!("the deserializer's error was dropped"),
    }
    let de: InplaceDeserializer<JsonDe<'_>, serde_json::Error> = InplaceDeserializer::Empty;
    assert!(matches!(de.settle(Ok::<(), u8>(())), Ending::Succeeded));
    let de: InplaceDeserializer<JsonDe<'_>, serde_json::Error> = InplaceDeserializer::Empty;
    assert!(matches!(de.settle(Err(7_u8)), Ending::Refused(7)));
}

#[test]
fn visitor_bridge_stages() {
    let mut vis: InplaceVisitor<U8Visitor, u8> = InplaceVisitor::new(U8Visitor);
    let v = vis.take_visitor().unwrap();
    assert_eq!(vis.store(lift(v.visit_u64::<Plain>(7))).map_err(|e| e.message()), Ok(()));
    assert!(matches!(vis, InplaceVisitor::Value(7)));
    assert!(matches!(
        vis.take_visitor(),
        Err(DeserializeError::DeserializerError(DeserializerError::Visitor))
    ));
    // The refused call left the value in place.
    assert!(matches!(vis, InplaceVisitor::Value(7)));
    // A failing visitor leaves the bridge as it was.
    let mut vis: InplaceVisitor<U8Visitor, u8> = InplaceVisitor::new(U8Visitor);
    let v = vis.take_visitor().unwrap();
    let r = vis.store(lift(v.visit_u64::<Plain>(300)));
    assert_eq!(r.unwrap_err().message(), "out of range");
    assert!(matches!(vis, InplaceVisitor::Empty));
    assert!(matches!(
        vis.conclude(Err(DeserializerError::Error)),
        Err(DeserializeError::DeserializerError(DeserializerError::Error))
    ));
    let vis: InplaceVisitor<U8Visitor, u8> = InplaceVisitor::Value(9);
    assert_eq!(vis.conclude(Err(DeserializerError::Error)).unwrap(), 9);
}

#[test]
fn seed_bridge_stages() {
    let mut seed: InplaceDeserializeSeed<PhantomData<u8>, u8> = InplaceDeserializeSeed::new(PhantomData);
    let s = seed.take_seed().unwrap();
    let mut json = serde_json::Deserializer::from_str("42");
    let r = serde::de::DeserializeSeed::deserialize(s, &mut json)
        .map_err(|e| DeserializeError::custom(e.to_string()));
    assert!(seed.store(r).is_ok());
    assert!(matches!(
        seed.take_seed(),
        Err(DeserializeError::DeserializerError(DeserializerError::DeserializeSeed))
    ));
    assert!(matches!(seed, InplaceDeserializeSeed::Value(42)));
    let seed: InplaceDeserializeSeed<PhantomData<u8>, u8> = InplaceDeserializeSeed::Value(42);
    assert_eq!(seed.conclude_next(Ok(Some(()))).unwrap(), Some(42));
    let seed: InplaceDeserializeSeed<PhantomData<u8>, u8> = InplaceDeserializeSeed::new(PhantomData);
    assert_eq!(seed.conclude_next(Ok(None)).unwrap(), None);
    let seed: InplaceDeserializeSeed<PhantomData<u8>, u8> = InplaceDeserializeSeed::new(PhantomData);
    assert!(matches!(
        seed.conclude_next(Err(DeserializerError::SeqAccess)),
        Err(DeserializeError::DeserializerError(DeserializerError::SeqAccess))
    ));
    let seed: InplaceDeserializeSeed<PhantomData<u8>, u8> = InplaceDeserializeSeed::new(PhantomData);
    assert!(matches!(
        seed.conclude(Ok(())),
        Err(DeserializeError::DeserializerError(DeserializerError::DeserializeSeed))
    ));
    let k: InplaceDeserializeSeed<PhantomData<u8>, u8> = InplaceDeserializeSeed::Value(1);
    let v: InplaceDeserializeSeed<PhantomData<u8>, char> = InplaceDeserializeSeed::Value('a');
    assert_eq!(k.conclude_entry(v, Ok(Some(((), ())))).unwrap(), Some((1, 'a')));
    let k: InplaceDeserializeSeed<PhantomData<u8>, u8> = InplaceDeserializeSeed::Value(1);
    let v: InplaceDeserializeSeed<PhantomData<u8>, char> = InplaceDeserializeSeed::Empty;
    assert!(k.conclude_entry(v, Err(DeserializerError::Error)).is_err());
}

#[test]
fn access_bridge_stages() {
    let mut seq: InplaceSeqAccess<u8, String> = InplaceSeqAccess::new(5);
    assert_eq!(seq.access(), Some(&5));
    let a = seq.take_access().unwrap();
    assert_eq!(seq.resume(a, Ok::<_, String>(Some(()))), Ok(Some(())));
    let a = seq.take_access().unwrap();
    assert_eq!(seq.resume(a, Err::<(), _>("bad".to_string())), Err(DeserializerError::Error));
    assert_eq!(seq.access(), None);
    assert_eq!(seq.take_access(), Err(DeserializerError::SeqAccess));
    assert!(matches!(seq.settle(Err(3_u8)), Ending::Failed(e) if e == "bad"));

    let mut map: InplaceMapAccess<u8, String> = InplaceMapAccess::new(5);
    let a = map.take_access().unwrap();
    assert_eq!(map.take_access(), Err(DeserializerError::MapAccess));
    assert_eq!(map.resume(a, Err::<(), _>("bad".to_string())), Err(DeserializerError::Error));
    assert_eq!(map.take_access(), Err(DeserializerError::MapAccess));

    let mut en: InplaceEnumAccess<u8, char, String> = InplaceEnumAccess::new(1);
    assert_eq!(en.take_variant_access(), Err(DeserializerError::VariantAccess));
    let mut en: InplaceEnumAccess<u8, char, String> = InplaceEnumAccess::new(1);
    assert_eq!(en.take_enum_access(), Ok(1));
    assert_eq!(en.enter_variant(Ok('v')), Ok(()));
    assert_eq!(en.take_enum_access(), Err(DeserializerError::EnumAccess));
    let mut en: InplaceEnumAccess<u8, char, String> = InplaceEnumAccess::new(1);
    let _ = en.take_enum_access();
    assert_eq!(en.enter_variant(Ok('v')), Ok(()));
    assert_eq!(en.take_variant_access(), Ok('v'));
    assert_eq!(en.record(Err("bad".to_string())), Err(DeserializerError::Error));
    assert_eq!(en.take_variant_access(), Err(DeserializerError::VariantAccess));
    assert_eq!(en.take_enum_access(), Err(DeserializerError::EnumAccess));
    // The refused calls left the stored error in place.
    assert!(matches!(en.settle(Ok::<(), u8>(())), Ending::Failed(e) if e == "bad"));
    let mut en: InplaceEnumAccess<u8, char, String> = InplaceEnumAccess::new(1);
    let _ = en.take_enum_access();
    assert_eq!(en.enter_variant(Err("no such variant".to_string())), Err(DeserializerError::Error));
    assert_eq!(en.failure(), Some("no such variant".to_string()));
}

/// Produces a value through the producing bridge and reads it back through the consuming one.
fn round_trip<T>(value: &T) -> T
where
    T: Serialize + for<'de> Deserialize<'de>,
{
    let mut buf = Vec::new();
    {
        let mut json = serde_json::Serializer::new(&mut buf);
        let mut bridge: serde_dyn::ser::InplaceSerializer<_, _, _, _, _, _, _, _, _, _> =
            serde_dyn::ser::InplaceSerializer::new(&mut json);
        let s = bridge.take_serializer().unwrap();
        assert_eq!(bridge.complete(value.serialize(s)), Ok(()));
        let _: &serde_dyn::ser::InplaceSerializer<
            _,
            (),
            serde_json::Error,
            serde_json::ser::Compound<'_, &mut Vec<u8>, serde_json::ser::CompactFormatter>,
            serde_json::ser::Compound<'_, &mut Vec<u8>, serde_json::ser::CompactFormatter>,
            serde_json::ser::Compound<'_, &mut Vec<u8>, serde_json::ser::CompactFormatter>,
            serde_json::ser::Compound<'_, &mut Vec<u8>, serde_json::ser::CompactFormatter>,
            serde_json::ser::Compound<'_, &mut Vec<u8>, serde_json::ser::CompactFormatter>,
            serde_json::ser::Compound<'_, &mut Vec<u8>, serde_json::ser::CompactFormatter>,
            serde_json::ser::Compound<'_, &mut Vec<u8>, serde_json::ser::CompactFormatter>,
        > = &bridge;
    }
    let text = String::from_utf8(buf).unwrap();
    let mut json = serde_json::Deserializer::from_str(&text);
    let mut de: InplaceDeserializer<_, serde_json::Error> = InplaceDeserializer::new(&mut json);
    let d = de.take_deserializer().unwrap();
    let decoded = T::deserialize(d);
    let value = match decoded {
        Ok(v) => v,
        Err(e) => {
            de.record(Err(e)).unwrap_err();
            panic!("{}", de.failure().unwrap());
        }
    };
    assert!(matches!(de, InplaceDeserializer::Empty));
    value
}

#[test]
fn shapes_round_trip() {
    assert_eq!(round_trip(&()), ());
    assert_eq!(round_trip(&None::<u8>), None);
    assert_eq!(round_trip(&Some(3_u8)), Some(3));
    assert_eq!(round_trip(&(true, (), 255_u8)), (true, (), 255));
    assert_eq!(round_trip(&vec![3, 1, 4, 1, 5, 9]), vec![3, 1, 4, 1, 5, 9]);
    let mut map = BTreeMap::new();
    map.insert("A".to_string(), "aaa".to_string());
    map.insert("B".to_string(), "bbb".to_string());
    assert_eq!(round_trip(&map), map);
    assert_eq!(round_trip(&"♥️".to_string()), "♥️");
    assert_eq!(round_trip(&i64::MIN), i64::MIN);
}
