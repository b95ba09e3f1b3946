use objects_pool::Id;
use objects_pool::Pool;
use objects_pool::Simple;
use objects_pool::Storable;
use objects_pool::TextNumber;
use objects_pool::Variadic;
use objects_pool::Variant;

type TnPool = Variadic<TextNumber, Simple<TextNumber>>;

#[test]
fn round_trip_text() {
    let mut pool: TnPool = Default::default();
    let id = pool.insert_s("hello".to_string());
    assert_eq!(*pool.get_s(id), "hello".to_string());
}

#[test]
fn round_trip_number() {
    let mut pool: TnPool = Default::default();
    let id = pool.insert_s(-40i64);
    assert_eq!(*pool.get_s(id), -40i64);
}

#[test]
fn scenario_text_number() {
    let mut pool: TnPool = Default::default();

    let h1 = pool.insert_s("abc".to_string());
    let h2 = pool.insert_s(123i64);

    let h1_any: Id<TextNumber> = Id::new(h1.raw());
    let h2_any: Id<TextNumber> = Id::new(h2.raw());
    assert!(h1_any != h2_any);

    assert_eq!(*pool.get_s(h1), "abc".to_string());
    assert_eq!(*pool.get_s(h2), 123i64);

    let h3 = pool.insert_s(123i64);
    assert!(h3 != h2);
    assert!(h3.raw() != h1.raw());

    assert!(matches!(pool.get(h1_any), TextNumber::Text(_)));
}

#[test]
fn container_pass_through() {
    let mut pool: TnPool = Default::default();
    let id = pool.insert(TextNumber::Text("whole".to_string()));
    assert_eq!(*pool.get(id), TextNumber::Text("whole".to_string()));

    let id_n = pool.insert(TextNumber::Number(9));
    assert_eq!(*pool.get(id_n), TextNumber::Number(9));
}

#[test]
fn store_access_capability() {
    let mut pool: TnPool = Default::default();
    let id = TextNumber::Number(4).store(&mut pool);
    assert_eq!(*TextNumber::access(&pool, id), TextNumber::Number(4));
}

#[test]
fn reflexive_variant_identity() {
    let c = TextNumber::Number(7);
    let packed = <TextNumber as Variant<TextNumber>>::pack(c.clone());
    let unpacked = <TextNumber as Variant<TextNumber>>::unpack(&packed);
    assert_eq!(*unpacked, c);
}

#[test]
fn member_pack_unpack() {
    let packed = <String as Variant<TextNumber>>::pack("inner".to_string());
    assert!(matches!(packed, TextNumber::Text(_)));
    assert_eq!(*<String as Variant<TextNumber>>::unpack(&packed), "inner".to_string());

    let packed_n = <i64 as Variant<TextNumber>>::pack(11);
    assert!(matches!(packed_n, TextNumber::Number(11)));
    assert_eq!(*<i64 as Variant<TextNumber>>::unpack(&packed_n), 11);
}

#[test]
fn insertion_monotonicity() {
    let mut pool: TnPool = Default::default();
    let h1 = pool.insert_s(1i64);
    let h2 = pool.insert_s(2i64);
    let h3 = pool.insert_s("three".to_string());

    assert!(h1 != h2);
    assert!(h1.raw() != h3.raw());
    assert!(h2.raw() != h3.raw());

    // Earlier handles stay valid and their values unchanged after later,
    // unrelated insertions.
    assert_eq!(*pool.get_s(h1), 1i64);
    assert_eq!(*pool.get_s(h2), 2i64);
    assert_eq!(*pool.get_s(h3), "three".to_string());
}

#[test]
fn handle_equality_by_raw_index() {
    let mut pool: TnPool = Default::default();
    let id_abc = pool.insert_s("abc".to_string());
    let id_abc_copy = id_abc;
    assert!(id_abc == id_abc_copy);

    let rebuilt: Id<String> = Id::new(id_abc.raw());
    assert!(rebuilt == id_abc);

    let other: Id<String> = Id::new(id_abc.raw() + 1);
    assert!(other != id_abc);
}

#[test]
fn nested_variadic_pool() {
    // The variadic pool satisfies the arena contract for its container type,
    // so it can serve as the inner pool of another variadic pool.
    let mut pool: Variadic<TextNumber, TnPool> = Default::default();
    let ht = pool.insert_s("outer".to_string());
    let hn = pool.insert_s(5i64);
    assert_eq!(*pool.get_s(ht), "outer".to_string());
    assert_eq!(*pool.get_s(hn), 5i64);
}

#[test]
fn simple_arena_direct() {
    let mut arena: Simple<i64> = Simple::empty();
    let a = arena.insert(10);
    let b = arena.insert(20);
    assert!(a != b);
    assert_eq!(*arena.get(a), 10);
    assert_eq!(*arena.get(b), 20);
}
