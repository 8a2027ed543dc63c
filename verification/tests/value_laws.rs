use sciter::ieee::int_to_float_bits;
use sciter::macros::{argument, check_arity, varray};
use sciter::scvalue::{VALUE_RESULT, VALUE_TYPE};
use sciter::value::{reading, Claim, Foreign, Identities, Invocation, NativeFunctor, Reading, Value, INDEX_MAX};
use std::cell::Cell;
use std::rc::Rc;

#[test]
fn round_trip_bool() {
    for x in [true, false] {
        assert_eq!(Value::from(x).to_bool(), Some(x));
    }
    assert_eq!(Value::from(true).to_int(), Some(1));
    assert_eq!(Value::from(false).to_int(), Some(0));
}

#[test]
fn round_trip_int() {
    for x in [0, 1, -1, 12, 777, i32::MAX, i32::MIN] {
        let v = Value::from(x);
        assert_eq!(v.to_int(), Some(x));
        assert_eq!(v.to_bool(), Some(x != 0));
        assert_eq!(v.get_type(), VALUE_TYPE::T_INT);
    }
}

#[test]
fn round_trip_float() {
    for x in [0.0f64, 1.0, -1.0, 3.14, 12.5, f64::MAX, f64::MIN_POSITIVE, f64::INFINITY] {
        let v = Value::float(x.to_bits());
        assert_eq!(v.to_float(), Some(x.to_bits()));
        assert_eq!(v.to_int(), None);
        assert_eq!(v.to_bool(), None);
    }
}

#[test]
fn round_trip_string() {
    for x in ["", "hello", "3.14", "κόσμε", "a\"b"] {
        assert_eq!(Value::from(x).as_string(), Some(x.to_string()));
        assert_eq!(Value::from(x.to_string()).as_string(), Some(x.to_string()));
        assert_eq!(Value::symbol(x).as_string(), Some(x.to_string()));
        assert_eq!(Value::error(x).as_string(), Some(x.to_string()));
    }
}

#[test]
fn round_trip_bytes() {
    let cases: [&[u8]; 3] = [&[], &[1, 2, 3], &[0, 255, 0]];
    for x in cases {
        assert_eq!(Value::from(x).to_bytes(), Some(x.to_vec()));
        assert_eq!(Value::from(x).as_bytes(), Some(x));
    }
}

#[test]
fn int_gives_the_float_that_is_equal_to_it() {
    for x in [0, 1, -1, 2, 3, 7, 8, 100, -100, 12345, 0x40000000, i32::MAX, i32::MIN, i32::MIN + 1] {
        assert_eq!(int_to_float_bits(x), (x as f64).to_bits(), "float of {}", x);
        assert_eq!(Value::from(x).to_float(), Some((x as f64).to_bits()));
    }
    assert_eq!(int_to_float_bits(1), 0x3FF0_0000_0000_0000);
    assert_eq!(int_to_float_bits(-2), 0xC000_0000_0000_0000);
}

#[test]
fn conversions_are_checked() {
    let mut ids = Identities::new();
    let s = Value::from("1");
    assert_eq!(s.to_int(), None);
    assert_eq!(s.to_bool(), None);
    assert_eq!(s.to_float(), None);
    assert_eq!(s.to_bytes(), None);
    assert_eq!(s.to_color(), None);
    assert_eq!(s.to_duration(), None);
    assert_eq!(s.to_angle(), None);
    let i = Value::from(1);
    assert_eq!(i.as_string(), None);
    assert_eq!(i.as_bytes(), None);
    assert_eq!(i.to_color(), None);
    assert_eq!(Value::new().to_int(), None);
    assert_eq!(Value::null().to_bool(), None);
    assert_eq!(Value::array(&mut ids, 1).to_int(), None);
    assert_eq!(Value::map(&mut ids).as_string(), None);
    assert_eq!(Value::color(1).to_int(), None);
}

#[test]
fn composites_compare_by_identity() {
    let mut ids = Identities::new();
    // two arrays built with equal elements, but apart
    let mut a = Value::array(&mut ids, 0);
    a.push(&mut ids, Value::from(1));
    let mut b = Value::array(&mut ids, 0);
    b.push(&mut ids, Value::from(1));
    assert!(a != b);
    assert!(!a.equals(&b));

    // an array and itself, an array and its copy
    assert!(a == a);
    let c = a.clone();
    assert!(a == c);
    assert!(c == a);

    // the same for maps
    let m = Value::map(&mut ids);
    let n = Value::map(&mut ids);
    assert!(m != n);
    assert!(m == m.clone());

    // an array is no map, and no scalar
    assert!(a != m);
    assert!(a != Value::from(1));
    assert!(Value::from(1) != a);
}

#[test]
fn a_reference_is_released_once() {
    // a cell that the engine wrote to: cleared, then dropped
    let mut claim = Claim::taken();
    assert!(claim.release());
    assert!(!claim.release());
    assert!(!claim.release());

    // written to again after the clear: one more release is due
    claim.take();
    claim.take();
    assert!(claim.release());
    assert!(!claim.release());

    // handed over to the engine: nothing is due
    let mut claim = Claim::taken();
    claim.hand_over();
    assert!(!claim.release());
}

#[test]
fn identities_are_given_once() {
    let mut ids = Identities::new();
    assert!(!ids.is_spent());
    assert_eq!(ids.draw(), 0);
    assert_eq!(ids.draw(), 1);
    let a = Value::array(&mut ids, 0);
    assert_eq!(ids.draw(), 3);
    // a scalar draws nothing, and what becomes an array draws once
    let mut v = Value::from(1);
    v.isolate(&mut ids);
    assert_eq!(ids.draw(), 4);
    v.push(&mut ids, Value::from(2));
    assert_eq!(ids.draw(), 6);
    v.push(&mut ids, Value::from(3));
    assert_eq!(ids.draw(), 7);
    let mut m = Value::new();
    m.set_item(&mut ids, Value::from("k"), Value::from(1));
    assert_eq!(ids.draw(), 9);
    m.set_item(&mut ids, Value::from("l"), Value::from(1));
    assert_eq!(ids.draw(), 10);
    assert!(a != v);
    assert!(v != m);
}

#[test]
fn equal_composites_may_hold_different_things() {
    let mut ids = Identities::new();
    let mut a = Value::array(&mut ids, 1);
    let b = a.clone();
    a.push(&mut ids, Value::from(1));
    // compared by identity, not by what they hold
    assert!(a == b);
    assert_eq!(a.len(), 2);
    assert_eq!(b.len(), 1);

    // an element keeps its identity where it is stored and read
    let inner = Value::map(&mut ids);
    let mut outer = Value::array(&mut ids, 0);
    outer.push(&mut ids, inner.clone());
    assert!(outer.get(0) == inner);
    assert!(outer.get(0) != outer);
    let packed = Value::pack_args(&[inner.clone(), outer.clone()]);
    assert!(packed[0] == inner);
    assert!(packed[1] == outer);
}

#[test]
fn isolate_detaches_from_the_copies() {
    let mut ids = Identities::new();
    let mut a = Value::array(&mut ids, 2);
    let b = a.clone();
    assert!(a == b);
    a.isolate(&mut ids);
    assert!(a != b);
    assert!(a.is_array());
    assert_eq!(a.len(), 2);

    let mut i = Value::from(5);
    i.isolate(&mut ids);
    assert_eq!(i, Value::from(5));
}

#[test]
fn scalars_compare_by_what_they_hold() {
    assert_eq!(Value::from(1), Value::from(1));
    assert_ne!(Value::from(1), Value::from(2));
    assert_ne!(Value::from(1), Value::from(true));
    assert_ne!(Value::from(0), Value::null());
    assert_eq!(Value::new(), Value::new());
    assert_eq!(Value::null(), Value::null());
    assert_ne!(Value::new(), Value::null());
    assert_eq!(Value::from("a"), Value::from("a"));
    assert_ne!(Value::from("a"), Value::from("b"));
    // the unit is not compared
    assert_eq!(Value::from("a"), Value::symbol("a"));
    let bytes: &[u8] = &[1, 2];
    assert_eq!(Value::from(bytes), Value::from(bytes));
    assert_ne!(Value::from(bytes), Value::from(&bytes[..1]));
    assert_eq!(Value::foreign(Foreign::Object, 1, 42), Value::foreign(Foreign::Object, 0, 42));
    assert_ne!(Value::foreign(Foreign::Object, 1, 42), Value::foreign(Foreign::Function, 1, 42));
}

#[test]
fn map_scenario() {
    let mut ids = Identities::new();
    let mut v = Value::map(&mut ids);
    v.set_item(&mut ids, Value::from("one"), Value::from(1));
    v.set_item(&mut ids, Value::from("two"), Value::float(2.0f64.to_bits()));
    assert_eq!(v.len(), 2);
    assert_eq!(v.get_item(&Value::from("one")).to_int(), Some(1));
    assert_eq!(v.get_item(&Value::from("two")).to_float(), Some(2.0f64.to_bits()));
    assert!(v.get_item(&Value::from("three")).is_undefined());
}

#[test]
fn set_item_replaces_or_appends() {
    let mut ids = Identities::new();
    let mut v = Value::map(&mut ids);
    v.set_item(&mut ids, Value::from("k"), Value::from(1));
    v.set_item(&mut ids, Value::from(2), Value::from("two"));
    v.set_item(&mut ids, Value::from("k"), Value::from(3));
    assert_eq!(v.len(), 2);
    assert_eq!(v.get_item(&Value::from("k")), Value::from(3));
    assert_eq!(v.get_item(&Value::from(2)), Value::from("two"));
    // by index a map gives the values of its pairs in the order of the keys
    assert_eq!(v.get(0), Value::from(3));
    assert_eq!(v.get(1), Value::from("two"));
    assert!(v.get(2).is_undefined());

    // a value that is no map becomes one
    let mut w = Value::from(5);
    w.set_item(&mut ids, Value::from("a"), Value::from(1));
    assert!(w.is_map());
    assert_eq!(w.len(), 1);

    // an array is no key that is found again
    let key = Value::array(&mut ids, 0);
    let mut m = Value::map(&mut ids);
    m.set_item(&mut ids, key.clone(), Value::from(1));
    m.set_item(&mut ids, key.clone(), Value::from(2));
    assert_eq!(m.len(), 2);
    assert!(m.get_item(&key).is_undefined());
}

#[test]
fn set_puts_and_grows() {
    let mut ids = Identities::new();
    let mut v = Value::array(&mut ids, 2);
    v.set(&mut ids, 1, Value::from(21));
    assert_eq!(v.len(), 2);
    v.set(&mut ids, 2, Value::from(22));
    assert_eq!(v.len(), 3);
    assert!(v.get(0).is_undefined());
    assert_eq!(v.get(1), Value::from(21));
    assert_eq!(v.get(2), Value::from(22));

    // behind the end: the gap is undefined
    v.set(&mut ids, 5, Value::from(55));
    assert_eq!(v.len(), 6);
    assert!(v.get(3).is_undefined());
    assert!(v.get(4).is_undefined());
    assert_eq!(v.get(5), Value::from(55));
    assert!(v.get(6).is_undefined());

    // far beyond: nothing changes
    v.set(&mut ids, INDEX_MAX + 1, Value::from(1));
    assert_eq!(v.len(), 6);

    // a map takes a value at the place of a pair, and only there
    let mut m = Value::map(&mut ids);
    m.set_item(&mut ids, Value::from("a"), Value::from(1));
    m.set(&mut ids, 0, Value::from(10));
    assert_eq!(m.get_item(&Value::from("a")), Value::from(10));
    m.set(&mut ids, 1, Value::from(11));
    assert_eq!(m.len(), 1);
    assert!(m.is_map());

    // any other value becomes an array
    let mut s = Value::from("text");
    s.set(&mut ids, 1, Value::from(1));
    assert!(s.is_array());
    assert_eq!(s.len(), 2);
    assert!(s.get(0).is_undefined());
}

#[test]
fn get_of_what_is_no_composite_is_undefined() {
    let mut ids = Identities::new();
    assert!(Value::from(1).get(0).is_undefined());
    assert!(Value::new().get(3).is_undefined());
    assert!(Value::from("s").get_item(&Value::from("k")).is_undefined());
    assert_eq!(Value::from(1).len(), 0);
    assert!(Value::new().is_empty());
    assert!(Value::array(&mut ids, 0).is_empty());
    assert!(!Value::array(&mut ids, 1).is_empty());
    assert!(Value::from(1).is_empty());
}

struct Counted {
    drops: Rc<Cell<u32>>,
}

impl Drop for Counted {
    fn drop(&mut self) {
        self.drops.set(self.drops.get() + 1);
    }
}

#[test]
fn functor_scenario() {
    let drops = Rc::new(Cell::new(0));
    let guard = Counted { drops: drops.clone() };
    let mut f = NativeFunctor::wrap(move |args: &[Value]| {
        let _held = &guard;
        Value::from(args.len() as i32)
    });

    let args = [Value::from(1), Value::from("2"), Value::null()];
    let mut r = Value::new();
    assert!(f.invoke(&args, &mut r));
    assert_eq!(r.to_int(), Some(3));
    assert_eq!(drops.get(), 0);

    assert!(f.release());
    assert!(f.is_released());
    assert_eq!(drops.get(), 1);

    // released once: a second release finds nothing, and an invocation does nothing
    assert!(!f.release());
    assert_eq!(drops.get(), 1);
    let mut r = Value::from(9);
    assert!(!f.invoke(&args, &mut r));
    assert_eq!(r, Value::from(9));
    drop(f);
    assert_eq!(drops.get(), 1);
}

#[test]
fn functor_is_dropped_with_its_box() {
    let drops = Rc::new(Cell::new(0));
    let guard = Counted { drops: drops.clone() };
    {
        let _f = NativeFunctor::wrap(move |_args: &[Value]| {
            let _held = &guard;
            Value::new()
        });
    }
    assert_eq!(drops.get(), 1);
}

#[test]
fn call_hands_copies_to_the_engine() {
    let f = Value::foreign(Foreign::Function, 0, 0x1000);
    let args = [Value::from(1), Value::from("2")];
    let call = f.call(None, &args, None);
    assert_eq!(call.function, f);
    assert!(call.this.is_undefined());
    assert_eq!(call.argv.len(), 2);
    assert_eq!(call.argv[0], Value::from(1));
    assert_eq!(call.argv[1], Value::from("2"));
    assert_eq!(call.name, "");

    let call = f.call(Some(Value::from(7)), &[], Some("module.tis"));
    assert_eq!(call.this, Value::from(7));
    assert_eq!(call.argv.len(), 0);
    assert_eq!(call.name, "module.tis");
}

#[test]
fn call_result_tells_failure_from_an_error_value() {
    assert_eq!(Invocation::complete(VALUE_RESULT::OK, Value::from(5)), Ok(Value::from(5)));
    // the script failed: the call is made, the value is an error value
    let r = Invocation::complete(VALUE_RESULT::OK, Value::error("oops"));
    assert!(r.as_ref().unwrap().is_error_string());
    // the call itself failed
    assert_eq!(Invocation::complete(VALUE_RESULT::BAD_PARAMETER, Value::new()), Err(VALUE_RESULT::BAD_PARAMETER));
    assert_eq!(
        Invocation::complete(VALUE_RESULT::INCOMPATIBLE_TYPE, Value::new()),
        Err(VALUE_RESULT::INCOMPATIBLE_TYPE)
    );
    assert_eq!(Invocation::complete(VALUE_RESULT::OK_TRUE, Value::new()), Err(VALUE_RESULT::OK_TRUE));
}

#[test]
fn labels() {
    let mut ids = Identities::new();
    assert_eq!(Value::new().type_label(), "undefined");
    assert_eq!(Value::null().type_label(), "null");
    assert_eq!(Value::from(1).type_label(), "int");
    assert_eq!(Value::from(true).type_label(), "bool");
    assert_eq!(Value::float(0).type_label(), "float");
    assert_eq!(Value::from("s").type_label(), "string");
    assert_eq!(Value::symbol("s").type_label(), "string:symbol");
    assert_eq!(Value::error("s").type_label(), "string:error");
    assert_eq!(Value::from("s").with_unit(2).type_label(), "string:secure");
    assert_eq!(Value::from("s").with_unit(0xfffe).type_label(), "string:file");
    assert_eq!(Value::from("s").with_unit(3).type_label(), "string:3");
    assert_eq!(Value::array(&mut ids, 0).type_label(), "array");
    assert_eq!(Value::map(&mut ids).type_label(), "map");
    assert_eq!(Value::foreign(Foreign::Object, 0, 1).type_label(), "object:array");
    assert_eq!(Value::foreign(Foreign::Object, 4, 1).type_label(), "object:function");
    assert_eq!(Value::foreign(Foreign::Object, 17, 1).type_label(), "object:17");
    assert_eq!(Value::foreign(Foreign::DomObject, 0, 1).type_label(), "dom_object");
    assert_eq!(Value::color(1).type_label(), "color");
}

#[test]
fn debug_strings() {
    assert_eq!(Value::new().debug_string("undefined"), "undefined");
    assert_eq!(Value::null().debug_string("null"), "null");
    assert_eq!(Value::from(true).debug_string("true"), "bool:true");
    assert_eq!(Value::from(123).debug_string("123"), "int:123");
    assert_eq!(Value::symbol("symbol").debug_string("symbol"), "string:symbol:symbol");
    assert_eq!(Value::from("hello").debug_string("\"hello\""), "string:\"hello\"");
}

#[test]
fn arity_is_checked() {
    assert!(check_arity("sum", 2, 2).is_none());
    let e = check_arity("sum", 1, 2).unwrap();
    assert!(e.is_error_string());
    assert_eq!(e.as_string().unwrap(), "sum error: 1 of 2 arguments provided.");
    let e = check_arity("f", 10, 0).unwrap();
    assert_eq!(e.as_string().unwrap(), "f error: 10 of 0 arguments provided.");
}

#[test]
fn arguments_are_converted() {
    let argv = [Value::from(1), Value::from("two"), Value::symbol("three")];
    let a: Result<i32, Value> = argument("sum", 0, "i32", &argv);
    assert_eq!(a, Ok(1));
    let b: Result<String, Value> = argument("sum", 1, "String", &argv);
    assert_eq!(b, Ok("two".to_string()));
    let c: Result<bool, Value> = argument("sum", 0, "bool", &argv);
    assert_eq!(c, Ok(true));
    let d: Result<Value, Value> = argument("sum", 2, "Value", &argv);
    assert_eq!(d, Ok(Value::symbol("three")));

    let e: Result<i32, Value> = argument("sum", 1, "i32", &argv);
    let e = e.unwrap_err();
    assert!(e.is_error_string());
    assert_eq!(e.as_string().unwrap(), "sum error: invalid type of 1 argument (i32 expected, string provided).");
    let e: Result<Vec<u8>, Value> = argument("sum", 2, "Vec<u8>", &argv);
    assert_eq!(
        e.unwrap_err().as_string().unwrap(),
        "sum error: invalid type of 2 argument (Vec<u8> expected, string:symbol provided)."
    );
}

#[test]
fn array_of_values() {
    let mut ids = Identities::new();
    let v = varray(&mut ids, vec![Value::from(1), Value::float(2.0f64.to_bits()), Value::from("three")]);
    assert!(v.is_array());
    assert_eq!(v.len(), 3);
    assert_eq!(v.get(2), Value::from("three"));
    assert!(varray(&mut ids, vec![]).is_empty());
}

#[test]
fn pack_to_overwrites() {
    let mut slot = Value::from("old");
    Value::from(5).pack_to(&mut slot);
    assert_eq!(slot, Value::from(5));
}

#[test]
fn foreign_values_are_carried() {
    let v = Value::foreign(Foreign::DomObject, 0, 0xdead);
    assert!(v.is_dom_element());
    assert_eq!(v.to_foreign(), Some((Foreign::DomObject, 0xdead)));
    assert_eq!(Value::from(1).to_foreign(), None);
    assert!(Value::foreign(Foreign::Date, 0, 1).is_date());
    assert!(Value::foreign(Foreign::Currency, 0, 1).is_currency());
    assert!(Value::foreign(Foreign::Function, 0, 1).is_function());
    assert!(Value::foreign(Foreign::Object, 0, 1).is_object());
    assert_eq!(Value::length(1.5f64.to_bits(), 7).full_type(), (VALUE_TYPE::T_LENGTH, 7));
    assert_eq!(Value::symbol("s").full_type(), (VALUE_TYPE::T_STRING, 0xffff));
}

#[test]
fn data_of_the_engine() {
    assert_eq!(reading(VALUE_TYPE::T_UNDEFINED), Reading::Nothing);
    assert_eq!(reading(VALUE_TYPE::T_NULL), Reading::Nothing);
    assert_eq!(reading(VALUE_TYPE::T_BOOL), Reading::Int);
    assert_eq!(reading(VALUE_TYPE::T_INT), Reading::Int);
    assert_eq!(reading(VALUE_TYPE::T_COLOR), Reading::Int);
    assert_eq!(reading(VALUE_TYPE::T_FLOAT), Reading::Float);
    assert_eq!(reading(VALUE_TYPE::T_LENGTH), Reading::Float);
    assert_eq!(reading(VALUE_TYPE::T_DURATION), Reading::Float);
    assert_eq!(reading(VALUE_TYPE::T_ANGLE), Reading::Float);
    assert_eq!(reading(VALUE_TYPE::T_STRING), Reading::Text);
    assert_eq!(reading(VALUE_TYPE::T_BYTES), Reading::Bytes);
    assert_eq!(reading(VALUE_TYPE::T_ARRAY), Reading::Items);
    assert_eq!(reading(VALUE_TYPE::T_MAP), Reading::Pairs);
    assert_eq!(reading(VALUE_TYPE::T_OBJECT), Reading::Handle);
    assert_eq!(reading(VALUE_TYPE::T_UNKNOWN), Reading::Handle);

    assert_eq!(Value::of_int(VALUE_TYPE::T_INT, 0, -5), Value::from(-5));
    assert_eq!(Value::of_int(VALUE_TYPE::T_BOOL, 0, 1), Value::from(true));
    assert_eq!(Value::of_int(VALUE_TYPE::T_BOOL, 0, 0), Value::from(false));
    assert_eq!(Value::of_int(VALUE_TYPE::T_BOOL, 0, -7), Value::from(true));
    assert_eq!(Value::of_int(VALUE_TYPE::T_COLOR, 0, -1), Value::color(0xFFFF_FFFF));
    assert_eq!(Value::of_int(VALUE_TYPE::T_COLOR, 0, 0xFFFF), Value::color(0xFFFF));
    assert_eq!(Value::of_float(VALUE_TYPE::T_FLOAT, 0, 7), Value::float(7));
    assert!(Value::of_float(VALUE_TYPE::T_DURATION, 0, 7).is_duration());
    assert!(Value::of_float(VALUE_TYPE::T_ANGLE, 0, 7).is_angle());
    assert_eq!(Value::of_float(VALUE_TYPE::T_LENGTH, 7, 9).full_type(), (VALUE_TYPE::T_LENGTH, 7));
    assert_eq!(Value::of_float(VALUE_TYPE::T_LENGTH, 7, 9).to_length(), Some(9));
    assert_eq!(Value::of_handle(VALUE_TYPE::T_ASSET, 2, 9), Value::foreign(Foreign::Asset, 2, 9));
    assert_eq!(Value::of_handle(VALUE_TYPE::T_DOM_OBJECT, 0, 9).to_foreign(), Some((Foreign::DomObject, 9)));

    assert_eq!(Value::from(true).int_data(), Some(1));
    assert_eq!(Value::from(-3).int_data(), Some(-3));
    assert_eq!(Value::color(0x8000_0000).int_data(), Some(i32::MIN));
    assert_eq!(Value::color(0xFFFF_FFFF).int_data(), Some(-1));
    assert_eq!(Value::color(5).int_data(), Some(5));
    assert_eq!(Value::float(1).int_data(), None);
    assert_eq!(Value::float(1).float_data(), Some(1));
    assert_eq!(Value::duration(2).float_data(), Some(2));
    assert_eq!(Value::angle(3).float_data(), Some(3));
    assert_eq!(Value::length(4, 1).float_data(), Some(4));
    assert_eq!(Value::from(1).float_data(), None);

    // the way there and back
    for v in [Value::from(true), Value::from(i32::MIN), Value::color(0xDEAD_BEEF)] {
        let (kind, unit) = v.full_type();
        assert_eq!(Value::of_int(kind, unit, v.int_data().unwrap()), v);
    }
}

#[test]
fn maps_by_index() {
    let mut ids = Identities::new();
    let mut m = Value::map(&mut ids);
    m.set_item(&mut ids, Value::from("a"), Value::from(1));
    m.set_item(&mut ids, Value::from(2), Value::from("b"));
    assert_eq!(m.key(0), Value::from("a"));
    assert_eq!(m.key(1), Value::from(2));
    assert!(m.key(2).is_undefined());
    assert!(Value::array(&mut ids, 3).key(0).is_undefined());
    assert!(Value::from(1).key(0).is_undefined());
}
