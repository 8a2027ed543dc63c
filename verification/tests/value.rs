use sciter::scvalue::VALUE_RESULT;
use sciter::value::{Foreign, FromValue, Identities, Invocation, NativeFunctor, Value};
use sciter::version_num;

fn check1(a: i32) {
    assert_eq!(a, 12);
}

#[test]
fn test_from_value() {
    let v = Value::from(12);
    check1(match FromValue::from_value(&v) {
        Some(x) => x,
        None => {
            return;
        }
    });
}

#[test]
fn new_works() {
    let v = Value::new();
    assert!(v.is_undefined());
    assert!(!v.is_null());
}

#[test]
fn null_works() {
    let v = Value::null();
    assert!(!v.is_undefined());
    assert!(v.is_null());
}

#[test]
fn clear_works() {
    let mut v = Value::null();
    assert!(v.is_null());

    v.clear();
    assert!(!v.is_null());
    assert!(v.is_undefined());

    // the result is the value itself
    let mut w = Value::from(7);
    assert!(w.clear().is_undefined());
    w.clear().push(&mut Identities::new(), Value::from(1));
    assert_eq!(w.len(), 1);
}

#[test]
fn symbol_works() {
    let mut v = Value::symbol("hello");
    assert!(v.is_symbol());
    assert!(v.is_string());

    v.clear();
    assert!(v.is_undefined());
}

fn is_color_supported() -> bool {
    // e.g. `0x04000100`
    version_num(0x0004_0004, 0x0005_0000) > 0x04000100
}

#[test]
fn color_works() {
    if !is_color_supported() {
        return;
    }

    // yellow R255, G255, B000
    // RGBA form in memory, ABGR in integer.
    let v = Value::color(0x0000FFFF);
    assert!(v.is_color());
    assert_eq!(v.to_color(), Some(0x0000FFFF));
}

#[test]
fn duration_works() {
    if !is_color_supported() {
        return;
    }

    let v = Value::duration(12.5f64.to_bits());
    assert!(v.is_duration());
    assert_eq!(v.to_duration().map(f64::from_bits), Some(12.5));
}

#[test]
fn angle_works() {
    if !is_color_supported() {
        return;
    }

    let v = Value::angle(1.0f64.to_bits());
    assert!(v.is_angle());
    assert_eq!(v.to_angle().map(f64::from_bits), Some(1.0));
}

#[test]
fn array_works() {
    let mut ids = Identities::new();
    let v = Value::array(&mut ids, 0);
    assert!(v.is_array());
    assert!(v.len() == 0);

    let v = Value::array(&mut ids, 17);
    assert!(v.is_array());
    assert!(v.len() == 17);
}

#[test]
fn map_works() {
    let mut ids = Identities::new();
    let v = Value::map(&mut ids);
    assert!(v.is_map());
    assert!(v.len() == 0);
}

#[test]
fn from_bool_works() {
    let v = Value::from(true);
    assert!(v.is_bool());
    let v = Value::from(false);
    assert!(v.is_bool());
}

#[test]
fn from_int_works() {
    let v = Value::from(1);
    assert!(v.is_int());
    assert!(!v.is_bool());

    let _ = Value::from(1 as i32);
}

#[test]
fn from_float_works() {
    let v = Value::float(1.0f64.to_bits());
    assert!(v.is_float());
}

#[test]
fn from_str_works() {
    let v = Value::from("hello");
    assert!(v.is_string());

    let s = String::from("hello");
    let v = Value::from(s.as_str());
    assert!(v.is_string());
}

#[test]
fn from_int_seq_works() {
    let mut ids = Identities::new();
    let v = Value::from_values(&mut ids, [1, 2, 3].iter().cloned().map(Value::from).collect());
    assert!(v.is_array());
    assert_eq!(v.len(), 3);
}

#[test]
fn from_str_seq_works() {
    let mut ids = Identities::new();
    // &str
    let v = Value::from_values(&mut ids, ["1", "2", "3"].iter().cloned().map(Value::from).collect());
    assert!(v.is_array());
    assert_eq!(v.len(), 3);

    // String
    let v = Value::from_values(&mut ids, ["1", "2", "3"].iter().map(|x| Value::from(x.to_string())).collect());
    assert!(v.is_array());
    assert_eq!(v.len(), 3);
    assert_eq!(v.get(2).as_string(), Some("3".to_string()));
}

#[test]
fn from_function_works() {
    // create from lambda
    let f = NativeFunctor::wrap(|args: &[Value]| Value::from(args.len() as i32));
    assert!(!f.is_released());
    // the value by which script holds the function
    let v = Value::foreign(Foreign::Function, 0, 1);
    assert!(v.is_function());

    let args = [Value::from(17), Value::from(42)];
    let call = v.call(None, &args, None);
    assert_eq!(call.function, v);
    assert!(call.this.is_undefined());

    // the engine's part: it invokes the functor with what it was handed
    let mut rv = Value::new();
    let ok = if f.invoke(&call.argv, &mut rv) { VALUE_RESULT::OK } else { VALUE_RESULT::BAD_PARAMETER };
    let r = Invocation::complete(ok, rv);

    assert!(r.is_ok());
    assert_eq!(r.unwrap(), Value::from(args.len() as i32));

    // create from function
    fn inner_fn(args: &[Value]) -> Value {
        let mut ids = Identities::new();
        Value::array(&mut ids, args.len())
    }

    let f = NativeFunctor::wrap(inner_fn);
    assert!(!f.is_released());
    let mut r = Value::new();
    assert!(f.invoke(&args, &mut r));
    assert!(r.is_array());
    assert_eq!(r.len(), 2);
}

#[test]
fn pack_args_works() {
    let args = Value::pack_args(&[]);
    assert_eq!(args.len(), 0);

    let args = Value::pack_args(&[Value::from(777)]);
    assert_eq!(args.len(), 1);

    let args = Value::pack_args(&[Value::from(1), Value::from(2), Value::from(3)]);
    assert_eq!(args.len(), 3);

    let args = Value::pack_args(&[Value::from(1), Value::from("2"), Value::float(3.0f64.to_bits())]);
    assert_eq!(args.len(), 3);

    let args = Value::pack_args(&[Value::from(1), Value::from(2), Value::from(3)]);
    let unpacked = Value::unpack_from(&args);
    assert_eq!(unpacked.len(), 3);
    assert_eq!(unpacked[0], Value::from(1));
}

#[test]
fn make_args_works() {
    let args: [Value; 0] = [];
    assert_eq!(args.len(), 0);

    let args = [Value::from(777)];
    assert_eq!(args.len(), 1);

    let args = [Value::from(1), Value::from(2), Value::from(3)];
    assert_eq!(args.len(), 3);

    let args = [Value::from(1), Value::from("2"), Value::float(3.0f64.to_bits())];
    assert_eq!(args.len(), 3);
}

#[test]
fn append_works() {
    let mut ids = Identities::new();
    let mut v = Value::new();
    v.push(&mut ids, Value::from(1));
    v.push(&mut ids, Value::from("2"));
    v.push(&mut ids, Value::float(3.0f64.to_bits()));
    v.push(&mut ids, Value::from(false));

    assert!(v.is_array());
    assert_eq!(v.len(), 4);
}

#[test]
fn to_works() {
    // Value has some implicit conversions:
    // bool or int -> int
    // int or float -> float

    let vint = Value::from(1);
    assert!(vint.is_int());
    assert!(vint.to_int().is_some());
    assert!(vint.to_float().is_some());
    assert_eq!(vint.to_int().unwrap(), 1);

    let vbool = Value::from(false);
    assert!(vbool.is_bool());
    assert!(!vbool.is_int());
    assert!(vbool.to_bool().is_some());
    assert!(vbool.to_int().is_some());
    assert_eq!(vbool.to_bool().unwrap(), false);

    assert_eq!(f64::from_bits(Value::float(3.14f64.to_bits()).to_float().unwrap()), 3.14);

    assert_eq!(Value::from("3.14").as_string().unwrap(), "3.14");
}

#[test]
fn into_works() {
    let mut ids = Identities::new();
    let v = Value::from(1);
    assert!(v.is_int());

    let v: Value = Value::from(1);
    assert!(v.is_int());

    let v: Value = 1.into();
    assert!(v.is_int());

    let mut v = Value::new();
    v.push(&mut ids, false.into());
    v.push(&mut ids, 1.into());
    v.push(&mut ids, Value::float(3.0f64.to_bits()));
    v.push(&mut ids, "2".into());
    assert!(v.is_array());
    assert_eq!(v.len(), 4);
}

#[test]
fn bytes_works() {
    let b = [1, 2, 3];
    let v = Value::from(&b[..]);
    assert!(v.is_bytes());
    assert_eq!(v.as_bytes().expect("must be bytes"), [1, 2, 3]);
}

#[test]
fn index_works() {
    let mut ids = Identities::new();
    let mut v = Value::new();
    v.push(&mut ids, Value::from(1));
    v.push(&mut ids, Value::from(2));
    v.push(&mut ids, Value::from(3));

    println!("v {:?}", v);

    assert_eq!(v.len(), 3);
    assert_eq!(v.get(0), 1.into());

    v.set(&mut ids, 1, 17.into());
    assert_eq!(v.get(1), 17.into());

    // {"5": 5, "6": 6, seven: "seven"}
    let mut v = Value::map(&mut ids);
    v.set_item(&mut ids, Value::from("5"), Value::from(5));
    v.set_item(&mut ids, Value::from("6"), Value::from(6));
    v.set_item(&mut ids, Value::symbol("seven"), Value::from("seven"));
    let key = Value::from("seven");
    v.set_item(&mut ids, key.clone(), Value::float(7.0f64.to_bits()));
    println!("map {:?}", v);
    assert_eq!(v.get_item(&key), Value::float(7.0f64.to_bits()));

    // simple syntax:
    let mut v = Value::map(&mut ids);
    v.set_item(&mut ids, "seven".into(), 7.into());
    assert_eq!(v.get_item(&"seven".into()), 7.into());
}

#[test]
fn debug_works() {
    println!(
        "\nvalue strings: {:?}, {:?}, {:?}, {:?}, {:?}, {:?}, {:?}",
        Value::new().debug_string("undefined"),
        Value::null().debug_string("null"),
        Value::from(true).debug_string("true"),
        Value::from(123).debug_string("123"),
        Value::float(3.14f64.to_bits()).debug_string("3.14"),
        Value::symbol("symbol").debug_string("symbol"),
        Value::from("hello").debug_string("\"hello\"")
    );
}
