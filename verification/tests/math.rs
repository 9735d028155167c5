use nalgebra::{
    Complex, Isometry2, Isometry3, Quaternion, RealField, Translation2, Translation3, Unit,
    Vector2, Vector3,
};
use script_bridge::call::{begin, finish, Request, Step};
use script_bridge::metatable::MathOp;
use script_bridge::userdata::Metatable;
use script_bridge::{
    table, Body, BridgeError, Datum, NativeValue, ObjectStore, Repr, TypeKey, TypeKind, Value,
};

trait Word: RealField + Copy {
    fn repr() -> Repr;
    fn to_word(self) -> u64;
    fn of_word(word: u64) -> Self;
}

impl Word for f32 {
    fn repr() -> Repr {
        Repr::F32
    }

    fn to_word(self) -> u64 {
        self.to_bits() as u64
    }

    fn of_word(word: u64) -> f32 {
        f32::from_bits(word as u32)
    }
}

impl Word for f64 {
    fn repr() -> Repr {
        Repr::F64
    }

    fn to_word(self) -> u64 {
        self.to_bits()
    }

    fn of_word(word: u64) -> f64 {
        f64::from_bits(word)
    }
}

fn scalar_in<T: Word>(d: &Datum) -> T {
    match d {
        Datum::Scalar(bits) => T::of_word(*bits),
        other => panic!("no number: {:?}", other),
    }
}

fn vec2_in<T: Word>(d: &Datum) -> Vector2<T> {
    match d {
        Datum::Native(NativeValue { body: Body::Vector2 { x, y }, .. }) => {
            Vector2::new(T::of_word(*x), T::of_word(*y))
        }
        other => panic!("no vector of the plane: {:?}", other),
    }
}

fn vec3_in<T: Word>(d: &Datum) -> Vector3<T> {
    match d {
        Datum::Native(NativeValue { body: Body::Vector3 { x, y, z }, .. }) => {
            Vector3::new(T::of_word(*x), T::of_word(*y), T::of_word(*z))
        }
        other => panic!("no vector of space: {:?}", other),
    }
}

fn iso2_in<T: Word>(d: &Datum) -> Isometry2<T> {
    match d {
        Datum::Native(NativeValue { body: Body::Isometry2 { tx, ty, re, im }, .. }) => {
            Isometry2::from_parts(
                Translation2::new(T::of_word(*tx), T::of_word(*ty)),
                Unit::new_unchecked(Complex::new(T::of_word(*re), T::of_word(*im))),
            )
        }
        other => panic!("no transform of the plane: {:?}", other),
    }
}

fn iso3_in<T: Word>(d: &Datum) -> Isometry3<T> {
    match d {
        Datum::Native(NativeValue {
            body: Body::Isometry3 { tx, ty, tz, qi, qj, qk, qw },
            ..
        }) => Isometry3::from_parts(
            Translation3::new(T::of_word(*tx), T::of_word(*ty), T::of_word(*tz)),
            Unit::new_unchecked(Quaternion::new(
                T::of_word(*qw),
                T::of_word(*qi),
                T::of_word(*qj),
                T::of_word(*qk),
            )),
        ),
        other => panic!("no transform of space: {:?}", other),
    }
}

fn vec2_out<T: Word>(v: Vector2<T>) -> Datum {
    Datum::Native(NativeValue {
        repr: T::repr(),
        body: Body::Vector2 { x: v.x.to_word(), y: v.y.to_word() },
    })
}

fn vec3_out<T: Word>(v: Vector3<T>) -> Datum {
    Datum::Native(NativeValue {
        repr: T::repr(),
        body: Body::Vector3 { x: v.x.to_word(), y: v.y.to_word(), z: v.z.to_word() },
    })
}

fn iso2_out<T: Word>(t: Isometry2<T>) -> Datum {
    Datum::Native(NativeValue {
        repr: T::repr(),
        body: Body::Isometry2 {
            tx: t.translation.vector.x.to_word(),
            ty: t.translation.vector.y.to_word(),
            re: t.rotation.re.to_word(),
            im: t.rotation.im.to_word(),
        },
    })
}

fn iso3_out<T: Word>(t: Isometry3<T>) -> Datum {
    Datum::Native(NativeValue {
        repr: T::repr(),
        body: Body::Isometry3 {
            tx: t.translation.vector.x.to_word(),
            ty: t.translation.vector.y.to_word(),
            tz: t.translation.vector.z.to_word(),
            qi: t.rotation.i.to_word(),
            qj: t.rotation.j.to_word(),
            qk: t.rotation.k.to_word(),
            qw: t.rotation.w.to_word(),
        },
    })
}

fn answer_in<T: Word>(request: &Request) -> Datum {
    let o = &request.operands;
    match (request.key.kind, request.op) {
        (TypeKind::Vector2, MathOp::Add) => vec2_out(vec2_in::<T>(&o[0]) + vec2_in::<T>(&o[1])),
        (TypeKind::Vector2, MathOp::Sub) => vec2_out(vec2_in::<T>(&o[0]) - vec2_in::<T>(&o[1])),
        (TypeKind::Vector2, MathOp::Neg) => vec2_out(-vec2_in::<T>(&o[0])),
        (TypeKind::Vector2, MathOp::Norm) => Datum::Scalar(vec2_in::<T>(&o[0]).norm().to_word()),
        (TypeKind::Vector2, MathOp::Normalize) => {
            let mut v = vec2_in::<T>(&o[0]);
            v.normalize_mut();
            vec2_out(v)
        }
        (TypeKind::Vector2, MathOp::Zeros) => vec2_out(Vector2::<T>::zeros()),
        (TypeKind::Vector2, MathOp::XAxis) => vec2_out(Vector2::<T>::x()),
        (TypeKind::Vector2, MathOp::YAxis) => vec2_out(Vector2::<T>::y()),
        (TypeKind::Vector3, MathOp::Add) => vec3_out(vec3_in::<T>(&o[0]) + vec3_in::<T>(&o[1])),
        (TypeKind::Vector3, MathOp::Sub) => vec3_out(vec3_in::<T>(&o[0]) - vec3_in::<T>(&o[1])),
        (TypeKind::Vector3, MathOp::Neg) => vec3_out(-vec3_in::<T>(&o[0])),
        (TypeKind::Vector3, MathOp::Norm) => Datum::Scalar(vec3_in::<T>(&o[0]).norm().to_word()),
        (TypeKind::Vector3, MathOp::Normalize) => {
            let mut v = vec3_in::<T>(&o[0]);
            v.normalize_mut();
            vec3_out(v)
        }
        (TypeKind::Vector3, MathOp::Zeros) => vec3_out(Vector3::<T>::zeros()),
        (TypeKind::Vector3, MathOp::XAxis) => vec3_out(Vector3::<T>::x()),
        (TypeKind::Vector3, MathOp::YAxis) => vec3_out(Vector3::<T>::y()),
        (TypeKind::Vector3, MathOp::ZAxis) => vec3_out(Vector3::<T>::z()),
        (TypeKind::Isometry2, MathOp::Compose) => {
            iso2_out(Isometry2::new(vec2_in::<T>(&o[0]), scalar_in::<T>(&o[1])))
        }
        (TypeKind::Isometry2, MathOp::Translation) => {
            iso2_out(Isometry2::translation(scalar_in::<T>(&o[0]), scalar_in::<T>(&o[1])))
        }
        (TypeKind::Isometry2, MathOp::Rotation) => {
            iso2_out(Isometry2::rotation(scalar_in::<T>(&o[0])))
        }
        (TypeKind::Isometry2, MathOp::Identity) => iso2_out(Isometry2::<T>::identity()),
        (TypeKind::Isometry3, MathOp::Compose) => {
            iso3_out(Isometry3::new(vec3_in::<T>(&o[0]), vec3_in::<T>(&o[1])))
        }
        (TypeKind::Isometry3, MathOp::Translation) => iso3_out(Isometry3::translation(
            scalar_in::<T>(&o[0]),
            scalar_in::<T>(&o[1]),
            scalar_in::<T>(&o[2]),
        )),
        (TypeKind::Isometry3, MathOp::Rotation) => {
            iso3_out(Isometry3::rotation(vec3_in::<T>(&o[0])))
        }
        (TypeKind::Isometry3, MathOp::Identity) => iso3_out(Isometry3::<T>::identity()),
        (TypeKind::Isometry3, MathOp::Mul) => iso3_out(iso3_in::<T>(&o[0]) * iso3_in::<T>(&o[1])),
        (TypeKind::Isometry3, MathOp::Div) => iso3_out(iso3_in::<T>(&o[0]) / iso3_in::<T>(&o[1])),
        (kind, op) => panic!("{:?} has no {:?}", kind, op),
    }
}

fn answer(request: &Request) -> Datum {
    match request.key.repr {
        Repr::F32 => answer_in::<f32>(request),
        Repr::F64 => answer_in::<f64>(request),
    }
}

fn call(
    store: &mut ObjectStore,
    key: TypeKey,
    table: &Metatable,
    name: &str,
    args: &[Value],
) -> Result<Value, BridgeError> {
    let method = table.methods.find(name).expect("no such method");
    match begin(store, key, method, args)? {
        Step::Done(value) => Ok(value),
        Step::Compute(request) => {
            let outcome = answer(&request);
            finish(store, &request, outcome)
        }
    }
}

fn num(x: f32) -> Value {
    Value::Number(x.to_word())
}

fn as_f32(v: Value) -> f32 {
    match v {
        Value::Number(bits) => f32::of_word(bits),
        other => panic!("no number: {:?}", other),
    }
}

fn coords2(store: &ObjectStore, v: Value) -> (f32, f32) {
    match v {
        Value::Object(h) => match store.get(h).unwrap().body {
            Body::Vector2 { x, y } => (f32::of_word(x), f32::of_word(y)),
            other => panic!("no vector of the plane: {:?}", other),
        },
        other => panic!("no object: {:?}", other),
    }
}

fn words_of(store: &ObjectStore, v: Value) -> Vec<u64> {
    match v {
        Value::Object(h) => store.get(h).unwrap().words(),
        other => panic!("no object: {:?}", other),
    }
}

fn close(a: f32, b: f32) -> bool {
    (a - b).abs() <= 1e-5
}

const V2F: TypeKey = TypeKey { kind: TypeKind::Vector2, repr: Repr::F32 };
const V3F: TypeKey = TypeKey { kind: TypeKind::Vector3, repr: Repr::F32 };
const I3F: TypeKey = TypeKey { kind: TypeKind::Isometry3, repr: Repr::F32 };

#[test]
fn vector2_of_three_and_four_has_norm_five() {
    let ns = table().unwrap();
    let ctor = ns.lookup("Vector2", "f32").unwrap();
    assert_eq!(ctor.key, V2F);
    let mut store = ObjectStore::new();
    let class = Metatable::of_type(ctor.key.kind);
    let values = Metatable::of(ctor.key.kind);
    let v = call(&mut store, ctor.key, &class, "new", &[num(3.0), num(4.0)]).unwrap();
    assert_eq!(coords2(&store, v), (3.0, 4.0));
    let norm = call(&mut store, ctor.key, &values, "norm", &[v]).unwrap();
    assert!(close(as_f32(norm), 5.0));
    let diff = call(&mut store, ctor.key, &values, "sub", &[v, v]).unwrap();
    let zeros = call(&mut store, ctor.key, &class, "zeros", &[]).unwrap();
    assert_eq!(words_of(&store, diff), words_of(&store, zeros));
    assert_eq!(coords2(&store, diff), (0.0, 0.0));
    let by_operator = call(&mut store, ctor.key, &values, "__sub", &[v, v]).unwrap();
    assert_eq!(words_of(&store, by_operator), words_of(&store, zeros));
}

#[test]
fn vector2_of_three_and_four_has_norm_five_in_double_precision() {
    let ns = table().unwrap();
    let ctor = ns.lookup("Vector2", "f64").unwrap();
    let mut store = ObjectStore::new();
    let class = Metatable::of_type(ctor.key.kind);
    let values = Metatable::of(ctor.key.kind);
    let args = [Value::Number(3.0f64.to_bits()), Value::Number(4.0f64.to_bits())];
    let v = call(&mut store, ctor.key, &class, "new", &args).unwrap();
    let norm = call(&mut store, ctor.key, &values, "norm", &[v]).unwrap();
    assert_eq!(norm, Value::Number(5.0f64.to_bits()));
}

#[test]
fn subtracting_what_was_added_gives_the_first_operand_back() {
    let mut store = ObjectStore::new();
    let class = Metatable::of_type(TypeKind::Vector2);
    let values = Metatable::of(TypeKind::Vector2);
    let a = call(&mut store, V2F, &class, "new", &[num(1.5), num(-2.25)]).unwrap();
    let b = call(&mut store, V2F, &class, "new", &[num(0.5), num(4.0)]).unwrap();
    let sum = call(&mut store, V2F, &values, "add", &[a, b]).unwrap();
    assert_eq!(coords2(&store, sum), (2.0, 1.75));
    let back = call(&mut store, V2F, &values, "sub", &[sum, b]).unwrap();
    let (x, y) = coords2(&store, back);
    assert!(close(x, 1.5));
    assert!(close(y, -2.25));
    let class3 = Metatable::of_type(TypeKind::Vector3);
    let values3 = Metatable::of(TypeKind::Vector3);
    let p = call(&mut store, V3F, &class3, "new", &[num(0.1), num(0.2), num(0.3)]).unwrap();
    let q = call(&mut store, V3F, &class3, "new", &[num(7.0), num(-8.0), num(9.5)]).unwrap();
    let sum = call(&mut store, V3F, &values3, "add", &[Value::Nil, p, q]).unwrap();
    let back = call(&mut store, V3F, &values3, "sub", &[Value::Nil, sum, q]).unwrap();
    let got = words_of(&store, back);
    for (word, expected) in got.iter().zip([0.1f32, 0.2, 0.3]) {
        assert!(close(f32::of_word(*word), expected));
    }
}

#[test]
fn output_form_is_bit_for_bit_the_allocating_form() {
    let mut store = ObjectStore::new();
    let class = Metatable::of_type(TypeKind::Vector2);
    let values = Metatable::of(TypeKind::Vector2);
    let a = call(&mut store, V2F, &class, "new", &[num(0.1), num(1.0e-7)]).unwrap();
    let b = call(&mut store, V2F, &class, "new", &[num(0.2), num(3.0e8)]).unwrap();
    let out = call(&mut store, V2F, &class, "zeros", &[]).unwrap();
    for name in ["add", "sub"] {
        let before = store.len();
        let fresh = call(&mut store, V2F, &values, name, &[a, b]).unwrap();
        assert_eq!(store.len(), before + 1);
        let same = call(&mut store, V2F, &values, name, &[a, b, out]).unwrap();
        assert_eq!(same, out);
        assert_eq!(store.len(), before + 1);
        assert_eq!(words_of(&store, out), words_of(&store, fresh));
        assert_ne!(fresh, out);
    }
    let class3 = Metatable::of_type(TypeKind::Vector3);
    let values3 = Metatable::of(TypeKind::Vector3);
    let p = call(&mut store, V3F, &class3, "x_axis", &[]).unwrap();
    let q = call(&mut store, V3F, &class3, "new", &[num(0.3), num(0.6), num(0.9)]).unwrap();
    let out3 = call(&mut store, V3F, &class3, "zeros", &[]).unwrap();
    let fresh = call(&mut store, V3F, &values3, "add", &[Value::Nil, p, q]).unwrap();
    let same = call(&mut store, V3F, &values3, "add", &[out3, p, q]).unwrap();
    assert_eq!(same, out3);
    assert_eq!(words_of(&store, out3), words_of(&store, fresh));
    assert_eq!(
        words_of(&store, out3),
        vec![1.3f32.to_word(), 0.6f32.to_word(), 0.9f32.to_word()]
    );
}

#[test]
fn normalize_mut_gives_a_unit_vector_of_the_same_direction() {
    let mut store = ObjectStore::new();
    let class = Metatable::of_type(TypeKind::Vector2);
    let values = Metatable::of(TypeKind::Vector2);
    let v = call(&mut store, V2F, &class, "new", &[num(3.0), num(4.0)]).unwrap();
    let r = call(&mut store, V2F, &values, "normalize_mut", &[v]).unwrap();
    assert_eq!(r, Value::Nil);
    assert_eq!(store.len(), 1);
    let (x, y) = coords2(&store, v);
    assert!(close(x, 0.6));
    assert!(close(y, 0.8));
    let norm = call(&mut store, V2F, &values, "norm", &[v]).unwrap();
    assert!(close(as_f32(norm), 1.0));
    assert!(close(x * 4.0, y * 3.0));
}

#[test]
fn negation_and_axes() {
    let mut store = ObjectStore::new();
    let class = Metatable::of_type(TypeKind::Vector3);
    let values = Metatable::of(TypeKind::Vector3);
    let z = call(&mut store, V3F, &class, "z_axis", &[]).unwrap();
    assert_eq!(
        words_of(&store, z),
        vec![0.0f32.to_word(), 0.0f32.to_word(), 1.0f32.to_word()]
    );
    let y = call(&mut store, V3F, &class, "y_axis", &[]).unwrap();
    assert_eq!(
        words_of(&store, y),
        vec![0.0f32.to_word(), 1.0f32.to_word(), 0.0f32.to_word()]
    );
    let v = call(&mut store, V3F, &class, "new", &[num(1.0), num(-2.0), num(0.5)]).unwrap();
    let n = call(&mut store, V3F, &values, "__unm", &[v]).unwrap();
    assert_eq!(
        words_of(&store, n),
        vec![(-1.0f32).to_word(), 2.0f32.to_word(), (-0.5f32).to_word()]
    );
    assert_ne!(n, v);
    let class2 = Metatable::of_type(TypeKind::Vector2);
    let x = call(&mut store, V2F, &class2, "x_axis", &[]).unwrap();
    assert_eq!(coords2(&store, x), (1.0, 0.0));
}

#[test]
fn composing_with_a_rotation_and_dividing_by_it_recovers_the_translation() {
    let ns = table().unwrap();
    let ctor = ns.lookup("Isometry3", "f32").unwrap();
    assert_eq!(ctor.key, I3F);
    let mut store = ObjectStore::new();
    let class = Metatable::of_type(TypeKind::Isometry3);
    let values = Metatable::of(TypeKind::Isometry3);
    let vectors = Metatable::of_type(TypeKind::Vector3);
    let t = call(&mut store, I3F, &class, "translation", &[num(1.0), num(0.0), num(0.0)]).unwrap();
    let pi = std::f32::consts::PI;
    let axis = call(&mut store, V3F, &vectors, "new", &[num(0.0), num(0.0), num(pi)]).unwrap();
    let r = call(&mut store, I3F, &class, "rotation", &[axis]).unwrap();
    let composed = call(&mut store, I3F, &values, "mul", &[Value::Nil, t, r]).unwrap();
    let back = call(&mut store, I3F, &values, "div", &[Value::Nil, composed, r]).unwrap();
    let got: Vec<f32> = words_of(&store, back).iter().map(|w| f32::of_word(*w)).collect();
    let want: Vec<f32> = words_of(&store, t).iter().map(|w| f32::of_word(*w)).collect();
    assert_eq!(want, vec![1.0, 0.0, 0.0, 0.0, 0.0, 0.0, 1.0]);
    let same_rotation = got[3..].iter().zip(&want[3..]).all(|(a, b)| close(*a, *b))
        || got[3..].iter().zip(&want[3..]).all(|(a, b)| close(*a, -*b));
    assert!(same_rotation);
    for (a, b) in got[..3].iter().zip(&want[..3]) {
        assert!(close(*a, *b));
    }
    let out = call(&mut store, I3F, &class, "identity", &[]).unwrap();
    let before = store.len();
    let same = call(&mut store, I3F, &values, "div", &[out, composed, r]).unwrap();
    assert_eq!(same, out);
    assert_eq!(store.len(), before);
    assert_eq!(words_of(&store, out), words_of(&store, back));
}

#[test]
fn planar_transform_from_a_vector_and_an_angle() {
    let mut store = ObjectStore::new();
    let i2f = TypeKey { kind: TypeKind::Isometry2, repr: Repr::F32 };
    let class = Metatable::of_type(TypeKind::Isometry2);
    let vectors = Metatable::of_type(TypeKind::Vector2);
    let v = call(&mut store, V2F, &vectors, "new", &[num(2.0), num(-1.0)]).unwrap();
    let t = call(&mut store, i2f, &class, "new", &[v, num(0.0)]).unwrap();
    assert_eq!(
        words_of(&store, t),
        vec![2.0f32.to_word(), (-1.0f32).to_word(), 1.0f32.to_word(), 0.0f32.to_word()]
    );
    let id = call(&mut store, i2f, &class, "identity", &[]).unwrap();
    assert_eq!(
        words_of(&store, id),
        vec![0.0f32.to_word(), 0.0f32.to_word(), 1.0f32.to_word(), 0.0f32.to_word()]
    );
    let tr = call(&mut store, i2f, &class, "translation", &[num(5.0), num(6.0)]).unwrap();
    assert_eq!(
        words_of(&store, tr),
        vec![5.0f32.to_word(), 6.0f32.to_word(), 1.0f32.to_word(), 0.0f32.to_word()]
    );
    let quarter = call(&mut store, i2f, &class, "rotation", &[num(std::f32::consts::FRAC_PI_2)])
        .unwrap();
    let got: Vec<f32> = words_of(&store, quarter).iter().map(|w| f32::of_word(*w)).collect();
    assert!(close(got[2], 0.0));
    assert!(close(got[3], 1.0));
    let wrong = call(&mut store, i2f, &class, "new", &[num(0.0), v]);
    assert_eq!(wrong, Err(BridgeError::TypeMismatch));
}
