use shallowclone::{CoCow, CoCowSlice, HoverActionShowEntity, MakeOwned, ShallowClone};

struct MyStruct<'a>(#[allow(dead_code)] &'a ());

impl<'a> Clone for MyStruct<'a> {
    fn clone(&self) -> Self {
        MyStruct(self.0)
    }
}

#[test]
fn test_covariance() {
    // make sure these cows are actually covariant
    let u = ();

    let x = MyStruct(&u);
    let cocow: CoCow<MyStruct> = CoCow::from(x);
    fn test<'a>(_: CoCow<'a, MyStruct<'a>>) {}
    test(cocow.shallow_clone());

    let y = [(); 100].map(|_| MyStruct(&u));
    let cocow_slice: CoCowSlice<MyStruct> = CoCowSlice::from(&y[..]);
    fn test_slice<'a>(_: CoCowSlice<'a, MyStruct<'a>>) {}
    test_slice(cocow_slice.shallow_clone());
}

#[test]
fn cocow_into_owned_returns_payload() {
    let c: CoCow<u32> = CoCow::Owned(7);
    assert_eq!(c.into_owned(), 7);

    let x: u32 = 9;
    let c: CoCow<u32> = CoCow::Borrowed(&x);
    assert_eq!(c.into_owned(), 9);
}

#[test]
fn cocow_to_mut_makes_owned() {
    let x: u32 = 5;
    let mut c: CoCow<u32> = CoCow::Borrowed(&x);
    assert!(c.is_borrowed());
    *c.to_mut() = 6;
    assert!(c.is_owned());
    assert_eq!(*c.get(), 6);
    assert_eq!(x, 5);
}

#[test]
fn cocow_flags_and_get() {
    let c: CoCow<u32> = CoCow::Owned(1);
    assert!(c.is_owned());
    assert!(!c.is_borrowed());
    assert_eq!(*c.get(), 1);
}

#[test]
fn cocowslice_into_owned_clones_items() {
    let items = vec![1u32, 2, 3];
    let c: CoCowSlice<u32> = CoCowSlice::Borrowed(&items);
    assert_eq!(c.into_owned(), vec![1, 2, 3]);

    let c: CoCowSlice<u32> = CoCowSlice::Owned(vec![4, 5]);
    assert_eq!(c.into_owned(), vec![4, 5]);
}

#[test]
fn cocowslice_to_mut_makes_owned() {
    let items = vec![1u32, 2];
    let mut c: CoCowSlice<u32> = CoCowSlice::Borrowed(&items);
    assert!(c.is_borrowed());
    c.to_mut().push(3);
    assert!(c.is_owned());
    assert_eq!(c.get(), &[1, 2, 3][..]);
    assert_eq!(items, vec![1, 2]);
}

#[test]
fn shallow_view_of_owned_is_borrowed() {
    let c: CoCow<u32> = CoCow::Owned(11);
    let v = c.shallow_clone();
    assert!(v.is_borrowed());
    assert_eq!(*v.get(), 11);
}

#[test]
fn shallow_view_of_borrowed_keeps_referent() {
    let x: u32 = 3;
    let c: CoCow<u32> = CoCow::Borrowed(&x);
    let v = c.shallow_clone();
    assert!(v.is_borrowed());
    assert_eq!(*v.get(), 3);
    // no added indirection: the view borrows the same referent
    match (c, v) {
        (CoCow::Borrowed(a), CoCow::Borrowed(b)) => {
            assert!(std::ptr::eq(a, b));
        }
        _ => panic!("both must be borrowed"),
    }
}

#[test]
fn slice_shallow_view_keeps_items() {
    let items = vec![1u8, 2, 3];
    let c: CoCowSlice<u8> = CoCowSlice::Owned(items);
    let v = c.shallow_clone();
    assert!(v.is_borrowed());
    assert_eq!(v.get(), &[1, 2, 3][..]);
}

#[test]
fn detach_then_view_round_trip() {
    let text = String::from("payload");
    let c: CoCow<String> = CoCow::Borrowed(&text);
    let o = c.make_owned();
    assert!(o.is_owned());
    let v = o.shallow_clone();
    assert!(v.is_borrowed());
    // the view references the detached result's payload, equal in content
    assert_eq!(v.get(), "payload");
    match (&o, &v) {
        (CoCow::Owned(w), CoCow::Borrowed(b)) => {
            assert!(std::ptr::eq(w, *b));
        }
        _ => panic!("detached must be owned, view must be borrowed"),
    }
}

#[test]
fn slice_detach_then_view_round_trip() {
    let items = vec![String::from("a"), String::from("b")];
    let c: CoCowSlice<String> = CoCowSlice::Borrowed(&items);
    let o = c.make_owned();
    assert!(o.is_owned());
    let v = o.shallow_clone();
    assert!(v.is_borrowed());
    assert_eq!(v.get().len(), 2);
    assert_eq!(v.get()[0], "a");
    assert_eq!(v.get()[1], "b");
}

#[test]
fn make_owned_base_cases() {
    assert_eq!(7u16.make_owned(), 7u16);
    assert_eq!('x'.make_owned(), 'x');
    assert_eq!(true.make_owned(), true);
    assert_eq!(String::from("s").make_owned(), String::from("s"));
    assert_eq!(Some(3u64).make_owned(), Some(3u64));
    assert_eq!(None::<u8>.make_owned(), None::<u8>);
    assert_eq!(vec![1u32, 2].make_owned(), vec![1u32, 2]);
    assert_eq!(Box::new(5i64).make_owned(), Box::new(5i64));
}

#[test]
fn shallow_clone_base_cases() {
    assert_eq!(7u16.shallow_clone(), 7u16);
    assert_eq!('x'.shallow_clone(), 'x');
    assert_eq!(false.shallow_clone(), false);
    assert_eq!(String::from("s").shallow_clone(), String::from("s"));
    assert_eq!(Some(3u64).shallow_clone(), Some(3u64));
    assert_eq!(vec![1u32, 2].shallow_clone(), vec![1u32, 2]);
    assert_eq!(Box::new(5i64).shallow_clone(), Box::new(5i64));
    let x: u32 = 4;
    let r: &u32 = &x;
    let s: &u32 = ShallowClone::shallow_clone(&r);
    assert_eq!(*s, 4);
}

#[test]
fn array_base_cases() {
    let a: [u16; 3] = [1, 2, 3];
    assert_eq!(a.make_owned(), [1, 2, 3]);
    assert_eq!(a.shallow_clone(), [1, 2, 3]);

    let arr = [CoCow::Owned(String::from("x"))];
    let view = arr.shallow_clone();
    assert!(view[0].is_borrowed());
    let owned = view.make_owned();
    assert!(owned[0].is_owned());
    assert_eq!(owned[0].get(), "x");
}

#[test]
fn cocow_from_and_default() {
    let c: CoCow<u32> = CoCow::from(5u32);
    assert!(c.is_owned());
    let x: u32 = 6;
    let c: CoCow<u32> = CoCow::from(&x);
    assert!(c.is_borrowed());
    let c: CoCow<u32> = Default::default();
    assert_eq!(*c.get(), 0);
    let s: CoCowSlice<u32> = CoCowSlice::from(vec![1, 2]);
    assert!(s.is_owned());
    let v = vec![3u32];
    let s: CoCowSlice<u32> = CoCowSlice::from(&v[..]);
    assert!(s.is_borrowed());
    let s: CoCowSlice<u32> = Default::default();
    assert!(s.is_owned());
    assert_eq!(s.get().len(), 0);
}

#[test]
fn hover_entity_round_trip() {
    let id_text = String::from("0-0-0-0-0");
    let entity = HoverActionShowEntity {
        entity_type: CoCow::Owned(String::from("minecraft:pig")),
        id: CoCow::Borrowed(&id_text),
        name: Some(CoCow::Owned(String::from("Pig"))),
    };
    let view = entity.shallow_clone();
    assert!(view.entity_type.is_borrowed());
    assert!(view.id.is_borrowed());
    assert_eq!(view.entity_type.get(), "minecraft:pig");
    let owned = view.make_owned();
    assert!(owned.entity_type.is_owned());
    assert!(owned.id.is_owned());
    assert_eq!(owned.id.get(), "0-0-0-0-0");
    match owned.name {
        Some(n) => assert_eq!(n.get(), "Pig"),
        None => panic!("name must survive the round trip"),
    }
}

#[test]
fn pair_view_then_detach_preserves_content() {
    // a record of two scalars and a text payload, transformed field for field
    // exactly as a generated implementation would
    let p = (1u16, 2u32, CoCow::Owned(String::from("text")));
    let v = (
        ShallowClone::shallow_clone(&p.0),
        ShallowClone::shallow_clone(&p.1),
        ShallowClone::shallow_clone(&p.2),
    );
    assert_eq!(v.0, 1);
    assert_eq!(v.1, 2);
    assert!(v.2.is_borrowed());
    assert_eq!(v.2.get(), "text");
    let o = (v.0.make_owned(), v.1.make_owned(), v.2.make_owned());
    assert_eq!(o.0, p.0);
    assert_eq!(o.1, p.1);
    assert!(o.2.is_owned());
    assert_eq!(o.2.get(), p.2.get());
}
