use game_engine::base::systems::desc;
use game_engine::base::systems::desc::{
    parse_attribute, Attribute, DescError, Found, Item, Key, Value,
};

fn list(key: Key, values: &[Value]) -> Item {
    Item::List { key, values: values.to_vec() }
}

fn ty(path: usize) -> Item {
    list(Key::Type, &[Value::Path(path)])
}

fn func(path: usize) -> Item {
    list(Key::Fn, &[Value::Path(path)])
}

#[test]
fn a_descriptor_from_one_attribute() {
    let attributes = vec![Attribute::List(vec![ty(3), func(8)])];
    assert_eq!(desc::derive(&attributes), Ok((3, 8)));
    let attributes = vec![Attribute::List(vec![func(8), ty(3)])];
    assert_eq!(desc::derive(&attributes), Ok((3, 8)));
}

#[test]
fn a_descriptor_from_two_attributes() {
    let attributes = vec![Attribute::List(vec![func(1)]), Attribute::List(vec![ty(2)])];
    assert_eq!(desc::derive(&attributes), Ok((2, 1)));
    let attributes = vec![
        Attribute::List(vec![]),
        Attribute::List(vec![ty(2)]),
        Attribute::List(vec![]),
        Attribute::List(vec![func(1)]),
    ];
    assert_eq!(desc::derive(&attributes), Ok((2, 1)));
}

#[test]
fn within_one_attribute_the_last_path_counts() {
    let attributes = vec![Attribute::List(vec![ty(1), func(5), ty(2), func(6)])];
    assert_eq!(desc::derive(&attributes), Ok((2, 6)));
    assert_eq!(
        parse_attribute(0, &Attribute::List(vec![ty(1), ty(2)])),
        Ok(Found { system_type: Some(2), build_fn: None })
    );
}

#[test]
fn what_is_missing() {
    assert_eq!(desc::derive(&vec![]), Err(DescError::TypeMissing));
    assert_eq!(desc::derive(&vec![Attribute::List(vec![])]), Err(DescError::TypeMissing));
    assert_eq!(desc::derive(&vec![Attribute::List(vec![func(1)])]), Err(DescError::TypeMissing));
    assert_eq!(desc::derive(&vec![Attribute::List(vec![ty(1)])]), Err(DescError::FnMissing));
}

#[test]
fn what_is_given_twice() {
    let attributes = vec![Attribute::List(vec![ty(1), func(2)]), Attribute::List(vec![ty(3)])];
    assert_eq!(desc::derive(&attributes), Err(DescError::TypeGivenTwice(1)));
    let attributes = vec![Attribute::List(vec![ty(1), func(2)]), Attribute::List(vec![func(3)])];
    assert_eq!(desc::derive(&attributes), Err(DescError::FnGivenTwice(2)));
    // the system type is looked at first
    let attributes = vec![
        Attribute::List(vec![ty(1), func(2)]),
        Attribute::List(vec![func(4), ty(3)]),
    ];
    assert_eq!(desc::derive(&attributes), Err(DescError::TypeGivenTwice(1)));
}

#[test]
fn what_cannot_be_read() {
    assert_eq!(desc::derive(&vec![Attribute::Other]), Err(DescError::NotAList(0)));
    assert_eq!(desc::derive(&vec![Attribute::Malformed]), Err(DescError::Malformed(0)));
    let attributes = vec![Attribute::List(vec![ty(1), func(2)]), Attribute::Other];
    assert_eq!(desc::derive(&attributes), Err(DescError::NotAList(1)));

    let two = list(Key::Type, &[Value::Path(1), Value::Path(2)]);
    assert_eq!(
        desc::derive(&vec![Attribute::List(vec![func(1), two])]),
        Err(DescError::NotOnePath(0, 1))
    );
    let none = list(Key::Fn, &[]);
    assert_eq!(desc::derive(&vec![Attribute::List(vec![none])]), Err(DescError::NotOnePath(0, 0)));
    let literal = list(Key::Fn, &[Value::Other]);
    assert_eq!(
        desc::derive(&vec![Attribute::List(vec![ty(1), func(2), literal])]),
        Err(DescError::NotAPath(0, 2))
    );
    let named = list(Key::Other, &[Value::Path(1)]);
    assert_eq!(
        desc::derive(&vec![Attribute::List(vec![named, ty(1)])]),
        Err(DescError::NeitherTypeNorFn(0, 0))
    );
    assert_eq!(
        desc::derive(&vec![Attribute::List(vec![ty(1), Item::Other])]),
        Err(DescError::NeitherTypeNorFn(0, 1))
    );
}

#[test]
fn the_first_error_is_reported() {
    // the second attribute is wrong, the third gives the type again
    let attributes = vec![
        Attribute::List(vec![ty(1)]),
        Attribute::List(vec![Item::Other]),
        Attribute::List(vec![ty(2)]),
    ];
    assert_eq!(desc::derive(&attributes), Err(DescError::NeitherTypeNorFn(1, 0)));
    // an error comes before what is missing
    let attributes = vec![Attribute::List(vec![]), Attribute::Malformed];
    assert_eq!(desc::derive(&attributes), Err(DescError::Malformed(1)));
}
