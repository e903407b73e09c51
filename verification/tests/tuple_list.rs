use game_engine::base::tuple_list::{
    TupleList, TupleListPopBack, TupleListPopFront, TupleListPushBack, TupleListPushFront,
};

#[test]
fn tuples_are_lists() {
    let list3 = (true, 5.0f32, 1u32);
    let list4 = list3.push_back(Some(-3i32));

    assert_eq!(list4, (true, 5.0f32, 1u32, Some(-3i32)));
    assert_eq!(list4.pop_back().1, list3);
    assert_eq!(list3.pop_front().0, true);
}

#[test]
fn pushing_and_popping_at_both_ends() {
    assert_eq!(().push_front(1u8), (1u8,));
    assert_eq!(().push_back("a"), ("a",));
    assert_eq!((1u8,).push_front('x'), ('x', 1u8));
    assert_eq!((1u8,).push_back('x'), (1u8, 'x'));
    assert_eq!((1u8, 'x', "s").push_front(2i64), (2i64, 1u8, 'x', "s"));
    assert_eq!((1u8, 'x', "s").pop_front(), (1u8, ('x', "s")));
    assert_eq!((1u8, 'x', "s").pop_back(), ("s", (1u8, 'x')));
    assert_eq!((7u8,).pop_front(), (7u8, ()));
    assert_eq!((7u8,).pop_back(), (7u8, ()));
}

#[test]
fn lengths_of_lists() {
    assert_eq!(<() as TupleList>::LENGTH, 0);
    assert_eq!(<(u8,) as TupleList>::LENGTH, 1);
    assert_eq!(<(u8, bool, char) as TupleList>::LENGTH, 3);
    type Long = (
        u8, u8, u8, u8, u8, u8, u8, u8, u8, u8, u8, u8, u8,
        u8, u8, u8, u8, u8, u8, u8, u8, u8, u8, u8, u8, u8,
    );
    assert_eq!(<Long as TupleList>::LENGTH, 26);
}

#[test]
fn the_longest_lists() {
    let twenty_five = (
        1, 2, 3, 4, 5, 6, 7, 8, 9, 10, 11, 12, 13, 14, 15, 16, 17, 18, 19, 20, 21, 22, 23, 24, 25,
    );
    let back = twenty_five.push_back('z');
    assert_eq!(back.25, 'z');
    assert_eq!(back.0, 1);
    let (last, rest) = back.pop_back();
    assert_eq!(last, 'z');
    assert_eq!(rest.24, 25);
    let front = twenty_five.push_front('a');
    assert_eq!(front.0, 'a');
    assert_eq!(front.25, 25);
    let (first, rest) = front.pop_front();
    assert_eq!(first, 'a');
    assert_eq!(rest.0, 1);
    assert_eq!(rest.24, 25);
}
