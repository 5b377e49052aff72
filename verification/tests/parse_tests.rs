use petrolc::parse::{atom, cons, list, nil, triplet, Parser};
use petrolc::Value;

#[test]
fn list_of_three_round_trips() {
    let nil_value = Value::new(None, *b"nil ", &[], &[]);
    let cell_c = [Value::new(None, *b"atom", &[], b"c"), nil_value];
    let list_c = Value::new(None, *b"cons", &cell_c, &[]);
    let cell_b = [Value::new(None, *b"atom", &[], b"b"), list_c];
    let list_b = Value::new(None, *b"cons", &cell_b, &[]);
    let cell_a = [Value::new(None, *b"atom", &[], b"a"), list_b];
    let list_a = Value::new(None, *b"cons", &cell_a, &[]);

    let found = list().parse(&list_a).unwrap();
    assert_eq!(found.len(), 3);
    assert!(std::ptr::eq(found[0], &cell_a[0]));
    assert!(std::ptr::eq(found[1], &cell_b[0]));
    assert!(std::ptr::eq(found[2], &cell_c[0]));
    assert_eq!(found[0].atom_name(), Some(&b"a"[..]));
    assert_eq!(found[1].atom_name(), Some(&b"b"[..]));
    assert_eq!(found[2].atom_name(), Some(&b"c"[..]));

    let (first, second, third) = triplet().parse(&list_a).unwrap();
    assert!(std::ptr::eq(first, &cell_a[0]));
    assert!(std::ptr::eq(second, &cell_b[0]));
    assert!(std::ptr::eq(third, &cell_c[0]));
}

#[test]
fn triplet_rejects_shorter_lists() {
    let empty = Value::new(None, *b"nil ", &[], &[]);
    assert!(triplet().parse(&empty).is_none());

    let cell_b = [Value::new(None, *b"atom", &[], b"b"), Value::new(None, *b"nil ", &[], &[])];
    let list_b = Value::new(None, *b"cons", &cell_b, &[]);
    assert!(triplet().parse(&list_b).is_none());

    let cell_a = [Value::new(None, *b"atom", &[], b"a"), list_b];
    let list_a = Value::new(None, *b"cons", &cell_a, &[]);
    assert!(triplet().parse(&list_a).is_none());
    assert_eq!(list().parse(&list_a).unwrap().len(), 2);
}

#[test]
fn triplet_rejects_longer_lists() {
    let cell_d = [Value::new(None, *b"atom", &[], b"d"), Value::new(None, *b"nil ", &[], &[])];
    let list_d = Value::new(None, *b"cons", &cell_d, &[]);
    let cell_c = [Value::new(None, *b"atom", &[], b"c"), list_d];
    let list_c = Value::new(None, *b"cons", &cell_c, &[]);
    let cell_b = [Value::new(None, *b"atom", &[], b"b"), list_c];
    let list_b = Value::new(None, *b"cons", &cell_b, &[]);
    let cell_a = [Value::new(None, *b"atom", &[], b"a"), list_b];
    let list_a = Value::new(None, *b"cons", &cell_a, &[]);
    assert!(triplet().parse(&list_a).is_none());
    assert_eq!(list().parse(&list_a).unwrap().len(), 4);
}

#[test]
fn triplet_rejects_improper_list_of_three() {
    let cell_c = [Value::new(None, *b"atom", &[], b"c"), Value::new(None, *b"atom", &[], b"end")];
    let list_c = Value::new(None, *b"cons", &cell_c, &[]);
    let cell_b = [Value::new(None, *b"atom", &[], b"b"), list_c];
    let list_b = Value::new(None, *b"cons", &cell_b, &[]);
    let cell_a = [Value::new(None, *b"atom", &[], b"a"), list_b];
    let list_a = Value::new(None, *b"cons", &cell_a, &[]);
    assert!(triplet().parse(&list_a).is_none());
}

#[test]
fn triplet_rejects_non_lists() {
    let atom_value = Value::new(None, *b"atom", &[], b"x");
    assert!(triplet().parse(&atom_value).is_none());
}

#[test]
fn list_rejects_improper_list() {
    let cell_b = [Value::new(None, *b"atom", &[], b"b"), Value::new(None, *b"atom", &[], b"end")];
    let list_b = Value::new(None, *b"cons", &cell_b, &[]);
    let cell_a = [Value::new(None, *b"atom", &[], b"a"), list_b];
    let list_a = Value::new(None, *b"cons", &cell_a, &[]);
    assert!(list_a.is_list());
    assert!(!cell_b[1].is_list());
    assert!(list().parse(&list_a).is_none());

    let dotted = [Value::new(None, *b"atom", &[], b"a"), Value::new(None, *b"atom", &[], b"b")];
    let pair = Value::new(None, *b"cons", &dotted, &[]);
    assert!(list().parse(&pair).is_none());
}

#[test]
fn list_rejects_cons_with_one_pointer_as_tail() {
    let short = [Value::new(None, *b"atom", &[], b"only")];
    let broken = Value::new(None, *b"cons", &short, &[]);
    let cell = [Value::new(None, *b"atom", &[], b"a"), broken];
    let value = Value::new(None, *b"cons", &cell, &[]);
    assert!(list().parse(&value).is_none());
}

#[test]
fn list_of_nil_is_empty() {
    let empty = Value::new(None, *b"nil ", &[], &[]);
    let found = list().parse(&empty).unwrap();
    assert!(found.is_empty());
}

#[test]
fn list_rejects_atom() {
    let atom_value = Value::new(None, *b"atom", &[], b"x");
    assert!(list().parse(&atom_value).is_none());
}

#[test]
fn list_keeps_nested_lists_as_elements() {
    let inner_cell = [Value::new(None, *b"atom", &[], b"i"), Value::new(None, *b"nil ", &[], &[])];
    let inner = Value::new(None, *b"cons", &inner_cell, &[]);
    let outer_cell = [inner, Value::new(None, *b"nil ", &[], &[])];
    let outer = Value::new(None, *b"cons", &outer_cell, &[]);
    let found = list().parse(&outer).unwrap();
    assert_eq!(found.len(), 1);
    assert!(std::ptr::eq(found[0], &outer_cell[0]));
    assert!(found[0].is_cons());
}

#[test]
fn atom_matcher_gives_name() {
    let atom_value = Value::new(None, *b"atom", &[], b"define");
    let nil_value = Value::new(None, *b"nil ", &[], &[]);
    assert_eq!(atom().parse(&atom_value), Some(&b"define"[..]));
    assert_eq!(atom().parse(&nil_value), None);
}

#[test]
fn cons_matcher_gives_head_and_tail() {
    let cell = [Value::new(None, *b"atom", &[], b"h"), Value::new(None, *b"atom", &[], b"t")];
    let pair = Value::new(None, *b"cons", &cell, &[]);
    let (head, tail) = cons().parse(&pair).unwrap();
    assert!(std::ptr::eq(head, &cell[0]));
    assert!(std::ptr::eq(tail, &cell[1]));
    assert!(cons().parse(&cell[0]).is_none());
    let nil_value = Value::new(None, *b"nil ", &[], &[]);
    assert!(cons().parse(&nil_value).is_none());
}

#[test]
fn nil_matcher_accepts_only_nil() {
    let nil_value = Value::new(None, *b"nil ", &[], &[]);
    let atom_value = Value::new(None, *b"atom", &[], b"nil ");
    let cell = [Value::new(None, *b"atom", &[], b"h"), Value::new(None, *b"nil ", &[], &[])];
    let pair = Value::new(None, *b"cons", &cell, &[]);
    assert_eq!(nil().parse(&nil_value), Some(()));
    assert_eq!(nil().parse(&atom_value), None);
    assert_eq!(nil().parse(&pair), None);
}

#[test]
fn matching_leaves_the_value_as_it_was() {
    let cell = [Value::new(None, *b"atom", &[], b"a"), Value::new(None, *b"nil ", &[], &[])];
    let value = Value::new(None, *b"cons", &cell, &[]);
    let before = value.hash().0;
    assert!(atom().parse(&value).is_none());
    assert!(triplet().parse(&value).is_none());
    assert_eq!(list().parse(&value).unwrap().len(), 1);
    assert_eq!(value.hash().0, before);
    assert_eq!(value.tag(), *b"cons");
    assert_eq!(value.pointers().len(), 2);
}

#[test]
fn end_to_end_one_element_list() {
    let x = Value::new(None, *b"atom", &[], b"x");
    let end = Value::new(None, *b"nil ", &[], &[]);
    let cell = [x, end];
    let one = Value::new(None, *b"cons", &cell, &[]);

    let found = list().parse(&one).unwrap();
    assert_eq!(found.len(), 1);
    assert!(std::ptr::eq(found[0], &cell[0]));
    assert!(found[0].is_atom());
    assert_eq!(found[0].atom_name(), Some(&b"x"[..]));

    let first = one.hash();
    let second = one.hash();
    assert_eq!(first.0.len(), 32);
    assert_eq!(first.0, second.0);
}
