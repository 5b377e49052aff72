//! Matchers that take a value apart into a shape, or report that it has
//! another one.

use crate::value::Value;
use vstd::prelude::*;

verus! {

/// A matcher of values. It tries to read one value as a shape of type
/// `Item` and gives `None` where the value has another shape. It looks at
/// the value it is given and at nothing else.
pub trait Parser<'a> {
    type Item: 'a;

    /// Whether `item` is what the matcher finds in `value`.
    spec fn parses(&self, value: &Value<'a>, item: Option<Self::Item>) -> bool;

    /// Try to read `value` as the matcher's shape. The value is left as it
    /// is, whether or not it matches.
    fn parse(&self, value: &Value<'a>) -> (item: Option<Self::Item>)
        ensures
            self.parses(value, item),
    ;
}

/// The value that `steps` tails lead to from `value`. It is meaningful as
/// long as the values on the way are conses.
pub open spec fn nth_tail<'a>(value: Value<'a>, steps: nat) -> Value<'a>
    decreases steps,
{
    if steps == 0 {
        value
    } else {
        nth_tail(value, (steps - 1) as nat).spec_pointers()@[1]
    }
}

/// Whether `value` is a list of exactly `length` elements: that many
/// conses, then a nil.
pub open spec fn is_list_of_length(value: Value, length: nat) -> bool {
    &&& forall|i: nat| i < length ==> (#[trigger] nth_tail(value, i)).spec_is_cons()
    &&& nth_tail(value, length).spec_is_nil()
}

/// The first `length` elements of the list `value`: the heads of its
/// conses.
pub open spec fn elements<'a>(value: Value<'a>, length: nat) -> Seq<Value<'a>> {
    Seq::new(length, |i: int| nth_tail(value, i as nat).spec_pointers()@[0])
}

/// Matches an atom and gives its name.
pub fn atom<'a>() -> (parser: impl Parser<'a, Item = &'a [u8]>)
    ensures
        forall|value: &Value<'a>, item: Option<&'a [u8]>|
            parser.parses(value, item) <==> item == value.spec_atom_name(),
{
    Atom
}

struct Atom;

impl<'a> Parser<'a> for Atom {
    type Item = &'a [u8];

    open spec fn parses(&self, value: &Value<'a>, item: Option<Self::Item>) -> bool {
        item == value.spec_atom_name()
    }

    fn parse(&self, value: &Value<'a>) -> (item: Option<Self::Item>) {
        value.atom_name()
    }
}

/// Matches a cons and gives its head and its tail.
pub fn cons<'a>() -> (parser: impl Parser<'a, Item = (&'a Value<'a>, &'a Value<'a>)>)
    ensures
        forall|value: &Value<'a>, item: Option<(&'a Value<'a>, &'a Value<'a>)>|
            parser.parses(value, item) <==> item == value.spec_list_uncons(),
{
    Cons
}

struct Cons;

impl<'a> Parser<'a> for Cons {
    type Item = (&'a Value<'a>, &'a Value<'a>);

    open spec fn parses(&self, value: &Value<'a>, item: Option<Self::Item>) -> bool {
        item == value.spec_list_uncons()
    }

    fn parse(&self, value: &Value<'a>) -> (item: Option<Self::Item>) {
        value.list_uncons()
    }
}

/// Matches the empty list.
pub fn nil<'a>() -> (parser: impl Parser<'a, Item = ()>)
    ensures
        forall|value: &Value<'a>, item: Option<()>|
            parser.parses(value, item) <==> (item is Some <==> value.spec_is_nil()),
{
    Nil
}

struct Nil;

impl<'a> Parser<'a> for Nil {
    type Item = ();

    open spec fn parses(&self, value: &Value<'a>, item: Option<Self::Item>) -> bool {
        item is Some <==> value.spec_is_nil()
    }

    fn parse(&self, value: &Value<'a>) -> (item: Option<Self::Item>) {
        if value.is_nil() {
            Some(())
        } else {
            None
        }
    }
}

/// What the list matcher finds in `value`: the elements of a list, or
/// nothing where `value` is a list of no length.
pub open spec fn list_parses<'a>(value: Value<'a>, item: Option<Vec<&'a Value<'a>>>) -> bool {
    match item {
        Some(found) => {
            &&& is_list_of_length(value, found@.len())
            &&& found@.map_values(|element: &'a Value<'a>| *element) == elements(
                value,
                found@.len(),
            )
        },
        None => forall|length: nat| !is_list_of_length(value, length),
    }
}

/// Matches a list and gives its elements in order. A chain of conses that
/// ends in anything but a nil is no list, and no part of it is given.
pub fn list<'a>() -> (parser: impl Parser<'a, Item = Vec<&'a Value<'a>>>)
    ensures
        forall|value: &Value<'a>, item: Option<Vec<&'a Value<'a>>>|
            parser.parses(value, item) <==> list_parses(*value, item),
{
    List
}

struct List;

impl<'a> Parser<'a> for List {
    type Item = Vec<&'a Value<'a>>;

    open spec fn parses(&self, value: &Value<'a>, item: Option<Self::Item>) -> bool {
        list_parses(*value, item)
    }

    fn parse(&self, value: &Value<'a>) -> (item: Option<Self::Item>) {
        let mut rest = value;
        let mut result: Vec<&'a Value<'a>> = Vec::new();

        loop
            invariant
                *rest == nth_tail(*value, result@.len()),
                forall|i: nat|
                    i < result@.len() ==> (#[trigger] nth_tail(*value, i)).spec_is_cons(),
                forall|i: int|
                    0 <= i < result@.len() ==> *(#[trigger] result@[i]) == nth_tail(
                        *value,
                        i as nat,
                    ).spec_pointers()@[0],
            ensures
                list_parses(*value, Some(result)),
            decreases rest@,
        {
            proof {
                use_type_invariant(rest);
            }
            if let Some((head, tail)) = rest.list_uncons() {
                proof {
                    assert(rest@.pointers[1] == tail@);
                    assert(nth_tail(*value, (result@.len() + 1) as nat) == *tail);
                }
                result.push(head);
                rest = tail;
                continue ;
            }
            if rest.is_nil() {
                assert(result@.map_values(|element: &'a Value<'a>| *element) =~= elements(
                    *value,
                    result@.len(),
                ));
                break ;
            }
            proof {
                lemma_not_a_list(*value, result@.len());
            }
            return None;
        }

        Some(result)
    }
}

/// What the triplet matcher finds in `value`: the three elements of a
/// list of three, or nothing where `value` is no such list.
pub open spec fn triplet_parses<'a>(
    value: Value<'a>,
    item: Option<(&'a Value<'a>, &'a Value<'a>, &'a Value<'a>)>,
) -> bool {
    match item {
        Some((first, second, third)) => {
            &&& is_list_of_length(value, 3)
            &&& seq![*first, *second, *third] == elements(value, 3)
        },
        None => !is_list_of_length(value, 3),
    }
}

/// Matches a list of exactly three elements and gives them in order.
pub fn triplet<'a>() -> (parser: impl Parser<
    'a,
    Item = (&'a Value<'a>, &'a Value<'a>, &'a Value<'a>),
>)
    ensures
        forall|
            value: &Value<'a>,
            item: Option<(&'a Value<'a>, &'a Value<'a>, &'a Value<'a>)>,
        |
            parser.parses(value, item) <==> triplet_parses(*value, item),
{
    Triplet
}

struct Triplet;

impl<'a> Parser<'a> for Triplet {
    type Item = (&'a Value<'a>, &'a Value<'a>, &'a Value<'a>);

    open spec fn parses(&self, value: &Value<'a>, item: Option<Self::Item>) -> bool {
        triplet_parses(*value, item)
    }

    fn parse(&self, value: &Value<'a>) -> (item: Option<Self::Item>) {
        proof {
            reveal_with_fuel(nth_tail, 4);
        }
        let (elem0, rest) = match value.list_uncons() {
            Some(pair) => pair,
            None => {
                assert(nth_tail(*value, 0) == *value);
                return None;
            },
        };
        let (elem1, rest) = match rest.list_uncons() {
            Some(pair) => pair,
            None => {
                assert(nth_tail(*value, 1) == *rest);
                return None;
            },
        };
        let (elem2, rest) = match rest.list_uncons() {
            Some(pair) => pair,
            None => {
                assert(nth_tail(*value, 2) == *rest);
                return None;
            },
        };
        assert(nth_tail(*value, 3) == *rest);

        if !rest.is_nil() {
            return None;
        }
        assert(seq![*elem0, *elem1, *elem2] =~= elements(*value, 3));

        Some((elem0, elem1, elem2))
    }
}

/// A chain of conses that comes to a value which is neither a cons nor a
/// nil is a list of no length.
pub proof fn lemma_not_a_list(value: Value, steps: nat)
    requires
        forall|i: nat| i < steps ==> (#[trigger] nth_tail(value, i)).spec_is_cons(),
        !nth_tail(value, steps).spec_is_list(),
    ensures
        forall|length: nat| !is_list_of_length(value, length),
{
    assert forall|length: nat| !is_list_of_length(value, length) by {
        if is_list_of_length(value, length) {
            if length < steps {
                assert(nth_tail(value, length).spec_is_cons());
                lemma_cons_is_no_nil(nth_tail(value, length));
            } else if length > steps {
                assert(nth_tail(value, steps).spec_is_cons());
            }
        }
    }
}

/// No value is both a cons and a nil.
pub proof fn lemma_cons_is_no_nil(value: Value)
    ensures
        !(value.spec_is_cons() && value.spec_is_nil()),
{
    assert(crate::value::CONS@[0] != crate::value::NIL@[0]);
}

/// A list has one length only.
pub proof fn lemma_list_length_is_unique(value: Value, shorter: nat, longer: nat)
    requires
        is_list_of_length(value, shorter),
        is_list_of_length(value, longer),
    ensures
        shorter == longer,
{
    if shorter < longer {
        assert(nth_tail(value, shorter).spec_is_cons());
        lemma_cons_is_no_nil(nth_tail(value, shorter));
    } else if longer < shorter {
        assert(nth_tail(value, longer).spec_is_cons());
        lemma_cons_is_no_nil(nth_tail(value, longer));
    }
}

/// A nil is the list of no elements.
pub proof fn lemma_nil_is_empty_list(value: Value)
    requires
        value.spec_is_nil(),
    ensures
        is_list_of_length(value, 0),
        elements(value, 0) == Seq::<Value>::empty(),
{
    assert(elements(value, 0) =~= Seq::<Value>::empty());
}

/// Going one tail further from a value is going as far from its tail.
pub proof fn lemma_nth_tail_of_tail(value: Value, steps: nat)
    ensures
        nth_tail(value, steps + 1) == nth_tail(value.spec_pointers()@[1], steps),
    decreases steps,
{
    assert(nth_tail(value, steps + 1) == nth_tail(value, steps).spec_pointers()@[1]);
    if steps > 0 {
        lemma_nth_tail_of_tail(value, (steps - 1) as nat);
    }
}

/// A cons whose tail is a list is a list itself, one element longer: its
/// head, then the elements of the tail.
pub proof fn lemma_cons_extends_list(value: Value, length: nat)
    requires
        value.spec_is_cons(),
        is_list_of_length(value.spec_pointers()@[1], length),
    ensures
        is_list_of_length(value, length + 1),
        elements(value, length + 1) == seq![value.spec_pointers()@[0]] + elements(
            value.spec_pointers()@[1],
            length,
        ),
{
    let tail = value.spec_pointers()@[1];
    assert forall|i: nat| i < length + 1 implies (#[trigger] nth_tail(value, i)).spec_is_cons() by {
        if i > 0 {
            lemma_nth_tail_of_tail(value, (i - 1) as nat);
            assert(nth_tail(tail, (i - 1) as nat).spec_is_cons());
        }
    }
    lemma_nth_tail_of_tail(value, length);
    assert forall|i: int| 0 <= i < length + 1 implies elements(value, length + 1)[i] == (
    seq![value.spec_pointers()@[0]] + elements(tail, length))[i] by {
        if i > 0 {
            lemma_nth_tail_of_tail(value, (i - 1) as nat);
        }
    }
    assert(elements(value, length + 1) =~= seq![value.spec_pointers()@[0]] + elements(
        tail,
        length,
    ));
}

/// The list matcher finds the list's elements in a list, all of them and
/// in order.
pub proof fn lemma_list_is_accepted<'a>(
    value: Value<'a>,
    length: nat,
    item: Option<Vec<&'a Value<'a>>>,
)
    requires
        is_list_of_length(value, length),
        list_parses(value, item),
    ensures
        item matches Some(found) && found@.map_values(|element: &'a Value<'a>| *element)
            == elements(value, length),
{
    match item {
        Some(found) => {
            lemma_list_length_is_unique(value, length, found@.len());
        },
        None => {},
    }
}

/// The list matcher finds nothing in a chain of conses that ends in
/// anything but a nil: no part of the chain is given.
pub proof fn lemma_improper_list_is_rejected<'a>(
    value: Value<'a>,
    steps: nat,
    item: Option<Vec<&'a Value<'a>>>,
)
    requires
        forall|i: nat| i < steps ==> (#[trigger] nth_tail(value, i)).spec_is_cons(),
        !nth_tail(value, steps).spec_is_list(),
        list_parses(value, item),
    ensures
        item is None,
{
    lemma_not_a_list(value, steps);
}

/// The triplet matcher finds nothing in a list that has more or fewer than
/// three elements.
pub proof fn lemma_triplet_rejects_other_lengths<'a>(
    value: Value<'a>,
    length: nat,
    item: Option<(&'a Value<'a>, &'a Value<'a>, &'a Value<'a>)>,
)
    requires
        is_list_of_length(value, length),
        length != 3,
        triplet_parses(value, item),
    ensures
        item is None,
{
    if is_list_of_length(value, 3) {
        lemma_list_length_is_unique(value, length, 3);
    }
}

} // verus!
