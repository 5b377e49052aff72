//! Values: the tagged nodes that programs and data are made of.

use crate::position::Position;
use std::collections::hash_map::DefaultHasher;
use std::hash::Hasher;
use vstd::bytes::{
    lemma_auto_spec_u64_to_from_le_bytes, spec_u32_to_le_bytes, spec_u64_to_le_bytes,
    u32_to_le_bytes, u64_to_le_bytes,
};
use vstd::cell::invcell::InvCell;
use vstd::predicate::Predicate;
use vstd::prelude::*;
use vstd::std_specs::hash::DefaultHasherAdditionalSpecFns;

verus! {

/// What a value is, structurally: its tag, its children and its payload.
/// Where it was read is no part of it.
pub struct Node {
    pub tag: Seq<u8>,
    pub pointers: Seq<Node>,
    pub bytes: Seq<u8>,
}

/// The byte strings that are fed to the hasher, in order: the tag, the
/// number of children (its low 32 bits, least significant byte first), the
/// length of the payload (64 bits, least significant byte first), each
/// child's hash, and the payload.
pub open spec fn hash_input(tag: Seq<u8>, child_hashes: Seq<Seq<u8>>, bytes: Seq<u8>) -> Seq<
    Seq<u8>,
> {
    seq![
        tag,
        spec_u32_to_le_bytes(child_hashes.len() as u32),
        spec_u64_to_le_bytes(bytes.len() as u64),
    ] + child_hashes + seq![bytes]
}

/// A 64-bit digest written out most significant byte first, four times
/// over, which fills the 32 bytes of a hash.
pub open spec fn digest_bytes(digest: u64) -> Seq<u8> {
    Seq::new(32, |i: int| spec_u64_to_le_bytes(digest)[7 - i % 8])
}

/// The hash of a node with the given tag, children's hashes and payload.
pub open spec fn structural_hash(tag: Seq<u8>, child_hashes: Seq<Seq<u8>>, bytes: Seq<u8>) -> Seq<
    u8,
> {
    digest_bytes(DefaultHasher::spec_finish(hash_input(tag, child_hashes, bytes)))
}

impl Node {
    /// The hashes of the children, first child first.
    pub open spec fn child_hashes(self) -> Seq<Seq<u8>>
        decreases self, 0int,
    {
        Seq::new(
            self.pointers.len(),
            |i: int|
                if 0 <= i < self.pointers.len() {
                    self.pointers[i].hash()
                } else {
                    Seq::empty()
                },
        )
    }

    /// The structural hash of the node.
    pub open spec fn hash(self) -> Seq<u8>
        decreases self, 1int,
    {
        structural_hash(self.tag, self.child_hashes(), self.bytes)
    }
}

/// What the cache cell of a value may hold: nothing yet, or the hash of
/// the node that the value stands for.
struct HashMemo {
    node: Node,
}

impl Predicate<Option<crate::hash::Hash>> for HashMemo {
    closed spec fn predicate(&self, cached: Option<crate::hash::Hash>) -> bool {
        cached matches Some(hash) ==> hash@ == self.node.hash()
    }
}

/// In the compiler, values contain all their usual information, but also
/// their position in the source code. This allows source position to be
/// included in diagnostics and debug information.
///
/// The fields are all private so that they cannot be updated in such a way
/// that the hash cache is compromised.
pub struct Value<'a> {
    position: Option<Position>,
    tag: [u8; 4],
    pointers: &'a [Value<'a>],
    bytes: &'a [u8],
    hash: InvCell<Option<crate::hash::Hash>, HashMemo>,
}

impl<'a> View for Value<'a> {
    type V = Node;

    /// The node that the value stands for: the one whose hash the cache
    /// cell is kept for.
    closed spec fn view(&self) -> Node {
        self.hash.predicate().node
    }
}

impl<'a> Value<'a> {
    /// The node of a value is made of the value's tag, of the nodes of its
    /// children and of its bytes.
    #[verifier::type_invariant]
    pub open spec fn wf(&self) -> bool {
        self@ == (Node {
            tag: self.spec_tag()@,
            pointers: self.spec_pointers()@.map_values(|child: Value<'a>| child@),
            bytes: self.spec_bytes()@,
        })
    }

    pub closed spec fn spec_position(&self) -> Option<Position> {
        self.position
    }

    pub closed spec fn spec_tag(&self) -> [u8; 4] {
        self.tag
    }

    pub closed spec fn spec_pointers(&self) -> &'a [Value<'a>] {
        self.pointers
    }

    pub closed spec fn spec_bytes(&self) -> &'a [u8] {
        self.bytes
    }

    /// Create a new value using the given information.
    pub fn new(
        position: Option<Position>,
        tag: [u8; 4],
        pointers: &'a [Value<'a>],
        bytes: &'a [u8],
    ) -> (value: Self)
        ensures
            value.spec_position() == position,
            value.spec_tag() == tag,
            value.spec_pointers() == pointers,
            value.spec_bytes() == bytes,
            value.wf(),
    {
        let ghost node = Node {
            tag: tag@,
            pointers: pointers@.map_values(|child: Value<'a>| child@),
            bytes: bytes@,
        };
        Value { position, tag, pointers, bytes, hash: InvCell::new(None, Ghost(HashMemo { node })) }
    }

    /// Return the source position of the value, if it has one.
    #[verifier::when_used_as_spec(spec_position)]
    pub fn position(&self) -> (position: Option<Position>)
        ensures
            position == self.spec_position(),
    {
        self.position
    }

    /// Return the tag of the value.
    #[verifier::when_used_as_spec(spec_tag)]
    pub fn tag(&self) -> (tag: [u8; 4])
        ensures
            tag == self.spec_tag(),
    {
        self.tag
    }

    /// Return the pointers of the value.
    #[verifier::when_used_as_spec(spec_pointers)]
    pub fn pointers(&self) -> (pointers: &'a [Value<'a>])
        ensures
            pointers == self.spec_pointers(),
    {
        self.pointers
    }

    /// Return the bytes of the value.
    #[verifier::when_used_as_spec(spec_bytes)]
    pub fn bytes(&self) -> (bytes: &'a [u8])
        ensures
            bytes == self.spec_bytes(),
    {
        self.bytes
    }

    /// Return the hash that identifies the value. Ignores the source
    /// position. The hash is computed when it is first asked for and kept
    /// with the value from then on.
    pub fn hash(&self) -> (hash: crate::hash::Hash)
        ensures
            hash@ == self@.hash(),
        decreases self@, 1int,
    {
        match self.hash.get() {
            Some(hash) => hash,
            None => {
                let hash = self.compute_hash();
                self.hash.set(Some(hash));
                hash
            },
        }
    }

    fn compute_hash(&self) -> (hash: crate::hash::Hash)
        ensures
            hash@ == self@.hash(),
        decreases self@, 0int,
    {
        proof {
            use_type_invariant(self);
        }
        let mut h = DefaultHasher::new();

        h.write(self.tag.as_slice());
        let count = u32_to_le_bytes(#[verifier::truncate] (self.pointers.len() as u32));
        h.write(count.as_slice());
        let length = u64_to_le_bytes(self.bytes.len() as u64);
        h.write(length.as_slice());
        for i in 0..self.pointers.len()
            invariant
                self.wf(),
                h@ == seq![
                    self@.tag,
                    spec_u32_to_le_bytes(self@.pointers.len() as u32),
                    spec_u64_to_le_bytes(self@.bytes.len() as u64),
                ] + self@.child_hashes().take(i as int),
        {
            assert(self@.pointers[i as int] == self.pointers@[i as int]@);
            let child = self.pointers[i].hash();
            h.write(child.0.as_slice());
        }
        h.write(self.bytes);
        assert(h@ == hash_input(self@.tag, self@.child_hashes(), self@.bytes)) by {
            assert(self@.child_hashes().take(self@.pointers.len() as int)
                == self@.child_hashes());
        }

        let digest = u64_to_le_bytes(h.finish());
        proof {
            lemma_auto_spec_u64_to_from_le_bytes();
        }
        let mut bytes = [0u8; 32];
        for i in 0..32usize
            invariant
                digest@.len() == 8,
                forall|j: int| 0 <= j < i ==> bytes@[j] == digest@[7 - j % 8],
        {
            bytes[i] = digest[7 - i % 8];
        }
        assert(bytes@ == digest_bytes(DefaultHasher::spec_finish(h@)));
        crate::hash::Hash(bytes)
    }
}

/// The tag of a list cell: `cons`.
pub const CONS: [u8; 4] = [0x63, 0x6f, 0x6e, 0x73];

/// The tag of the empty list: `nil `, with a trailing space.
pub const NIL: [u8; 4] = [0x6e, 0x69, 0x6c, 0x20];

/// The tag of an atom: `atom`.
pub const ATOM: [u8; 4] = [0x61, 0x74, 0x6f, 0x6d];

fn tag_eq(left: &[u8; 4], right: &[u8; 4]) -> (equal: bool)
    ensures
        equal == (left@ == right@),
{
    let equal = left[0] == right[0] && left[1] == right[1] && left[2] == right[2] && left[3]
        == right[3];
    assert(equal == (left@ =~= right@));
    equal
}

/// List operations.
impl<'a> Value<'a> {
    /// A cons is tagged `cons` and has a head and a tail among its
    /// pointers.
    pub open spec fn spec_is_cons(&self) -> bool {
        self.spec_tag()@ == CONS@ && self.spec_pointers()@.len() >= 2
    }

    /// A nil is tagged `nil `.
    pub open spec fn spec_is_nil(&self) -> bool {
        self.spec_tag()@ == NIL@
    }

    /// A list is a cons or a nil.
    pub open spec fn spec_is_list(&self) -> bool {
        self.spec_is_cons() || self.spec_is_nil()
    }

    /// The head and the tail of a cons.
    pub open spec fn spec_list_uncons(&self) -> Option<(&'a Value<'a>, &'a Value<'a>)> {
        if self.spec_is_cons() {
            Some((&self.spec_pointers()@[0], &self.spec_pointers()@[1]))
        } else {
            None
        }
    }

    /// Return whether the value is a list.
    #[verifier::when_used_as_spec(spec_is_list)]
    pub fn is_list(&self) -> (list: bool)
        ensures
            list == self.spec_is_list(),
    {
        self.is_cons() || self.is_nil()
    }

    /// Return whether the value is a cons.
    #[verifier::when_used_as_spec(spec_is_cons)]
    pub fn is_cons(&self) -> (cons: bool)
        ensures
            cons == self.spec_is_cons(),
    {
        tag_eq(&self.tag, &CONS) && self.pointers.len() >= 2
    }

    /// Return whether the value is a nil.
    #[verifier::when_used_as_spec(spec_is_nil)]
    pub fn is_nil(&self) -> (nil: bool)
        ensures
            nil == self.spec_is_nil(),
    {
        tag_eq(&self.tag, &NIL)
    }

    /// If the value is a cons, return the head and tail of the list. If the
    /// value is not a cons, return None.
    #[verifier::when_used_as_spec(spec_list_uncons)]
    pub fn list_uncons(&self) -> (pair: Option<(&'a Value<'a>, &'a Value<'a>)>)
        ensures
            pair == self.spec_list_uncons(),
    {
        if self.is_cons() {
            Some((&self.pointers[0], &self.pointers[1]))
        } else {
            None
        }
    }
}

/// Atom operations.
impl<'a> Value<'a> {
    /// An atom is tagged `atom`.
    pub open spec fn spec_is_atom(&self) -> bool {
        self.spec_tag()@ == ATOM@
    }

    /// The name of an atom: its bytes.
    pub open spec fn spec_atom_name(&self) -> Option<&'a [u8]> {
        if self.spec_is_atom() {
            Some(self.spec_bytes())
        } else {
            None
        }
    }

    /// Return whether the value is an atom.
    #[verifier::when_used_as_spec(spec_is_atom)]
    pub fn is_atom(&self) -> (atom: bool)
        ensures
            atom == self.spec_is_atom(),
    {
        tag_eq(&self.tag, &ATOM)
    }

    /// If the value is an atom, return its name. If the value is not an atom,
    /// return None.
    #[verifier::when_used_as_spec(spec_atom_name)]
    pub fn atom_name(&self) -> (name: Option<&'a [u8]>)
        ensures
            name == self.spec_atom_name(),
    {
        if self.is_atom() {
            Some(self.bytes)
        } else {
            None
        }
    }
}

impl<'a> Clone for Value<'a> {
    /// A copy of the value: the same position, tag, pointers and bytes, and
    /// the hash if it was computed already.
    fn clone(&self) -> (copy: Self)
        ensures
            copy.spec_position() == self.spec_position(),
            copy.spec_tag() == self.spec_tag(),
            copy.spec_pointers() == self.spec_pointers(),
            copy.spec_bytes() == self.spec_bytes(),
            copy@ == self@,
    {
        proof {
            use_type_invariant(self);
        }
        Value {
            position: self.position,
            tag: self.tag,
            pointers: self.pointers,
            bytes: self.bytes,
            hash: InvCell::new(self.hash.get(), Ghost(self.hash.predicate())),
        }
    }
}

/// The hash of a value is determined by its tag, by the hashes of its
/// children and by its bytes: two values that agree in these have the same
/// hash, wherever they were read and whether or not they are one node.
pub proof fn lemma_hash_determined_by_identity(left: Value, right: Value)
    requires
        left.wf(),
        right.wf(),
        left.spec_tag()@ == right.spec_tag()@,
        left.spec_bytes()@ == right.spec_bytes()@,
        left.spec_pointers()@.len() == right.spec_pointers()@.len(),
        forall|i: int|
            0 <= i < left.spec_pointers()@.len() ==> left.spec_pointers()@[i]@.hash()
                == right.spec_pointers()@[i]@.hash(),
    ensures
        left@.hash() == right@.hash(),
{
    assert(left@.child_hashes() =~= right@.child_hashes());
}

/// The position takes no part in the hash: two values with the same tag,
/// pointers and bytes stand for the same node and have the same hash,
/// whatever their positions are.
pub proof fn lemma_hash_ignores_position(left: Value, right: Value)
    requires
        left.wf(),
        right.wf(),
        left.spec_tag()@ == right.spec_tag()@,
        left.spec_pointers()@ == right.spec_pointers()@,
        left.spec_bytes()@ == right.spec_bytes()@,
    ensures
        left@ == right@,
        left@.hash() == right@.hash(),
{
}

} // verus!
