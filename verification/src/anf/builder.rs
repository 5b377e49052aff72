//! Building A-normal form one binding at a time.

use crate::anf::{Anf, Binding, Complex, Global, Local, Simple};
use crate::arenas::Arenas;
use crate::value::Value;
use vstd::prelude::*;

verus! {

/// Whether each binding of the sequence is named by its place in it: the
/// first binds local 0, the next local 1, and so on.
pub open spec fn numbered(bindings: Seq<Binding>) -> bool {
    forall|i: int| 0 <= i < bindings.len() ==> (#[trigger] bindings[i]).result.id == i
}

/// The bindings after one more call is emitted: the call is bound to the
/// next unused local and comes last.
pub open spec fn emit<'a>(
    bindings: Seq<Binding<'a>>,
    routine: Global<'a>,
    arguments: &'a [Simple<'a>],
) -> Seq<Binding<'a>> {
    bindings.push(
        Binding {
            result: Local { id: bindings.len() as u64 },
            expression: Complex::CallRoutine { routine, arguments },
        },
    )
}

/// The ANF builder provides an EDSL for generating ANF bindings. The ANF
/// builder takes care of generating binding names and accumulating
/// bindings, which you can turn into an ANF expression when done.
pub struct AnfBuilder<'a> {
    next_local: Local,
    bindings: Vec<Binding<'a>>,
}

impl<'a> View for AnfBuilder<'a> {
    type V = Seq<Binding<'a>>;

    /// The bindings emitted so far, in the order of their emission.
    closed spec fn view(&self) -> Seq<Binding<'a>> {
        self.bindings@
    }
}

impl<'a> AnfBuilder<'a> {
    /// The next local is the number of bindings emitted so far, and the
    /// bindings are named by their places.
    #[verifier::type_invariant]
    pub closed spec fn wf(&self) -> bool {
        &&& self.next_local.id == self.bindings@.len()
        &&& numbered(self.bindings@)
    }

    /// Create a new ANF builder with no bindings.
    pub fn new() -> (builder: Self)
        ensures
            builder@ == Seq::<Binding<'a>>::empty(),
    {
        Self { next_local: Local { id: 0 }, bindings: Vec::new() }
    }

    /// Return the constructed bindings along with a result simple. To
    /// simplify lifetime management, the bindings will be moved to the
    /// arena.
    pub fn finish(self, arenas: &'a Arenas<'a>, result: Simple<'a>) -> (anf: Anf<'a>)
        ensures
            anf.bindings@ == self@,
            anf.result == result,
            numbered(anf.bindings@),
    {
        proof {
            use_type_invariant(&self);
        }
        let bindings = arenas.bindings.alloc(self.bindings);
        Anf { bindings: bindings.as_slice(), result }
    }

    fn bind(&mut self, expression: Complex<'a>) -> (simple: Simple<'a>)
        ensures
            final(self)@ == old(self)@.push(
                Binding { result: Local { id: old(self)@.len() as u64 }, expression },
            ),
            simple == Simple::Local(Local { id: old(self)@.len() as u64 }),
    {
        proof {
            use_type_invariant(&*self);
        }
        let mut emitting = AnfBuilder::new();
        std::mem::swap(self, &mut emitting);
        let AnfBuilder { next_local: result, mut bindings } = emitting;

        bindings.push(Binding { result, expression });
        assert(bindings.len() == result.id + 1);
        *self = AnfBuilder { next_local: Local { id: result.id + 1 }, bindings };

        Simple::Local(result)
    }

    /// Create a local simple. This is provided for consistency, but does
    /// not use self.
    pub fn local(&self, local: Local) -> (simple: Simple<'a>)
        ensures
            simple == Simple::<'a>::Local(local),
    {
        Simple::Local(local)
    }

    /// Create a quote simple. This is provided for consistency, but does
    /// not use self.
    pub fn quote(&self, value: &'a Value<'a>) -> (simple: Simple<'a>)
        ensures
            simple == Simple::Quote(value),
    {
        Simple::Quote(value)
    }

    /// Bind a CallRoutine expression and return its result.
    pub fn call_routine(&mut self, routine: Global<'a>, arguments: &'a [Simple<'a>]) -> (simple:
        Simple<'a>)
        ensures
            final(self)@ == emit(old(self)@, routine, arguments),
            simple == Simple::Local(Local { id: old(self)@.len() as u64 }),
    {
        self.bind(Complex::CallRoutine { routine, arguments })
    }
}

/// Whether an operand may stand where `bound` bindings precede it: a
/// local must be the result of one of them, a literal may stand anywhere.
pub open spec fn in_scope(simple: Simple, bound: nat) -> bool {
    simple matches Simple::Local(local) ==> local.id < bound
}

/// The operands of a binding's expression.
pub open spec fn operands<'a>(binding: Binding<'a>) -> Seq<Simple<'a>> {
    match binding.expression {
        Complex::CallRoutine { arguments, .. } => arguments@,
    }
}

/// Whether no binding of the sequence refers to itself or to a later one.
pub open spec fn forward_reference_free(bindings: Seq<Binding>) -> bool {
    forall|i: int, j: int|
        0 <= i < bindings.len() && 0 <= j < operands(bindings[i]).len() ==> in_scope(
            #[trigger] operands(bindings[i])[j],
            i as nat,
        )
}

/// Bindings come out in the order in which they were emitted: a call that
/// is emitted after `bindings` leaves them where they are, comes last and
/// is bound to the local whose number is its place.
pub proof fn lemma_emit_in_order<'a>(
    bindings: Seq<Binding<'a>>,
    routine: Global<'a>,
    arguments: &'a [Simple<'a>],
)
    requires
        numbered(bindings),
        bindings.len() <= u64::MAX,
    ensures
        numbered(emit(bindings, routine, arguments)),
        emit(bindings, routine, arguments).len() == bindings.len() + 1,
        emit(bindings, routine, arguments).take(bindings.len() as int) == bindings,
        emit(bindings, routine, arguments).last() == (Binding {
            result: Local { id: bindings.len() as u64 },
            expression: Complex::CallRoutine { routine, arguments },
        }),
{
    assert(emit(bindings, routine, arguments).take(bindings.len() as int) =~= bindings);
}

/// A call whose arguments are literals and results of earlier bindings
/// keeps the bindings free of forward references.
pub proof fn lemma_emit_keeps_scope<'a>(
    bindings: Seq<Binding<'a>>,
    routine: Global<'a>,
    arguments: &'a [Simple<'a>],
)
    requires
        forward_reference_free(bindings),
        forall|j: int| 0 <= j < arguments@.len() ==> in_scope(#[trigger] arguments@[j], bindings.len()),
    ensures
        forward_reference_free(emit(bindings, routine, arguments)),
{
    let emitted = emit(bindings, routine, arguments);
    assert forall|i: int, j: int|
        0 <= i < emitted.len() && 0 <= j < operands(emitted[i]).len() implies in_scope(
        #[trigger] operands(emitted[i])[j],
        i as nat,
    ) by {
        if i < bindings.len() {
            assert(emitted[i] == bindings[i]);
        }
    }
}

/// Every builder numbers its bindings from zero by itself: in each of two
/// builders a binding's local is its place among that builder's bindings,
/// whatever the other builder has emitted.
pub proof fn lemma_builders_number_independently(left: AnfBuilder, right: AnfBuilder)
    requires
        left.wf(),
        right.wf(),
    ensures
        numbered(left@),
        numbered(right@),
        left@.len() <= u64::MAX,
        right@.len() <= u64::MAX,
{
}

} // verus!
