use vstd::prelude::*;
use ruff_text_size::TextRange;
use crate::diagnostics::Message;
use crate::expr::{ArgExpr, ExprShape};
use crate::types::{Tuple, Type};

verus! {

/// The mathematical shape of a tuple type.
pub enum TupleShape {
    Concrete(Seq<Type>),
    Unbounded(Type),
    Unpacked(Seq<Type>, Type, Seq<Type>),
}

impl View for Tuple {
    type V = TupleShape;

    open spec fn view(&self) -> TupleShape {
        match self {
            Tuple::Concrete(elts) => TupleShape::Concrete(elts@),
            Tuple::Unbounded(t) => TupleShape::Unbounded(**t),
            Tuple::Unpacked(pre, mid, suf) => TupleShape::Unpacked(pre@, **mid, suf@),
        }
    }
}

/// What has been gathered from the elements of a tuple form so far: the elements
/// before the unbounded part, the unbounded part once there is one, and the
/// elements after it.
pub struct MergeState {
    pub prefix: Seq<Type>,
    pub middle: Option<Type>,
    pub suffix: Seq<Type>,
}

/// The outcome of taking one more element into account.
pub enum MergeStep {
    /// Go on with the next element.
    Continue(MergeState),
    /// The tuple is complete, whatever follows.
    Done(TupleShape),
    /// The element is rejected, with the message and the place to report.
    Fail(Message, TextRange),
}

pub open spec fn empty_state() -> MergeState {
    MergeState { prefix: Seq::empty(), middle: None, suffix: Seq::empty() }
}

/// Appends element types before the unbounded part, or after it once there is one.
pub open spec fn append_elements(s: MergeState, elts: Seq<Type>) -> MergeState {
    if s.middle is None {
        MergeState { prefix: s.prefix + elts, ..s }
    } else {
        MergeState { suffix: s.suffix + elts, ..s }
    }
}

/// Merges the type of a starred element into the state.
pub open spec fn unpack_into(s: MergeState, t: Type) -> Result<MergeState, Message> {
    match t {
        Type::Tuple(Tuple::Concrete(elts)) => Ok(append_elements(s, elts@)),
        Type::Tuple(Tuple::Unbounded(m)) => {
            if s.middle is None {
                Ok(MergeState { middle: Some(*m), ..s })
            } else {
                Err(Message::MultipleUnbounded)
            }
        },
        Type::Tuple(Tuple::Unpacked(pre, m, suf)) => {
            if s.middle is None {
                Ok(MergeState { prefix: s.prefix + pre@, middle: Some(*m), suffix: s.suffix + suf@ })
            } else {
                Err(Message::MultipleUnbounded)
            }
        },
        _ => Err(Message::ExpectedTuple(t)),
    }
}

/// Takes one argument into account; `t` is what the argument evaluates to (for a
/// starred argument, what its value evaluates to; ignored for `...`).
pub open spec fn merge_arg(s: MergeState, a: ArgExpr, t: Type) -> MergeStep {
    match a.shape {
        ExprShape::Ellipsis => {
            if s.prefix.len() == 1 && s.middle is None {
                MergeStep::Done(TupleShape::Unbounded(s.prefix[0]))
            } else {
                MergeStep::Fail(Message::InvalidEllipsis, a.range)
            }
        },
        ExprShape::Starred(inner) => match unpack_into(s, t) {
            Ok(s2) => MergeStep::Continue(s2),
            Err(m) => MergeStep::Fail(m, inner.range),
        },
        _ => MergeStep::Continue(append_elements(s, seq![t])),
    }
}

/// The outcome after the first `n` arguments, evaluated to `tys`.
pub open spec fn merge_upto(args: Seq<ArgExpr>, tys: Seq<Type>, n: nat) -> MergeStep
    decreases n,
{
    if n == 0 {
        MergeStep::Continue(empty_state())
    } else {
        match merge_upto(args, tys, (n - 1) as nat) {
            MergeStep::Continue(s) => merge_arg(s, args[n - 1], tys[n - 1]),
            other => other,
        }
    }
}

/// The tuple that a completed state denotes.
pub open spec fn finish_state(s: MergeState) -> TupleShape {
    match s.middle {
        Some(m) => TupleShape::Unpacked(s.prefix, m, s.suffix),
        None => TupleShape::Concrete(s.prefix),
    }
}

/// The tuple that the arguments of a tuple form denote, or the rejection.
pub open spec fn merge_outcome(args: Seq<ArgExpr>, tys: Seq<Type>) -> MergeStep {
    match merge_upto(args, tys, args.len()) {
        MergeStep::Continue(s) => MergeStep::Done(finish_state(s)),
        other => other,
    }
}

/// Once an argument completes or rejects the tuple, later arguments change nothing.
pub proof fn lemma_merge_stops(args: Seq<ArgExpr>, tys: Seq<Type>, k: nat, n: nat)
    requires
        k <= n,
        merge_upto(args, tys, k) !is Continue,
    ensures
        merge_upto(args, tys, n) == merge_upto(args, tys, k),
    decreases n,
{
    if n > k {
        lemma_merge_stops(args, tys, k, (n - 1) as nat);
    }
}

/// Gathers the elements of a tuple form, one argument at a time.
pub struct TupleMerger {
    pub prefix: Vec<Type>,
    pub middle: Option<Type>,
    pub suffix: Vec<Type>,
}

impl View for TupleMerger {
    type V = MergeState;

    open spec fn view(&self) -> MergeState {
        MergeState { prefix: self.prefix@, middle: self.middle, suffix: self.suffix@ }
    }
}

impl TupleMerger {
    pub fn new() -> (r: TupleMerger)
        ensures
            r@ == empty_state(),
    {
        TupleMerger { prefix: Vec::new(), middle: None, suffix: Vec::new() }
    }

    /// Takes a plain element.
    pub fn push_element(&mut self, t: Type)
        ensures
            final(self)@ == append_elements(old(self)@, seq![t]),
    {
        if self.middle.is_none() {
            self.prefix.push(t);
            assert(self.prefix@ =~= old(self).prefix@ + seq![t]);
        } else {
            self.suffix.push(t);
            assert(self.suffix@ =~= old(self).suffix@ + seq![t]);
        }
    }

    /// Takes the type of a starred element.
    pub fn unpack(&mut self, t: Type) -> (r: Result<(), Message>)
        ensures
            match unpack_into(old(self)@, t) {
                Ok(s) => r is Ok && final(self)@ == s,
                Err(m) => r == Err::<(), Message>(m),
            },
    {
        match t {
            Type::Tuple(Tuple::Concrete(mut elts)) => {
                if self.middle.is_none() {
                    self.prefix.append(&mut elts);
                } else {
                    self.suffix.append(&mut elts);
                }
                Ok(())
            },
            Type::Tuple(Tuple::Unbounded(m)) => {
                if self.middle.is_none() {
                    self.middle = Some(*m);
                    Ok(())
                } else {
                    Err(Message::MultipleUnbounded)
                }
            },
            Type::Tuple(Tuple::Unpacked(mut pre, m, mut suf)) => {
                if self.middle.is_none() {
                    self.prefix.append(&mut pre);
                    self.middle = Some(*m);
                    self.suffix.append(&mut suf);
                    Ok(())
                } else {
                    Err(Message::MultipleUnbounded)
                }
            },
            other => Err(Message::ExpectedTuple(other)),
        }
    }

    /// Takes `...`: valid only right after exactly one element, where it makes
    /// the tuple unbounded over that element.
    pub fn ellipsis(&mut self) -> (r: Result<Tuple, Message>)
        ensures
            old(self)@.prefix.len() == 1 && old(self)@.middle is None ==> r is Ok
                && r->Ok_0@ == TupleShape::Unbounded(old(self)@.prefix[0]),
            !(old(self)@.prefix.len() == 1 && old(self)@.middle is None) ==> r
                == Err::<Tuple, Message>(Message::InvalidEllipsis),
    {
        if self.prefix.len() == 1 && self.middle.is_none() {
            match self.prefix.pop() {
                Some(t) => Ok(Tuple::Unbounded(Box::new(t))),
                None => Err(Message::InvalidEllipsis),
            }
        } else {
            Err(Message::InvalidEllipsis)
        }
    }

    /// The tuple that the gathered elements denote.
    pub fn finish(self) -> (r: Tuple)
        ensures
            r@ == finish_state(self@),
    {
        match self.middle {
            Some(m) => Tuple::Unpacked(self.prefix, Box::new(m), self.suffix),
            None => Tuple::Concrete(self.prefix),
        }
    }
}

} // verus!
