use vstd::prelude::*;

use crate::domains::booleans::AbstractBool;
use crate::domains::domain::AbstractDomain;
use crate::domains::interval::{Interval, IntervalElem};
use crate::errors::{Error, ErrorKind};
use crate::mir::Ty;

verus! {

/// An abstract value of any supported type. Signed integers are tracked as
/// `i128` intervals and unsigned integers as `u128` intervals.
#[derive(Debug, PartialEq)]
pub enum AbstractValue {
    Bool(AbstractBool),
    IntInterval(Interval<i128>),
    UintInterval(Interval<u128>),
    Tuple(Vec<AbstractValue>),
    /// A slot whose content was deinitialised; distinct from top.
    Uninit,
}

/// The mathematical model of an `AbstractValue`: the same shape, with
/// tuples as sequences.
pub enum ValueView {
    Bool(AbstractBool),
    IntInterval(Interval<i128>),
    UintInterval(Interval<u128>),
    Tuple(Seq<ValueView>),
    Uninit,
}

impl AbstractValue {
    pub open spec fn view(self) -> ValueView
        decreases self,
    {
        match self {
            AbstractValue::Bool(b) => ValueView::Bool(b),
            AbstractValue::IntInterval(i) => ValueView::IntInterval(i),
            AbstractValue::UintInterval(i) => ValueView::UintInterval(i),
            AbstractValue::Tuple(es) => ValueView::Tuple(
                Seq::new(
                    es@.len(),
                    |i: int|
                        if 0 <= i < es@.len() {
                            es@[i].view()
                        } else {
                            ValueView::Uninit
                        },
                ),
            ),
            AbstractValue::Uninit => ValueView::Uninit,
        }
    }

    pub proof fn lemma_tuple_view(es: Vec<AbstractValue>)
        ensures
            AbstractValue::Tuple(es).view() is Tuple,
            AbstractValue::Tuple(es).view()->Tuple_0.len() == es@.len(),
            forall|j: int|
                0 <= j < es@.len() ==> #[trigger] AbstractValue::Tuple(es).view()->Tuple_0[j]
                    == es@[j].view(),
    {
    }
}

/// The top element of the lattice that `v` belongs to: the same shape, with
/// every scalar at its top.
pub open spec fn top_view(v: ValueView) -> ValueView
    decreases v,
{
    match v {
        ValueView::Bool(_) => ValueView::Bool(AbstractBool::Top),
        ValueView::IntInterval(_) => ValueView::IntInterval(Interval::<i128>::spec_top()),
        ValueView::UintInterval(_) => ValueView::UintInterval(Interval::<u128>::spec_top()),
        ValueView::Tuple(s) => ValueView::Tuple(
            Seq::new(
                s.len(),
                |i: int|
                    if 0 <= i < s.len() {
                        top_view(s[i])
                    } else {
                        ValueView::Uninit
                    },
            ),
        ),
        ValueView::Uninit => ValueView::Uninit,
    }
}

/// The top abstract value of a type, or `None` for a type the analysis does
/// not cover: booleans, signed and unsigned integers, and tuples of covered
/// types are covered.
pub open spec fn top_of_ty(ty: Ty) -> Option<ValueView>
    decreases ty, 1nat,
{
    match ty {
        Ty::Bool => Some(ValueView::Bool(AbstractBool::Top)),
        Ty::Int(_) => Some(ValueView::IntInterval(Interval::<i128>::spec_top())),
        Ty::Uint(_) => Some(ValueView::UintInterval(Interval::<u128>::spec_top())),
        Ty::Tuple(ts) => match tops_of_fields(ts, ts@.len()) {
            Some(s) => Some(ValueView::Tuple(s)),
            None => None,
        },
        _ => None,
    }
}

/// The top values of the first `n` field types, or `None` if one of them is
/// not covered.
pub open spec fn tops_of_fields(ts: Vec<Ty>, n: nat) -> Option<Seq<ValueView>>
    decreases ts, n,
{
    if n == 0 {
        Some(Seq::empty())
    } else if n > ts@.len() {
        None
    } else {
        match tops_of_fields(ts, (n - 1) as nat) {
            Some(s) => match top_of_ty(ts@[n - 1]) {
                Some(v) => Some(s.push(v)),
                None => None,
            },
            None => None,
        }
    }
}

/// Once a prefix of the fields fails, every longer prefix fails.
proof fn lemma_tops_of_fields_none(ts: Vec<Ty>, n: nat, m: nat)
    requires
        n <= m,
    ensures
        tops_of_fields(ts, n) is None ==> tops_of_fields(ts, m) is None,
    decreases m - n,
{
    if n < m {
        lemma_tops_of_fields_none(ts, n, (m - 1) as nat);
    }
}

pub proof fn lemma_top_view_tuple(s: Seq<ValueView>)
    ensures
        top_view(ValueView::Tuple(s)) is Tuple,
        top_view(ValueView::Tuple(s))->Tuple_0.len() == s.len(),
        forall|j: int| 0 <= j < s.len() ==> #[trigger] top_view(ValueView::Tuple(s))->Tuple_0[j] == top_view(s[j]),
{
}

/// Taking the top element twice is the same as taking it once.
pub proof fn lemma_top_idempotent(v: ValueView)
    ensures
        top_view(top_view(v)) == top_view(v),
    decreases v,
{
    match v {
        ValueView::Tuple(s) => {
            let t = top_view(v)->Tuple_0;
            let tt = top_view(top_view(v))->Tuple_0;
            lemma_top_view_tuple(s);
            lemma_top_view_tuple(t);
            assert forall|i: int| 0 <= i < s.len() implies tt[i] == t[i] by {
                lemma_top_idempotent(s[i]);
            }
            assert(tt =~= t);
        },
        _ => {},
    }
}

/// The value built for a type is the top of its own lattice; for a tuple
/// type it is a tuple with one entry per field.
pub proof fn lemma_top_of_ty_is_top(ty: Ty)
    ensures
        top_of_ty(ty) matches Some(v) ==> {
            &&& top_view(v) == v
            &&& ty matches Ty::Tuple(ts) ==> (v is Tuple && v->Tuple_0.len() == ts@.len())
        },
    decreases ty, 1nat,
{
    match ty {
        Ty::Tuple(ts) => {
            lemma_tops_of_fields(ts, ts@.len());
            if let Some(v) = top_of_ty(ty) {
                let s = v->Tuple_0;
                let t = top_view(v)->Tuple_0;
                lemma_top_view_tuple(s);
                assert(t =~= s);
            }
        },
        _ => {},
    }
}

proof fn lemma_tops_of_fields(ts: Vec<Ty>, n: nat)
    ensures
        tops_of_fields(ts, n) matches Some(s) ==> {
            &&& s.len() == n
            &&& forall|j: int| 0 <= j < n ==> #[trigger] top_view(s[j]) == s[j]
        },
    decreases ts, n,
{
    if n > 0 && n <= ts@.len() {
        lemma_tops_of_fields(ts, (n - 1) as nat);
        lemma_top_of_ty_is_top(ts@[n - 1]);
    }
}

/// Building a value for a tuple type of `n` fields gives a tuple of `n`
/// entries whose top is itself, so that taking top again changes nothing.
pub proof fn lemma_new_tuple_top_fixed_point(ty: Ty)
    requires
        ty is Tuple,
        top_of_ty(ty) is Some,
    ensures
        top_of_ty(ty)->Some_0 is Tuple,
        top_of_ty(ty)->Some_0->Tuple_0.len() == ty->Tuple_0@.len(),
        top_view(top_of_ty(ty)->Some_0) == top_of_ty(ty)->Some_0,
        top_view(top_view(top_of_ty(ty)->Some_0)) == top_view(top_of_ty(ty)->Some_0),
{
    lemma_top_of_ty_is_top(ty);
    lemma_top_idempotent(top_of_ty(ty)->Some_0);
}

impl AbstractValue {
    /// The lattice operations of the matching variant, on two values of the
    /// same scalar kind.
    pub open spec fn spec_join(self, other: AbstractValue) -> AbstractValue {
        match (self, other) {
            (AbstractValue::Bool(a), AbstractValue::Bool(b)) => AbstractValue::Bool(a.spec_join(b)),
            (AbstractValue::IntInterval(a), AbstractValue::IntInterval(b)) => AbstractValue::IntInterval(a.spec_join(b)),
            (AbstractValue::UintInterval(a), AbstractValue::UintInterval(b)) => AbstractValue::UintInterval(a.spec_join(b)),
            _ => self,
        }
    }

    pub open spec fn spec_widen(self, other: AbstractValue) -> AbstractValue {
        match (self, other) {
            (AbstractValue::Bool(a), AbstractValue::Bool(b)) => AbstractValue::Bool(a.spec_widen(b)),
            (AbstractValue::IntInterval(a), AbstractValue::IntInterval(b)) => AbstractValue::IntInterval(a.spec_widen(b)),
            (AbstractValue::UintInterval(a), AbstractValue::UintInterval(b)) => AbstractValue::UintInterval(a.spec_widen(b)),
            _ => self,
        }
    }

    /// Builds the top abstract value of a type; a type the analysis does not
    /// cover gives `NotImplementedError`.
    pub fn new(ty: &Ty) -> (r: Result<Self, Error>)
        ensures
            match r {
                Ok(v) => top_of_ty(*ty) == Some(v.view()),
                Err(e) => top_of_ty(*ty) is None && e.kind == ErrorKind::NotImplementedError,
            },
        decreases ty,
    {
        match ty {
            Ty::Bool => Ok(AbstractValue::Bool(AbstractBool::Top)),
            Ty::Int(_) => Ok(AbstractValue::IntInterval(Interval { lower: IntervalElem::NegInf, upper: IntervalElem::Inf })),
            Ty::Uint(_) => Ok(AbstractValue::UintInterval(Interval { lower: IntervalElem::NegInf, upper: IntervalElem::Inf })),
            Ty::Tuple(tys) => {
                let mut avs: Vec<AbstractValue> = Vec::new();
                let mut i: usize = 0;
                while i < tys.len()
                    invariant
                        *ty == Ty::Tuple(*tys),
                        i <= tys@.len(),
                        tops_of_fields(*tys, i as nat) matches Some(s) && s.len() == i && forall|j: int|
                            0 <= j < i ==> #[trigger] s[j] == avs@[j].view(),
                        avs@.len() == i,
                    decreases tys@.len() - i,
                {
                    proof {
                        vstd::std_specs::vec::axiom_vec_index_decreases(*tys, i as int);
                        lemma_tops_of_fields_none(*tys, (i + 1) as nat, tys@.len());
                    }
                    match AbstractValue::new(&tys[i]) {
                        Ok(v) => avs.push(v),
                        Err(e) => return Err(e),
                    }
                    i = i + 1;
                }
                proof {
                    AbstractValue::lemma_tuple_view(avs);
                    assert(top_of_ty(*ty)->Some_0->Tuple_0 =~= AbstractValue::Tuple(avs).view()->Tuple_0);
                }
                Ok(AbstractValue::Tuple(avs))
            },
            _ => Err(Error::new(ErrorKind::NotImplementedError)),
        }
    }

    /// A copy with the same model.
    #[verifier::loop_isolation(false)]
    pub fn duplicate(&self) -> (r: AbstractValue)
        ensures
            r.view() == self.view(),
        decreases self,
    {
        match self {
            AbstractValue::Bool(b) => AbstractValue::Bool(*b),
            AbstractValue::IntInterval(i) => AbstractValue::IntInterval(*i),
            AbstractValue::UintInterval(i) => AbstractValue::UintInterval(*i),
            AbstractValue::Tuple(es) => {
                let mut out: Vec<AbstractValue> = Vec::new();
                let mut i: usize = 0;
                while i < es.len()
                    invariant
                        *self == AbstractValue::Tuple(*es),
                        i <= es@.len(),
                        out@.len() == i,
                        forall|j: int| 0 <= j < i ==> #[trigger] out@[j].view() == es@[j].view(),
                    decreases es@.len() - i,
                {
                    proof {
                        vstd::std_specs::vec::axiom_vec_index_decreases(*es, i as int);
                    }
                    out.push(es[i].duplicate());
                    i = i + 1;
                }
                proof {
                    AbstractValue::lemma_tuple_view(out);
                    AbstractValue::lemma_tuple_view(*es);
                    assert(AbstractValue::Tuple(out).view()->Tuple_0 =~= self.view()->Tuple_0);
                }
                AbstractValue::Tuple(out)
            },
            AbstractValue::Uninit => AbstractValue::Uninit,
        }
    }
}

impl AbstractValue {
    /// The entry at `index` of a tuple; `None` for other values or an index
    /// past the end.
    pub fn get(&self, index: usize) -> (r: Option<&Self>)
        ensures
            match *self {
                AbstractValue::Tuple(es) => if index < es@.len() {
                    r == Some(&es@[index as int])
                } else {
                    r is None
                },
                _ => r is None,
            },
    {
        match self {
            AbstractValue::Tuple(entries) => {
                if index < entries.len() {
                    Some(&entries[index])
                } else {
                    None
                }
            },
            _ => None,
        }
    }

    /// A mutable borrow of the entry at `index` of a tuple; `None` for other
    /// values or an index past the end.
    pub fn get_mut(&mut self, index: usize) -> (r: Option<&mut Self>)
        ensures
            match *old(self) {
                AbstractValue::Tuple(es) => if index < es@.len() {
                    &&& r is Some
                    &&& *r->Some_0 == es@[index as int]
                    &&& *final(self) is Tuple
                    &&& (*final(self))->Tuple_0@ == es@.update(index as int, *final(r->Some_0))
                } else {
                    r is None && *final(self) == *old(self)
                },
                _ => r is None && *final(self) == *old(self),
            },
    {
        match self {
            AbstractValue::Tuple(entries) => {
                if index < entries.len() {
                    Some(&mut entries[index])
                } else {
                    None
                }
            },
            _ => None,
        }
    }

    /// Replaces the entry at `index` of a tuple. An index past the end is an
    /// `InterpreterError`, a value that is not a tuple a
    /// `NotImplementedError`; either way nothing changes.
    pub fn set(&mut self, index: usize, value: AbstractValue) -> (r: Result<(), Error>)
        ensures
            match *old(self) {
                AbstractValue::Tuple(es) => if index < es@.len() {
                    &&& r is Ok
                    &&& *final(self) is Tuple
                    &&& (*final(self))->Tuple_0@ == es@.update(index as int, value)
                } else {
                    &&& r matches Err(e) && e.kind == ErrorKind::InterpreterError
                    &&& *final(self) == *old(self)
                },
                _ => {
                    &&& r matches Err(e) && e.kind == ErrorKind::NotImplementedError
                    &&& *final(self) == *old(self)
                },
            },
    {
        match self {
            AbstractValue::Tuple(entries) => {
                if index < entries.len() {
                    entries.set(index, value);
                    Ok(())
                } else {
                    Err(
                        Error::with_message(
                            ErrorKind::InterpreterError,
                            "Tried to index entry outside tuple limits".to_string(),
                        ),
                    )
                }
            },
            _ => Err(
                Error::with_message(
                    ErrorKind::NotImplementedError,
                    "set is only defined on tuple values".to_string(),
                ),
            ),
        }
    }
}

impl Clone for AbstractValue {
    fn clone(&self) -> (r: Self)
        ensures
            r.view() == self.view(),
    {
        self.duplicate()
    }
}

impl AbstractDomain for AbstractValue {
    /// Both are booleans, both signed intervals, or both unsigned intervals.
    open spec fn compatible(&self, other: &Self) -> bool {
        ||| (self is Bool && other is Bool)
        ||| (self is IntInterval && other is IntInterval)
        ||| (self is UintInterval && other is UintInterval)
    }

    fn join(&self, other: &Self) -> (r: Self)
        ensures
            r == self.spec_join(*other),
    {
        match (self, other) {
            (AbstractValue::Bool(a), AbstractValue::Bool(b)) => AbstractValue::Bool(a.join(b)),
            (AbstractValue::IntInterval(a), AbstractValue::IntInterval(b)) => AbstractValue::IntInterval(a.join(b)),
            (AbstractValue::UintInterval(a), AbstractValue::UintInterval(b)) => AbstractValue::UintInterval(a.join(b)),
            (_, _) => AbstractValue::Uninit,
        }
    }

    fn widen(&self, other: &Self) -> (r: Self)
        ensures
            r == self.spec_widen(*other),
    {
        match (self, other) {
            (AbstractValue::Bool(a), AbstractValue::Bool(b)) => AbstractValue::Bool(a.widen(b)),
            (AbstractValue::IntInterval(a), AbstractValue::IntInterval(b)) => AbstractValue::IntInterval(a.widen(b)),
            (AbstractValue::UintInterval(a), AbstractValue::UintInterval(b)) => AbstractValue::UintInterval(a.widen(b)),
            (_, _) => AbstractValue::Uninit,
        }
    }

    #[verifier::loop_isolation(false)]
    fn top(&self) -> (r: Self)
        ensures
            r.view() == top_view(self.view()),
        decreases self,
    {
        match self {
            AbstractValue::Bool(x) => AbstractValue::Bool(x.top()),
            AbstractValue::IntInterval(x) => AbstractValue::IntInterval(x.top()),
            AbstractValue::UintInterval(x) => AbstractValue::UintInterval(x.top()),
            AbstractValue::Tuple(avs) => {
                let mut out: Vec<AbstractValue> = Vec::new();
                let mut i: usize = 0;
                while i < avs.len()
                    invariant
                        *self == AbstractValue::Tuple(*avs),
                        i <= avs@.len(),
                        out@.len() == i,
                        forall|j: int| 0 <= j < i ==> #[trigger] out@[j].view() == top_view(avs@[j].view()),
                    decreases avs@.len() - i,
                {
                    proof {
                        vstd::std_specs::vec::axiom_vec_index_decreases(*avs, i as int);
                    }
                    out.push(avs[i].top());
                    i = i + 1;
                }
                proof {
                    AbstractValue::lemma_tuple_view(out);
                    AbstractValue::lemma_tuple_view(*avs);
                    lemma_top_view_tuple(self.view()->Tuple_0);
                    assert(AbstractValue::Tuple(out).view()->Tuple_0 =~= top_view(self.view())->Tuple_0);
                }
                AbstractValue::Tuple(out)
            },
            AbstractValue::Uninit => AbstractValue::Uninit,
        }
    }
}

} // verus!
