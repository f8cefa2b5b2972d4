//! The type-state builder. Which fields have been set is recorded in the
//! builder's type parameters, one marker per field, so that `construct` is
//! only callable — only defined — once both markers say "set". Field storage
//! is an `Option` per field; the type invariant ties each `Option` to its
//! marker: storage holds a live value exactly when the marker denotes "set".

use core::marker::PhantomData;
use vstd::prelude::*;

use crate::model::BuilderModel;
use crate::model::FieldOp;
use crate::model::apply_op;
use crate::model::init_model;
use crate::model::live_count;
use crate::state::Filled;
use crate::state::StateMarker;
use crate::state::Unset;

verus! {

/// The target object: both fields owned outright, with no remaining tie to
/// the builder that produced it.
#[derive(Debug)]
pub struct Item {
    pub a: String,
    pub b: Vec<i32>,
}

/// A builder for `Item`. The type parameters `A` and `B` are the state
/// markers of the two fields; a fresh builder is `ItemBuilder<Unset, Unset>`
/// and each setter returns a builder whose marker for that field is
/// `Filled`. The ghost `destroyed` count records how many previously stored
/// values the setters have destroyed by overwriting.
pub struct ItemBuilder<A: StateMarker, B: StateMarker> {
    a: Option<String>,
    b: Option<Vec<i32>>,
    destroyed: Ghost<nat>,
    marker_a: PhantomData<A>,
    marker_b: PhantomData<B>,
}

impl<A: StateMarker, B: StateMarker> ItemBuilder<A, B> {
    /// Storage holds a live value exactly when the field's marker denotes
    /// "set"; unset storage is never read and never destroyed.
    #[verifier::type_invariant]
    spec fn wf(self) -> bool {
        &&& self.a is Some <==> A::spec_set()
        &&& self.b is Some <==> B::spec_set()
    }

    /// The abstract state of this builder: its live fields as sequences and
    /// its count of destroyed values.
    pub closed spec fn model(self) -> BuilderModel {
        BuilderModel {
            a: match self.a {
                Some(s) => Some(s@),
                None => None,
            },
            b: match self.b {
                Some(v) => Some(v@),
                None => None,
            },
            destroyed: self.destroyed@,
        }
    }

    /// Set the first field, consuming the builder. Any value the field
    /// already held is destroyed first — `apply_op` counts it — and the
    /// returned builder's type records the field as set.
    pub fn a(self, value: String) -> (builder: ItemBuilder<Filled, B>)
        ensures
            builder.model() == apply_op(self.model(), FieldOp::WriteA(value@)),
    {
        proof {
            use_type_invariant(&self);
        }
        let ItemBuilder { a, b, destroyed, marker_a: _, marker_b: _ } = self;
        let ghost now_destroyed: nat = destroyed@ + (if a is Some {
            1nat
        } else {
            0nat
        });
        // The old `a`, if any, is dropped here: it is moved out of the
        // builder and not placed into the new one.
        ItemBuilder {
            a: Some(value),
            b,
            destroyed: Ghost(now_destroyed),
            marker_a: PhantomData,
            marker_b: PhantomData,
        }
    }

    /// Set the second field; the mirror image of `a`.
    pub fn b(self, value: Vec<i32>) -> (builder: ItemBuilder<A, Filled>)
        ensures
            builder.model() == apply_op(self.model(), FieldOp::WriteB(value@)),
    {
        proof {
            use_type_invariant(&self);
        }
        let ItemBuilder { a, b, destroyed, marker_a: _, marker_b: _ } = self;
        let ghost now_destroyed: nat = destroyed@ + (if b is Some {
            1nat
        } else {
            0nat
        });
        ItemBuilder {
            a,
            b: Some(value),
            destroyed: Ghost(now_destroyed),
            marker_a: PhantomData,
            marker_b: PhantomData,
        }
    }

    /// Discard the builder without constructing: destroy exactly the live
    /// fields, and report how many that was. Unset storage is not touched.
    pub fn discard(self) -> (destroyed_now: usize)
        ensures
            destroyed_now == live_count(self.model()),
    {
        proof {
            use_type_invariant(&self);
        }
        let ItemBuilder { a, b, destroyed: _, marker_a: _, marker_b: _ } = self;
        let mut count: usize = 0;
        if a.is_some() {
            count = count + 1;
        }
        if b.is_some() {
            count = count + 1;
        }
        // `a` and `b` go out of scope here; each `Some` drops its one value.
        count
    }
}

impl ItemBuilder<Unset, Unset> {
    /// A fresh builder: both markers `Unset`, both fields without a value,
    /// nothing destroyed yet.
    pub fn new() -> (builder: Self)
        ensures
            builder.model() == init_model(),
    {
        ItemBuilder {
            a: None,
            b: None,
            destroyed: Ghost(0),
            marker_a: PhantomData,
            marker_b: PhantomData,
        }
    }
}

impl ItemBuilder<Filled, Filled> {
    /// Consume the builder and move both field values into the target
    /// object. Only defined when both markers are `Filled`; calling it on
    /// any other builder type does not compile. Nothing is copied, nothing
    /// is destroyed: ownership of both values transfers to the `Item`.
    pub fn construct(self) -> (item: Item)
        ensures
            self.model().a == Some(item.a@),
            self.model().b == Some(item.b@),
    {
        proof {
            use_type_invariant(&self);
        }
        let ItemBuilder { a, b, destroyed: _, marker_a: _, marker_b: _ } = self;
        Item { a: a.unwrap(), b: b.unwrap() }
    }
}

} // verus!
