//! The mathematical model of a builder's run: which fields hold a live
//! value, which value each holds, and how many stored values have been
//! destroyed so far. The executable builder's contracts are stated against
//! this model, and the general laws of the builder's lifecycle are proved
//! here once, over every possible sequence of setter calls.

use vstd::prelude::*;

verus! {

/// One setter call, abstractly: which field was written and with what value.
pub ghost enum FieldOp {
    /// Set the first field (a string) to the given character sequence.
    WriteA(Seq<char>),
    /// Set the second field (a vector of integers) to the given sequence.
    WriteB(Seq<i32>),
}

/// The abstract state of one builder: per field, `None` while the field is
/// unset and `Some(v)` once it holds the live value `v`, together with the
/// number of previously stored values destroyed so far by overwrites.
#[verifier::ext_equal]
pub ghost struct BuilderModel {
    pub a: Option<Seq<char>>,
    pub b: Option<Seq<i32>>,
    pub destroyed: nat,
}

/// The state of a freshly created builder: nothing set, nothing destroyed.
pub open spec fn init_model() -> BuilderModel {
    BuilderModel { a: None, b: None, destroyed: 0 }
}

/// How many fields currently hold a live value.
pub open spec fn live_count(m: BuilderModel) -> nat {
    (if m.a is Some {
        1nat
    } else {
        0nat
    }) + (if m.b is Some {
        1nat
    } else {
        0nat
    })
}

/// The effect of one setter call: the written field now holds the new value,
/// the other field is untouched, and if the written field already held a
/// value, exactly that one value is destroyed.
pub open spec fn apply_op(m: BuilderModel, op: FieldOp) -> BuilderModel {
    match op {
        FieldOp::WriteA(v) => BuilderModel {
            a: Some(v),
            destroyed: m.destroyed + (if m.a is Some {
                1nat
            } else {
                0nat
            }),
            ..m
        },
        FieldOp::WriteB(v) => BuilderModel {
            b: Some(v),
            destroyed: m.destroyed + (if m.b is Some {
                1nat
            } else {
                0nat
            }),
            ..m
        },
    }
}

/// The effect of a whole sequence of setter calls, first to last.
pub open spec fn apply_ops(m: BuilderModel, ops: Seq<FieldOp>) -> BuilderModel
    decreases ops.len(),
{
    if ops.len() == 0 {
        m
    } else {
        apply_op(apply_ops(m, ops.drop_last()), ops.last())
    }
}

/// The value the first field holds after `ops` run on a builder whose first
/// field held `a0`: the payload of the last write to it, or `a0` if it was
/// never written.
pub open spec fn last_write_a(ops: Seq<FieldOp>, a0: Option<Seq<char>>) -> Option<Seq<char>>
    decreases ops.len(),
{
    if ops.len() == 0 {
        a0
    } else {
        match ops.last() {
            FieldOp::WriteA(v) => Some(v),
            FieldOp::WriteB(_) => last_write_a(ops.drop_last(), a0),
        }
    }
}

/// The counterpart of `last_write_a` for the second field.
pub open spec fn last_write_b(ops: Seq<FieldOp>, b0: Option<Seq<i32>>) -> Option<Seq<i32>>
    decreases ops.len(),
{
    if ops.len() == 0 {
        b0
    } else {
        match ops.last() {
            FieldOp::WriteB(v) => Some(v),
            FieldOp::WriteA(_) => last_write_b(ops.drop_last(), b0),
        }
    }
}

/// Last write wins. After any sequence of setter calls on a fresh builder,
/// the live fields are exactly the fields that were set at least once, and
/// each holds the value it was most recently set to.
pub proof fn lemma_last_write_wins(ops: Seq<FieldOp>)
    ensures
        apply_ops(init_model(), ops).a == last_write_a(ops, None),
        apply_ops(init_model(), ops).b == last_write_b(ops, None),
{
    lemma_last_write_from(init_model(), ops);
}

/// The generalisation of `lemma_last_write_wins` to an arbitrary starting
/// state, which the induction needs.
pub proof fn lemma_last_write_from(m: BuilderModel, ops: Seq<FieldOp>)
    ensures
        apply_ops(m, ops).a == last_write_a(ops, m.a),
        apply_ops(m, ops).b == last_write_b(ops, m.b),
    decreases ops.len(),
{
    if ops.len() > 0 {
        lemma_last_write_from(m, ops.drop_last());
    }
}

/// Destruction accounting. After any sequence of setter calls on a fresh
/// builder, the values destroyed so far plus the values still live add up to
/// one per call: every stored value is destroyed exactly once — by the
/// overwrite that replaces it, or, for the values still live, by whatever
/// finally consumes the builder. No value leaks and none is destroyed twice.
pub proof fn lemma_destruction_accounting(ops: Seq<FieldOp>)
    ensures
        apply_ops(init_model(), ops).destroyed + live_count(apply_ops(init_model(), ops))
            == ops.len(),
{
    lemma_destruction_accounting_from(init_model(), ops);
}

/// The generalisation of `lemma_destruction_accounting` to an arbitrary
/// starting state: each setter call raises `destroyed + live_count` by
/// exactly one.
pub proof fn lemma_destruction_accounting_from(m: BuilderModel, ops: Seq<FieldOp>)
    ensures
        apply_ops(m, ops).destroyed + live_count(apply_ops(m, ops)) == m.destroyed + live_count(m)
            + ops.len(),
    decreases ops.len(),
{
    if ops.len() > 0 {
        lemma_destruction_accounting_from(m, ops.drop_last());
    }
}

} // verus!
