//! What holds of every instruction stream and of every branch table.

use crate::bytecode::{
    arms_step, closes_scope, lemma_skip_varuints_fails, lemma_skip_varuints_tail, op_step,
    opens_scope, skip_varuints, take_op, take_table, ArmsView, OpIterView,
};
use crate::error::Error;
use crate::varint::{lemma_take_varuint_prefix, lemma_take_varuint_tail, take_varuint};
use vstd::prelude::*;

verus! {

/// True when each of the first `n` pulls on the stream yields an
/// instruction.
pub open spec fn ops_ok(st: OpIterView, n: nat) -> bool
    decreases n,
{
    n == 0 || (op_step(st).0 matches Some(Ok(_)) && ops_ok(op_step(st).1, (n - 1) as nat))
}

/// The stream after `n` pulls.
pub open spec fn ops_after(st: OpIterView, n: nat) -> OpIterView
    decreases n,
{
    if n == 0 {
        st
    } else {
        ops_after(op_step(st).1, (n - 1) as nat)
    }
}

/// How many of the first `n` instructions of the stream open a scope.
pub open spec fn scopes_opened(st: OpIterView, n: nat) -> nat
    decreases n,
{
    if n == 0 {
        0
    } else {
        let first: nat = if op_step(st).0 matches Some(Ok(op)) && opens_scope(op.code) {
            1
        } else {
            0
        };
        first + scopes_opened(op_step(st).1, (n - 1) as nat)
    }
}

/// How many of the first `n` instructions of the stream close a scope.
pub open spec fn scopes_closed(st: OpIterView, n: nat) -> nat
    decreases n,
{
    if n == 0 {
        0
    } else {
        let first: nat = if op_step(st).0 matches Some(Ok(op)) && closes_scope(op.code) {
            1
        } else {
            0
        };
        first + scopes_closed(op_step(st).1, (n - 1) as nat)
    }
}

/// While a stream yields instructions, the scopes that are open are those
/// it began with, plus those opened, minus those closed.
pub proof fn lemma_nesting_is_balance(st: OpIterView, n: nat)
    requires
        ops_ok(st, n),
    ensures
        ops_after(st, n).nesting + scopes_closed(st, n) == st.nesting + scopes_opened(st, n),
    decreases n,
{
    if n > 0 {
        lemma_nesting_is_balance(op_step(st).1, (n - 1) as nat);
    }
}

/// An instruction stream, which begins inside one implicit scope, has ended
/// after `n` instructions if and only if it has then closed one scope more
/// than it has opened; and once it has ended, it yields nothing more.
pub proof fn lemma_stream_ends_when_balanced(bytes: Seq<u8>, n: nat)
    requires
        ops_ok(OpIterView { bytes, nesting: 1 }, n),
    ensures
        ({
            let st = OpIterView { bytes, nesting: 1 };
            let balanced = scopes_closed(st, n) == scopes_opened(st, n) + 1;
            &&& ops_after(st, n).nesting == 0 <==> balanced
            &&& scopes_closed(st, n) <= scopes_opened(st, n) + 1
            &&& balanced ==> op_step(ops_after(st, n)).0 is None
            &&& balanced ==> !ops_ok(st, n + 1)
        }),
{
    let st = OpIterView { bytes, nesting: 1 };
    lemma_nesting_is_balance(st, n);
    if scopes_closed(st, n) == scopes_opened(st, n) + 1 {
        lemma_ops_ok_splits(st, n);
    }
}

/// A stream yields `n + 1` instructions when it yields `n` and then one
/// more.
proof fn lemma_ops_ok_splits(st: OpIterView, n: nat)
    ensures
        ops_ok(st, n + 1) <==> (ops_ok(st, n) && (op_step(ops_after(st, n)).0 matches Some(
            Ok(_),
        ))),
    decreases n,
{
    if n > 0 {
        lemma_ops_ok_splits(op_step(st).1, (n - 1) as nat);
        assert(ops_ok(st, n + 1) <==> ((op_step(st).0 matches Some(Ok(_))) && ops_ok(
            op_step(st).1,
            n,
        )));
    } else {
        assert(ops_ok(op_step(st).1, 0));
    }
}

/// True when each of the first `n` pulls on the arms yields a target.
pub open spec fn arms_ok(st: ArmsView, n: nat) -> bool
    decreases n,
{
    n == 0 || ((arms_step(st).0 matches Some(Ok(_))) && arms_ok(arms_step(st).1, (n - 1) as nat))
}

/// The cursor over the arms after `n` pulls.
pub open spec fn arms_after(st: ArmsView, n: nat) -> ArmsView
    decreases n,
{
    if n == 0 {
        st
    } else {
        arms_after(arms_step(st).1, (n - 1) as nat)
    }
}

/// Skipping one varint and then the others is skipping them all.
proof fn lemma_skip_varuints_front(x: Seq<u8>, m: nat)
    requires
        m >= 1,
    ensures
        skip_varuints(x, m) == (match take_varuint(x) {
            Err(e) => Err::<Seq<u8>, Error>(e),
            Ok((_, x1)) => skip_varuints(x1, (m - 1) as nat),
        }),
    decreases m,
{
    if m > 1 {
        lemma_skip_varuints_front(x, (m - 1) as nat);
        match take_varuint(x) {
            Err(e) => {},
            Ok((_, x1)) => {
                assert(skip_varuints(x1, (m - 1) as nat) == (match skip_varuints(
                    x1,
                    (m - 2) as nat,
                ) {
                    Err(e) => Err::<Seq<u8>, Error>(e),
                    Ok(r) => match take_varuint(r) {
                        Err(e) => Err(e),
                        Ok((_, rest)) => Ok(rest),
                    },
                }));
            },
        }
    } else {
        assert(skip_varuints(x, 0) == Ok::<Seq<u8>, Error>(x));
        match take_varuint(x) {
            Err(e) => {},
            Ok((_, x1)) => {
                assert(skip_varuints(x1, 0) == Ok::<Seq<u8>, Error>(x1));
            },
        }
    }
}

/// The bytes of `m` varints, cut off where they end, yield `m` targets
/// and are then used up.
proof fn lemma_arms_run(x: Seq<u8>, m: nat)
    requires
        m <= u32::MAX,
        skip_varuints(x, m) is Ok,
    ensures
        ({
            let r = skip_varuints(x, m)->Ok_0;
            let st = ArmsView { count: m as u32, bytes: x.take(x.len() - r.len()) };
            &&& r.len() <= x.len()
            &&& arms_ok(st, m)
            &&& arms_after(st, m) == (ArmsView { count: 0, bytes: Seq::empty() })
        }),
    decreases m,
{
    let r = skip_varuints(x, m)->Ok_0;
    lemma_skip_varuints_tail(x, m);
    let k = x.len() - r.len();
    let st = ArmsView { count: m as u32, bytes: x.take(k) };
    if m == 0 {
        assert(x.take(0) =~= Seq::<u8>::empty());
    } else {
        lemma_skip_varuints_front(x, m);
        let x1 = take_varuint(x)->Ok_0.1;
        lemma_take_varuint_tail(x);
        lemma_skip_varuints_tail(x1, (m - 1) as nat);
        lemma_take_varuint_prefix(x, k);
        lemma_arms_run(x1, (m - 1) as nat);
        assert(arms_step(st).1 == (ArmsView {
            count: (m - 1) as u32,
            bytes: x1.take(x1.len() - r.len()),
        }));
    }
}

/// The arms of a decoded branch table yield exactly as many targets as the
/// table declares and then nothing, whatever follows the table in the
/// stream: the table keeps the bytes of its arms and no others.
pub proof fn lemma_arms_yield_count(s: Seq<u8>)
    requires
        take_table(s) is Ok,
    ensures
        ({
            let t = take_table(s)->Ok_0.0;
            let st = ArmsView { count: t.count, bytes: t.raw };
            &&& arms_ok(st, t.count as nat)
            &&& arms_step(arms_after(st, t.count as nat)).0 is None
            &&& arms_after(st, t.count as nat).bytes.len() == 0
        }),
{
    let count = take_varuint(s)->Ok_0.0 as u32;
    let r1 = take_varuint(s)->Ok_0.1;
    lemma_arms_run(r1, count as nat);
}

/// The same of a branch table that came out of an instruction stream: its
/// arms yield the declared number of targets and then nothing.
pub proof fn lemma_decoded_arms_yield_count(s: Seq<u8>)
    requires
        take_op(s) is Ok,
        take_op(s)->Ok_0.0.imm is Table,
    ensures
        ({
            let t = take_op(s)->Ok_0.0.imm->Table_0;
            let st = ArmsView { count: t.count, bytes: t.raw };
            &&& arms_ok(st, t.count as nat)
            &&& arms_step(arms_after(st, t.count as nat)).0 is None
        }),
{
    lemma_arms_yield_count(s.skip(1));
}

} // verus!
