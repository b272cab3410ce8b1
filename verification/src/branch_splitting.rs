//! Critical-edge splitting: every edge whose source has two or more
//! successors and whose destination has two or more predecessors gets an
//! empty block inserted, so the register allocator can place edge fix-up
//! moves without duplicating them into sibling successors.

use vstd::prelude::*;
use crate::ir::{Block, Function, IrBlockIndex, TermData};

verus! {

/// How many edges of the terminator `t` lead to `s`.
pub open spec fn spec_succ_edges(t: TermData, s: int) -> int {
    match t {
        TermData::Return { .. } => 0,
        TermData::Jump { dest } => if dest == s {
            1int
        } else {
            0int
        },
        TermData::Brnz { taken, not_taken, .. } => (if taken == s {
            1int
        } else {
            0int
        }) + (if not_taken == s {
            1int
        } else {
            0int
        }),
    }
}

/// How many edges from the first `n` blocks of `f` lead to `s`.
pub open spec fn spec_pred_count_to(f: Function, s: int, n: int) -> int
    decreases n,
{
    if n <= 0 {
        0
    } else {
        spec_pred_count_to(f, s, n - 1) + spec_succ_edges(f.blocks@[n - 1].term, s)
    }
}

/// How many predecessor edges block `s` has in `f`.
pub open spec fn spec_pred_count(f: Function, s: int) -> int {
    spec_pred_count_to(f, s, f.blocks@.len() as int)
}

proof fn lemma_pred_count_nonneg(f: Function, s: int, n: int)
    ensures
        n >= 0 ==> 0 <= spec_pred_count_to(f, s, n) <= 2 * n,
    decreases n,
{
    if n > 0 {
        lemma_pred_count_nonneg(f, s, n - 1);
    }
}

/// Split the critical edges of `f`: each conditional edge into a block
/// with two or more predecessors is redirected through a fresh empty block
/// that jumps to the original target.  Unconditional edges need no split
/// (their source has one successor), and targets with a single predecessor
/// keep their direct edge.
pub fn split_critical_edges(f: Function) -> (r: Function)
    requires
        f.wf(),
        f.blocks@.len() <= 0x7FFF,
    ensures
        r.wf(),
        r.signature == f.signature,
        r.stack_slots == f.stack_slots,
        r.value_types == f.value_types,
        r.name == f.name,
        r.blocks@.len() >= f.blocks@.len(),
        forall|b: int|
            0 <= b < f.blocks@.len() ==> (#[trigger] r.blocks@[b]).params == f.blocks@[b].params
                && r.blocks@[b].insts == f.blocks@[b].insts,
        // Original terminators are unchanged except conditional targets,
        // which may be redirected to a fresh stub for the same target.
        forall|b: int|
            0 <= b < f.blocks@.len() ==> match (#[trigger] f.blocks@[b]).term {
                TermData::Return { args } => r.blocks@[b].term == f.blocks@[b].term,
                TermData::Jump { dest } => r.blocks@[b].term == f.blocks@[b].term,
                TermData::Brnz { arg, taken, not_taken } => match r.blocks@[b].term {
                    TermData::Brnz { arg: a2, taken: t2, not_taken: nt2 } => {
                        &&& a2 == arg
                        &&& (t2 == taken || (t2 >= f.blocks@.len() && r.blocks@[t2 as int].term
                            == TermData::Jump { dest: taken }))
                        &&& (nt2 == not_taken || (nt2 >= f.blocks@.len() && r.blocks@[
                            nt2 as int].term == TermData::Jump { dest: not_taken }))
                        &&& (t2 == taken ==> spec_pred_count(f, taken as int) < 2)
                        &&& (nt2 == not_taken ==> spec_pred_count(f, not_taken as int) < 2)
                    },
                    _ => false,
                },
            },
        // Every added block is an empty block that jumps to an original one.
        forall|b: int|
            f.blocks@.len() <= b < r.blocks@.len() ==> (#[trigger] r.blocks@[b]).params@.len() == 0
                && r.blocks@[b].insts@.len() == 0 && match r.blocks@[b].term {
                TermData::Jump { dest } => dest < f.blocks@.len(),
                _ => false,
            },
{
    let nb = f.blocks.len();
    // Count predecessor edges.
    let mut counts: Vec<u32> = Vec::new();
    let mut s: usize = 0;
    while s < nb
        invariant
            s <= nb,
            counts@.len() == s,
            forall|j: int| 0 <= j < s ==> #[trigger] counts@[j] == 0,
        decreases nb - s,
    {
        counts.push(0);
        s = s + 1;
    }
    let mut b: usize = 0;
    while b < nb
        invariant
            b <= nb,
            nb == f.blocks@.len(),
            nb <= 0x7FFF,
            f.wf(),
            counts@.len() == nb,
            forall|t: int|
                0 <= t < nb ==> #[trigger] counts@[t] == spec_pred_count_to(f, t, b as int),
        decreases nb - b,
    {
        proof {
            lemma_pred_count_nonneg(f, 0, b as int);
        }
        match &f.blocks[b].term {
            TermData::Return { .. } => {
                proof {
                    assert forall|t: int| 0 <= t < nb implies #[trigger] counts@[t]
                        == spec_pred_count_to(f, t, b + 1) by {}
                }
            },
            TermData::Jump { dest } => {
                let d = *dest as usize;
                proof {
                    assert(f.blocks@[b as int].term.spec_succs()[0] == *dest);
                    assert(d < nb);
                    lemma_pred_count_nonneg(f, d as int, b as int);
                }
                let cd = counts[d];
                if cd < 0xFFFF {
                    counts[d] = cd + 1;
                }
                proof {
                    assert(f.blocks@[b as int].term == TermData::Jump { dest: *dest });
                    assert forall|t: int| 0 <= t < nb implies #[trigger] counts@[t]
                        == spec_pred_count_to(f, t, b + 1) by {
                        lemma_pred_count_nonneg(f, t, b as int);
                        assert(spec_pred_count_to(f, t, b + 1) == spec_pred_count_to(f, t, b as int)
                            + spec_succ_edges(f.blocks@[b as int].term, t));
                    }
                }
            },
            TermData::Brnz { taken, not_taken, .. } => {
                let d1 = *taken as usize;
                let d2 = *not_taken as usize;
                proof {
                    assert(f.blocks@[b as int].term.spec_succs()[0] == *taken);
                    assert(f.blocks@[b as int].term.spec_succs()[1] == *not_taken);
                    assert(d1 < nb && d2 < nb);
                    lemma_pred_count_nonneg(f, d1 as int, b as int);
                    lemma_pred_count_nonneg(f, d2 as int, b as int);
                }
                let ghost term0 = f.blocks@[b as int].term;
                let c1 = counts[d1];
                if c1 < 0xFFFF {
                    counts[d1] = c1 + 1;
                }
                let c2 = counts[d2];
                if c2 < 0xFFFF {
                    counts[d2] = c2 + 1;
                }
                proof {
                    assert(term0 == TermData::Brnz {
                        arg: term0->Brnz_arg,
                        taken: *taken,
                        not_taken: *not_taken,
                    });
                    assert forall|t: int| 0 <= t < nb implies #[trigger] counts@[t]
                        == spec_pred_count_to(f, t, b + 1) by {
                        lemma_pred_count_nonneg(f, t, b as int);
                        assert(spec_pred_count_to(f, t, b + 1) == spec_pred_count_to(f, t, b as int)
                            + spec_succ_edges(term0, t));
                    }
                }
            },
        }
        b = b + 1;
    }
    // Redirect conditional edges into busy targets through fresh stubs.
    let Function { name, signature, stack_slots, value_types, blocks } = f;
    let ghost f0 = f;
    let mut blocks = blocks;
    let mut stubs: Vec<Block> = Vec::new();
    let mut b: usize = 0;
    while b < nb
        invariant
            b <= nb,
            nb == f0.blocks@.len(),
            nb <= 0x7FFF,
            f0.wf(),
            counts@.len() == nb,
            forall|t: int| 0 <= t < nb ==> #[trigger] counts@[t] == spec_pred_count(f0, t),
            blocks@.len() == nb,
            stubs@.len() <= 2 * b,
            forall|j: int|
                0 <= j < nb ==> (#[trigger] blocks@[j]).params == f0.blocks@[j].params
                    && blocks@[j].insts == f0.blocks@[j].insts,
            forall|j: int|
                b <= j < nb ==> (#[trigger] blocks@[j]).term == f0.blocks@[j].term,
            forall|j: int|
                0 <= j < b ==> match (#[trigger] f0.blocks@[j]).term {
                    TermData::Return { .. } => blocks@[j].term == f0.blocks@[j].term,
                    TermData::Jump { .. } => blocks@[j].term == f0.blocks@[j].term,
                    TermData::Brnz { arg, taken, not_taken } => match blocks@[j].term {
                        TermData::Brnz { arg: a2, taken: t2, not_taken: nt2 } => {
                            &&& a2 == arg
                            &&& (t2 == taken || (t2 >= nb && t2 - nb < stubs@.len() && stubs@[
                                t2 - nb].term == TermData::Jump { dest: taken }))
                            &&& (nt2 == not_taken || (nt2 >= nb && nt2 - nb < stubs@.len()
                                && stubs@[nt2 - nb].term == TermData::Jump { dest: not_taken }))
                            &&& (t2 == taken ==> spec_pred_count(f0, taken as int) < 2)
                            &&& (nt2 == not_taken ==> spec_pred_count(f0, not_taken as int) < 2)
                        },
                        _ => false,
                    },
                },
            forall|j: int|
                0 <= j < stubs@.len() ==> (#[trigger] stubs@[j]).params@.len() == 0
                    && stubs@[j].insts@.len() == 0 && match stubs@[j].term {
                    TermData::Jump { dest } => dest < nb,
                    _ => false,
                },
        decreases nb - b,
    {
        let term = match &blocks[b].term {
            TermData::Brnz { arg, taken, not_taken } => Some((*arg, *taken, *not_taken)),
            _ => None,
        };
        match term {
            Some((arg, taken, not_taken)) => {
                proof {
                    assert(f0.blocks@[b as int].term.spec_succs()[0] == taken);
                    assert(f0.blocks@[b as int].term.spec_succs()[1] == not_taken);
                    assert(taken < nb && not_taken < nb);
                    lemma_pred_count_nonneg(f0, taken as int, nb as int);
                    lemma_pred_count_nonneg(f0, not_taken as int, nb as int);
                }
                let mut t2: IrBlockIndex = taken;
                let mut nt2: IrBlockIndex = not_taken;
                if counts[taken as usize] >= 2 {
                    t2 = (nb + stubs.len()) as IrBlockIndex;
                    stubs.push(
                        Block {
                            params: Vec::new(),
                            insts: Vec::new(),
                            term: TermData::Jump { dest: taken },
                        },
                    );
                }
                if counts[not_taken as usize] >= 2 {
                    nt2 = (nb + stubs.len()) as IrBlockIndex;
                    stubs.push(
                        Block {
                            params: Vec::new(),
                            insts: Vec::new(),
                            term: TermData::Jump { dest: not_taken },
                        },
                    );
                }
                let nt = TermData::Brnz { arg, taken: t2, not_taken: nt2 };
                blocks[b].term = nt;
            },
            None => {},
        }
        b = b + 1;
    }
    // Append the stubs.
    let ghost stubs0 = stubs@;
    let ghost blocks0 = blocks@;
    let mut stubs = stubs;
    blocks.append(&mut stubs);
    let r = Function { name, signature, stack_slots, value_types, blocks };
    proof {
        assert forall|bb: int| 0 <= bb < r.blocks@.len() implies r.block_wf(
            #[trigger] r.blocks@[bb],
        ) by {
            if bb < nb {
                assert(f0.block_wf(f0.blocks@[bb]));
                assert(r.blocks@[bb] == blocks0[bb]);
                assert(r.blocks@.len() == nb + stubs0.len());
                match f0.blocks@[bb].term {
                    TermData::Brnz { arg, taken, not_taken } => {
                        assert(f0.blocks@[bb].term.spec_succs()[0] == taken);
                        assert(f0.blocks@[bb].term.spec_succs()[1] == not_taken);
                        assert(taken < nb && not_taken < nb);
                        match blocks0[bb].term {
                            TermData::Brnz { arg: a2, taken: t2, not_taken: nt2 } => {
                                assert(blocks0[bb].term.spec_succs() =~= seq![t2, nt2]);
                                assert(t2 < r.blocks@.len());
                                assert(nt2 < r.blocks@.len());
                                assert(blocks0[bb].term.spec_args() =~= seq![a2]);
                                assert(f0.blocks@[bb].term.spec_args()[0] == arg);
                                assert(f0.value_in_range(arg));
                            },
                            _ => {},
                        }
                    },
                    _ => {},
                }
            } else {
                assert(r.blocks@[bb] == stubs0[bb - nb]);
            }
        }
    }
    r
}

} // verus!
