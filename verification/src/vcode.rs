//! The VCode container: machine instructions grouped into basic blocks,
//! with the virtual-register class table, per-block successors, the
//! per-instruction origin map, and the constant island.
//!
//! The passes over VCode — splicing the allocator's output with the
//! prologue and epilogue, removing redundant branches, finalizing branch
//! displacements, and emission — live here, each specified as a pure
//! function of the container's state.

use vstd::prelude::*;
use crate::binemit::CodeSink;
use crate::inst::Inst;
use crate::machinst::{BlockIndex, MachTerminator};
use crate::regs::{RealReg, Reg, RegClass, Writable};

verus! {

/// The origin marker of instructions that no IR instruction produced (the
/// prologue, moves for arguments, and so on).
pub const NO_IR_INST: u32 = 0xFFFF_FFFF;

/// Lowered machine code: instructions in block order, block boundaries,
/// virtual-register classes, successors, the origin of each instruction,
/// and the literal pool with its emitted island.
pub struct VCode {
    /// The number of virtual registers; every virtual index is below this.
    pub num_vregs: u32,
    /// The class of each virtual register.
    pub vreg_classes: Vec<RegClass>,
    /// All instructions, grouped by block.
    pub insts: Vec<Inst>,
    /// Per instruction, the IR instruction it was lowered from, or
    /// `NO_IR_INST`.
    pub irmap: Vec<u32>,
    /// Half-open instruction ranges, one per block; block 0 is the entry.
    pub block_ranges: Vec<(usize, usize)>,
    /// Successor blocks of each block.
    pub block_succs: Vec<Vec<BlockIndex>>,
    /// The 64-bit literals referenced by literal loads.
    pub pool: Vec<u64>,
    /// The constant island appended after the last block by branch
    /// finalization: optional padding, then one entry per literal.
    pub island: Vec<Inst>,
}

/// A register reference is within the virtual-register table and of the
/// recorded class.
pub open spec fn vreg_ok(r: Reg, classes: Seq<RegClass>) -> bool {
    match r {
        Reg::Virtual(v) => v.index < classes.len() && classes[v.index as int] == v.class,
        Reg::Real(_) => true,
    }
}

/// Every register an instruction mentions satisfies `vreg_ok`.
pub open spec fn inst_vregs_ok(i: Inst, classes: Seq<RegClass>) -> bool {
    forall|j: int|
        0 <= j < i.spec_regs().len() ==> vreg_ok((#[trigger] i.spec_regs()[j]).0, classes)
}

impl VCode {
    /// The instructions of block `b`.
    pub open spec fn block_insts(self, b: int) -> Seq<Inst> {
        self.insts@.subrange(self.block_ranges@[b].0 as int, self.block_ranges@[b].1 as int)
    }

    /// Structural well-formedness: the block ranges partition the
    /// instruction list, and every successor index names a block.
    pub open spec fn wf_blocks(self) -> bool {
        &&& self.block_ranges@.len() >= 1
        &&& self.block_ranges@[0].0 == 0
        &&& self.block_ranges@[self.block_ranges@.len() - 1].1 == self.insts@.len()
        &&& forall|b: int|
            0 <= b < self.block_ranges@.len() ==> (#[trigger] self.block_ranges@[b]).0
                <= self.block_ranges@[b].1 <= self.insts@.len()
        &&& forall|b: int|
            0 <= b < self.block_ranges@.len() - 1 ==> (#[trigger] self.block_ranges@[b]).1
                == self.block_ranges@[b + 1].0
        &&& self.block_succs@.len() == self.block_ranges@.len()
        &&& self.irmap@.len() == self.insts@.len()
        &&& self.vreg_classes@.len() == self.num_vregs
    }

    /// Every virtual register referenced by any instruction is in
    /// `[0, num_vregs)` and of its recorded class.
    pub open spec fn wf_vregs(self) -> bool {
        forall|k: int|
            0 <= k < self.insts@.len() ==> inst_vregs_ok(
                #[trigger] self.insts@[k],
                self.vreg_classes@,
            )
    }

    /// Terminator discipline before branch removal: every block is
    /// nonempty, ends in exactly one terminator, and has none mid-block.
    pub open spec fn wf_terms(self) -> bool {
        forall|b: int|
            0 <= b < self.block_ranges@.len() ==> {
                let insts = #[trigger] self.block_insts(b);
                &&& insts.len() >= 1
                &&& !(insts.last().spec_is_term() is NoTerm)
                &&& forall|k: int|
                    0 <= k < insts.len() - 1 ==> (#[trigger] insts[k]).spec_is_term() is NoTerm
            }
    }

    /// Terminator discipline after branch removal: no terminator stands
    /// mid-block, and a block may end without one only by falling through
    /// to the next block.  A non-compound conditional branch relies on
    /// fall-through, so its not-taken target must be the next block.
    pub open spec fn wf_terms_final(self) -> bool {
        forall|b: int|
            0 <= b < self.block_ranges@.len() ==> {
                let insts = #[trigger] self.block_insts(b);
                &&& forall|k: int|
                    0 <= k < insts.len() - 1 ==> (#[trigger] insts[k]).spec_is_term() is NoTerm
                &&& (insts.len() > 0 ==> (insts.last() matches Inst::CondBr {
                    not_taken,
                    compound: false,
                    ..
                } ==> not_taken == b + 1))
            }
    }

    /// The total byte size of the instructions `insts[..n]`.
    pub open spec fn spec_size_to(insts: Seq<Inst>, n: int) -> int
        decreases n,
    {
        if n <= 0 {
            0
        } else {
            Self::spec_size_to(insts, n - 1) + insts[n - 1].spec_bytes().len()
        }
    }

    /// The byte size of the function body (all blocks, island excluded).
    pub open spec fn spec_body_size(self) -> int {
        Self::spec_size_to(self.insts@, self.insts@.len() as int)
    }

    /// The byte size of the island.
    pub open spec fn spec_island_size(self) -> int {
        Self::spec_size_to(self.island@, self.island@.len() as int)
    }

    /// The bytes of `insts[..n]`, concatenated.
    pub open spec fn spec_bytes_to(insts: Seq<Inst>, n: int) -> Seq<u8>
        decreases n,
    {
        if n <= 0 {
            Seq::empty()
        } else {
            Self::spec_bytes_to(insts, n - 1) + insts[n - 1].spec_bytes()
        }
    }

    /// The bytes this VCode emits: every instruction in block order, then
    /// the island.
    pub open spec fn spec_emitted_bytes(self) -> Seq<u8> {
        Self::spec_bytes_to(self.insts@, self.insts@.len() as int) + Self::spec_bytes_to(
            self.island@,
            self.island@.len() as int,
        )
    }

    /// All instructions, island included, are ready to encode.
    pub open spec fn wf_emit_all(self) -> bool {
        &&& forall|k: int| 0 <= k < self.insts@.len() ==> (#[trigger] self.insts@[k]).wf_emit()
        &&& forall|k: int| 0 <= k < self.island@.len() ==> (#[trigger] self.island@[k]).wf_emit()
    }

    /// The size in bytes of the emitted code: the sum of every
    /// instruction's size, island entries included.
    pub fn emitted_size(&self) -> (n: usize)
        requires
            self.spec_body_size() + self.spec_island_size() <= usize::MAX,
        ensures
            n == self.spec_body_size() + self.spec_island_size(),
            n == self.spec_emitted_bytes().len(),
    {
        proof {
            lemma_size_to_mono(self.insts@, self.insts@.len() as int, self.insts@.len() as int);
            lemma_size_to_mono(self.island@, self.island@.len() as int, self.island@.len() as int);
        }
        let body = sum_sizes(&self.insts);
        let island = sum_sizes(&self.island);
        proof {
            lemma_bytes_to_len(self.insts@, self.insts@.len() as int);
            lemma_bytes_to_len(self.island@, self.island@.len() as int);
        }
        body + island
    }

    /// Emit the whole function: every instruction in block order, then the
    /// island.  The bytes written are exactly `emitted_size` long.
    pub fn emit(&self, sink: &mut CodeSink)
        requires
            self.wf_emit_all(),
        ensures
            final(sink).bytes@ == old(sink).bytes@ + self.spec_emitted_bytes(),
            final(sink).bytes@.len() == old(sink).bytes@.len() + self.spec_body_size()
                + self.spec_island_size(),
    {
        emit_seq(sink, &self.insts);
        emit_seq(sink, &self.island);
        proof {
            lemma_bytes_to_len(self.insts@, self.insts@.len() as int);
            lemma_bytes_to_len(self.island@, self.island@.len() as int);
            assert(final(sink).bytes@ =~= old(sink).bytes@ + self.spec_emitted_bytes());
        }
    }
}

/// The concatenated bytes of a prefix are as long as the sum of its sizes.
proof fn lemma_bytes_to_len(insts: Seq<Inst>, n: int)
    requires
        n <= insts.len(),
    ensures
        VCode::spec_bytes_to(insts, n).len() == VCode::spec_size_to(insts, n),
    decreases n,
{
    if n > 0 {
        lemma_bytes_to_len(insts, n - 1);
    }
}

/// Sum the encoded sizes of `insts`.
fn sum_sizes(insts: &Vec<Inst>) -> (n: usize)
    requires
        VCode::spec_size_to(insts@, insts@.len() as int) <= usize::MAX,
    ensures
        n == VCode::spec_size_to(insts@, insts@.len() as int),
{
    let mut total: usize = 0;
    let mut i: usize = 0;
    while i < insts.len()
        invariant
            i <= insts@.len(),
            total == VCode::spec_size_to(insts@, i as int),
            VCode::spec_size_to(insts@, insts@.len() as int) <= usize::MAX,
        decreases insts@.len() - i,
    {
        proof {
            lemma_size_to_mono(insts@, i + 1, insts@.len() as int);
        }
        total = total + insts[i].size();
        i = i + 1;
    }
    total
}

/// Prefix sums of sizes are monotone.
proof fn lemma_size_to_mono(insts: Seq<Inst>, m: int, n: int)
    requires
        0 <= m <= n <= insts.len(),
    ensures
        VCode::spec_size_to(insts, m) <= VCode::spec_size_to(insts, n),
        0 <= VCode::spec_size_to(insts, m),
    decreases n,
{
    if m < n {
        lemma_size_to_mono(insts, m, n - 1);
    } else if m > 0 {
        lemma_size_to_mono(insts, m - 1, m - 1);
    }
}

/// Emit each instruction of `insts` in order.
fn emit_seq(sink: &mut CodeSink, insts: &Vec<Inst>)
    requires
        forall|k: int| 0 <= k < insts@.len() ==> (#[trigger] insts@[k]).wf_emit(),
    ensures
        final(sink).bytes@ == old(sink).bytes@ + VCode::spec_bytes_to(
            insts@,
            insts@.len() as int,
        ),
{
    let ghost base = sink.bytes@;
    let mut i: usize = 0;
    while i < insts.len()
        invariant
            i <= insts@.len(),
            sink.bytes@ == base + VCode::spec_bytes_to(insts@, i as int),
            forall|k: int| 0 <= k < insts@.len() ==> (#[trigger] insts@[k]).wf_emit(),
        decreases insts@.len() - i,
    {
        insts[i].emit(sink);
        proof {
            assert(sink.bytes@ =~= base + VCode::spec_bytes_to(insts@, i + 1));
        }
        i = i + 1;
    }
    proof {
        assert(sink.bytes@ =~= old(sink).bytes@ + VCode::spec_bytes_to(
            insts@,
            insts@.len() as int,
        ));
    }
}

/// The concatenated length of the first `n` blocks.
pub open spec fn flat_len(bs: Seq<Seq<Inst>>, n: int) -> int
    decreases n,
{
    if n <= 0 {
        0
    } else {
        flat_len(bs, n - 1) + bs[n - 1].len()
    }
}

/// The first `n` blocks, concatenated.
pub open spec fn flat(bs: Seq<Seq<Inst>>, n: int) -> Seq<Inst>
    decreases n,
{
    if n <= 0 {
        Seq::empty()
    } else {
        flat(bs, n - 1) + bs[n - 1]
    }
}

proof fn lemma_flat_len(bs: Seq<Seq<Inst>>, n: int)
    ensures
        flat(bs, n).len() == flat_len(bs, n),
        n >= 0 ==> flat_len(bs, n) >= 0,
    decreases n,
{
    if n > 0 {
        lemma_flat_len(bs, n - 1);
    }
}

/// Redundant-branch removal on one block: an unconditional branch to the
/// next block in layout order is deleted (control falls through), and a
/// compound conditional branch whose not-taken side is the next block
/// drops its unconditional half — never the conditional itself.
pub open spec fn spec_remove_block(b: Seq<Inst>, idx: int) -> Seq<Inst> {
    if b.len() == 0 {
        b
    } else {
        match b.last() {
            Inst::Jump { dest, .. } => if dest == idx + 1 {
                b.drop_last()
            } else {
                b
            },
            Inst::CondBr { kind, taken, not_taken, compound, rel_taken, rel_not_taken } => if
                not_taken == idx + 1 && compound {
                b.drop_last().push(
                    Inst::CondBr {
                        kind,
                        taken,
                        not_taken,
                        compound: false,
                        rel_taken,
                        rel_not_taken,
                    },
                )
            } else {
                b
            },
            _ => b,
        }
    }
}

/// Redundant-branch removal on a whole layout.
pub open spec fn spec_remove_all(bs: Seq<Seq<Inst>>) -> Seq<Seq<Inst>> {
    Seq::new(bs.len() as nat, |i: int| spec_remove_block(bs[i], i))
}

impl VCode {
    /// The instructions of each block, as a sequence of blocks.
    pub open spec fn blocks_view(self) -> Seq<Seq<Inst>> {
        Seq::new(self.block_ranges@.len() as nat, |b: int| self.block_insts(b))
    }

    /// Remove redundant branches: in final layout order, delete each
    /// unconditional branch to the block that immediately follows it, and
    /// turn each compound conditional branch whose not-taken target
    /// immediately follows into its fall-through form.  The conditional
    /// branch itself is never removed.
    #[verifier::rlimit(100)]
    #[verifier::spinoff_prover]
    pub fn remove_redundant_branches(&mut self)
        requires
            old(self).wf_blocks(),
        ensures
            final(self).wf_blocks(),
            final(self).blocks_view() == spec_remove_all(old(self).blocks_view()),
            final(self).block_ranges@.len() == old(self).block_ranges@.len(),
            final(self).num_vregs == old(self).num_vregs,
            final(self).vreg_classes == old(self).vreg_classes,
            final(self).block_succs == old(self).block_succs,
            final(self).pool == old(self).pool,
            final(self).island == old(self).island,
    {
        let ghost obs = old(self).blocks_view();
        let ghost nbs = spec_remove_all(old(self).blocks_view());
        let nb = self.block_ranges.len();
        let mut b: usize = 0;
        let mut removed: usize = 0;
        while b < nb
            invariant
                b <= nb,
                removed == (if b < nb {
                    old(self).block_ranges@[b as int].0 as int
                } else {
                    old(self).insts@.len() as int
                }) - flat_len(nbs, b as int),
                nb == self.block_ranges@.len(),
                nb == old(self).block_ranges@.len(),
                old(self).wf_blocks(),
                obs == old(self).blocks_view(),
                nbs == spec_remove_all(old(self).blocks_view()),
                self.insts@ == flat(nbs, b as int) + old(self).insts@.subrange(
                    if b < nb {
                        old(self).block_ranges@[b as int].0 as int
                    } else {
                        old(self).insts@.len() as int
                    },
                    old(self).insts@.len() as int,
                ),
                self.irmap@.len() == self.insts@.len(),
                forall|j: int|
                    0 <= j < b ==> #[trigger] self.block_ranges@[j].0 == flat_len(nbs, j)
                        && self.block_ranges@[j].1 == flat_len(nbs, j + 1),
                forall|j: int|
                    b <= j < nb ==> #[trigger] self.block_ranges@[j] == old(
                        self,
                    ).block_ranges@[j],
                self.num_vregs == old(self).num_vregs,
                self.vreg_classes == old(self).vreg_classes,
                self.block_succs == old(self).block_succs,
                self.pool == old(self).pool,
                self.island == old(self).island,
            decreases nb - b,
        {
            proof {
                lemma_flat_len(nbs, b as int);
                lemma_flat_len(nbs, b + 1);
            }
            let ghost oblock = obs[b as int];
            let ghost nblock = nbs[b as int];
            let (os, oe) = self.block_ranges[b];
            let ghost flatb = flat(nbs, b as int);
            proof {
                // The pending suffix begins with block b's old instructions.
                assert(old(self).insts@.subrange(os as int, old(self).insts@.len() as int)
                    =~= oblock + old(self).insts@.subrange(
                    oe as int,
                    old(self).insts@.len() as int,
                ));
            }
            let s: usize = os - removed;
            let mut e: usize = oe - removed;
            if oe > os {
                let last_idx = e - 1;
                proof {
                    assert(self.insts@[last_idx as int] == oblock.last());
                }
                let term = self.insts[last_idx].is_term();
                match term {
                    MachTerminator::Uncond(dest) => {
                        if dest as usize == b + 1 {
                            self.insts.remove(last_idx);
                            self.irmap.remove(last_idx);
                            e = e - 1;
                            removed = removed + 1;
                            proof {
                                assert(nblock =~= oblock.drop_last());
                                assert(self.insts@ =~= flatb + nblock + old(
                                    self,
                                ).insts@.subrange(oe as int, old(self).insts@.len() as int));
                            }
                        } else {
                            proof {
                                assert(nblock =~= oblock);
                            }
                        }
                    },
                    MachTerminator::Cond(_, not_taken) => {
                        if not_taken as usize == b + 1 {
                            let cur = &self.insts[last_idx];
                            let repl: Inst = match cur {
                                Inst::CondBr {
                                    kind,
                                    taken,
                                    not_taken,
                                    compound,
                                    rel_taken,
                                    rel_not_taken,
                                } => Inst::CondBr {
                                    kind: *kind,
                                    taken: *taken,
                                    not_taken: *not_taken,
                                    compound: false,
                                    rel_taken: *rel_taken,
                                    rel_not_taken: *rel_not_taken,
                                },
                                _ => Inst::Nop0,
                            };
                            if matches!(repl, Inst::CondBr { .. }) {
                                self.insts[last_idx] = repl;
                            }
                            proof {
                                assert(self.insts@ =~= flatb + nblock + old(
                                    self,
                                ).insts@.subrange(oe as int, old(self).insts@.len() as int));
                            }
                        } else {
                            proof {
                                assert(nblock =~= oblock);
                            }
                        }
                    },
                    _ => {
                        proof {
                            assert(nblock =~= oblock);
                        }
                    },
                }
            } else {
                proof {
                    assert(nblock =~= oblock);
                }
            }
            self.block_ranges[b] = (s, e);
            proof {
                assert(flat(nbs, b + 1) =~= flat(nbs, b as int) + nbs[b as int]);
                assert(self.insts@ =~= flat(nbs, b + 1) + old(self).insts@.subrange(
                    if b + 1 < nb {
                        old(self).block_ranges@[b as int + 1].0 as int
                    } else {
                        old(self).insts@.len() as int
                    },
                    old(self).insts@.len() as int,
                ));
            }
            b = b + 1;
        }
        proof {
            lemma_flat_len(nbs, nb as int);
            assert(self.insts@ =~= flat(nbs, nb as int));
            assert forall|i: int| 0 <= i < nb implies #[trigger] self.blocks_view()[i]
                == nbs[i] by {
                lemma_flat_len(nbs, i);
                lemma_flat_len(nbs, i + 1);
                lemma_flat_prefix(nbs, i, nb as int);
                assert(self.block_insts(i) =~= nbs[i]);
            }
            assert(self.blocks_view() =~= spec_remove_all(old(self).blocks_view()));
            assert forall|j: int|
                0 <= j < nb implies (#[trigger] self.block_ranges@[j]).0 <= self.block_ranges@[j].1
                <= self.insts@.len() by {
                lemma_flat_len(nbs, j);
                lemma_flat_len(nbs, j + 1);
                lemma_flat_mono(nbs, j + 1, nb as int);
            }
        }
    }
}

/// Flat lengths grow with the number of blocks.
proof fn lemma_flat_mono(bs: Seq<Seq<Inst>>, m: int, n: int)
    requires
        0 <= m <= n,
    ensures
        flat_len(bs, m) <= flat_len(bs, n),
    decreases n,
{
    if m < n {
        lemma_flat_mono(bs, m, n - 1);
    }
}

/// Blocks within the concatenation sit at their flat offsets.
proof fn lemma_flat_prefix(bs: Seq<Seq<Inst>>, i: int, n: int)
    requires
        0 <= i < n <= bs.len(),
    ensures
        flat(bs, n).subrange(flat_len(bs, i), flat_len(bs, i + 1)) == bs[i],
        flat_len(bs, i + 1) <= flat_len(bs, n),
        0 <= flat_len(bs, i),
    decreases n,
{
    lemma_flat_len(bs, i);
    lemma_flat_len(bs, i + 1);
    lemma_flat_len(bs, n);
    if i + 1 == n {
        assert(flat(bs, n) =~= flat(bs, i) + bs[i]);
        assert(flat(bs, n).subrange(flat_len(bs, i), flat_len(bs, i + 1)) =~= bs[i]);
    } else {
        lemma_flat_prefix(bs, i, n - 1);
        assert(flat(bs, n) =~= flat(bs, n - 1) + bs[n - 1]);
        assert(flat(bs, n).subrange(flat_len(bs, i), flat_len(bs, i + 1)) =~= flat(
            bs,
            n - 1,
        ).subrange(flat_len(bs, i), flat_len(bs, i + 1)));
    }
}

/// The byte offset of the start of block `b`.
pub open spec fn spec_block_off(insts: Seq<Inst>, ranges: Seq<(usize, usize)>, b: int) -> int {
    VCode::spec_size_to(insts, ranges[b].0 as int)
}

/// How many constant loads stand before position `k`.
pub open spec fn spec_lit_count(insts: Seq<Inst>, k: int) -> int
    decreases k,
{
    if k <= 0 {
        0
    } else {
        spec_lit_count(insts, k - 1) + (if insts[k - 1] is LoadConst64 {
            1int
        } else {
            0int
        })
    }
}

/// The island's base offset: the body size, rounded up to 8 bytes.
pub open spec fn spec_lit_base(insts: Seq<Inst>) -> int {
    crate::spec_align8(VCode::spec_size_to(insts, insts.len() as int))
}

/// A conditional-branch displacement fits its 19-bit field.
pub open spec fn in_imm19(rel: int) -> bool {
    -0x100000 <= rel < 0x100000
}

/// An unconditional-branch displacement fits its 26-bit field.
pub open spec fn in_imm26(rel: int) -> bool {
    -0x8000000 <= rel < 0x8000000
}

/// One instruction after branch finalization: branches carry the
/// displacement from their own address to their target block, the second
/// word of a compound conditional carries its own displacement, and a
/// constant load becomes a literal load from its island slot.
pub open spec fn spec_patch_inst(insts: Seq<Inst>, ranges: Seq<(usize, usize)>, k: int) -> Inst {
    let off = VCode::spec_size_to(insts, k);
    match insts[k] {
        Inst::Jump { dest, .. } => Inst::Jump {
            dest,
            rel: (spec_block_off(insts, ranges, dest as int) - off) as i32,
        },
        Inst::CondBr { kind, taken, not_taken, compound, .. } => Inst::CondBr {
            kind,
            taken,
            not_taken,
            compound,
            rel_taken: (spec_block_off(insts, ranges, taken as int) - off) as i32,
            rel_not_taken: (spec_block_off(insts, ranges, not_taken as int) - (off + 4)) as i32,
        },
        Inst::LoadConst64 { rd, .. } => Inst::LdrLit {
            rd,
            rel: (spec_lit_base(insts) + 8 * spec_lit_count(insts, k) - off) as i32,
        },
        _ => insts[k],
    }
}

/// The instruction list after branch finalization.
pub open spec fn spec_patched(insts: Seq<Inst>, ranges: Seq<(usize, usize)>) -> Seq<Inst> {
    Seq::new(insts.len(), |k: int| spec_patch_inst(insts, ranges, k))
}

/// The literals collected from the first `k` instructions, in order.
pub open spec fn spec_collected(insts: Seq<Inst>, k: int) -> Seq<u64>
    decreases k,
{
    if k <= 0 {
        Seq::empty()
    } else {
        spec_collected(insts, k - 1) + (match insts[k - 1] {
            Inst::LoadConst64 { const_data, .. } => seq![const_data],
            _ => Seq::empty(),
        })
    }
}

/// The island for a pool: nothing when the pool is empty, else padding up
/// to 8 bytes followed by one data entry per literal.
pub open spec fn spec_island_of(pool: Seq<u64>, body: int) -> Seq<Inst> {
    if pool.len() == 0 {
        Seq::empty()
    } else {
        (if body % 8 == 0 {
            Seq::empty()
        } else {
            seq![Inst::Pad]
        }) + pool.map_values(|d: u64| Inst::ConstData { data: d })
    }
}

/// The displacement or literal reference of the instruction at `k` fits
/// its encoding.
pub open spec fn inst_in_range(insts: Seq<Inst>, ranges: Seq<(usize, usize)>, k: int) -> bool {
    let off = VCode::spec_size_to(insts, k);
    match insts[k] {
        Inst::Jump { dest, .. } => dest < ranges.len() && in_imm26(
            spec_block_off(insts, ranges, dest as int) - off,
        ),
        Inst::CondBr { taken, not_taken, .. } => taken < ranges.len() && not_taken < ranges.len()
            && in_imm19(spec_block_off(insts, ranges, taken as int) - off) && in_imm26(
            spec_block_off(insts, ranges, not_taken as int) - (off + 4),
        ),
        Inst::LoadConst64 { .. } => in_imm19(
            spec_lit_base(insts) + 8 * spec_lit_count(insts, k) - off,
        ),
        _ => true,
    }
}

/// Every branch displacement and literal reference fits its encoding.
pub open spec fn spec_branches_in_range(insts: Seq<Inst>, ranges: Seq<(usize, usize)>) -> bool {
    forall|k: int| 0 <= k < insts.len() ==> inst_in_range(insts, ranges, k)
}

impl VCode {
    /// Finalize branches: compute every block's byte offset from the
    /// instruction sizes, patch every branch with the signed displacement
    /// to its target, append every 64-bit constant to the pool and turn its
    /// load into a literal load, and rebuild the island from the pool.
    /// Fails, changing nothing, when a displacement does not fit its
    /// encoding.  Constant loads address the island past the existing pool
    /// entries, so the pool must be empty when any remain — which also lets
    /// a finalized function be finalized again.
    #[verifier::rlimit(100)]
    #[verifier::spinoff_prover]
    pub fn finalize_branches(&mut self) -> (r: Result<(), crate::abi::CodegenError>)
        requires
            old(self).wf_blocks(),
            old(self).insts@.len() <= 0x1000000,
            old(self).pool@.len() == 0 || spec_lit_count(
                old(self).insts@,
                old(self).insts@.len() as int,
            ) == 0,
        ensures
            match r {
                Ok(()) => {
                    &&& spec_branches_in_range(old(self).insts@, old(self).block_ranges@)
                    &&& final(self).insts@ == spec_patched(
                        old(self).insts@,
                        old(self).block_ranges@,
                    )
                    &&& final(self).pool@ == old(self).pool@ + spec_collected(
                        old(self).insts@,
                        old(self).insts@.len() as int,
                    )
                    &&& final(self).island@ == spec_island_of(
                        final(self).pool@,
                        old(self).spec_body_size(),
                    )
                    &&& final(self).block_ranges == old(self).block_ranges
                    &&& final(self).block_succs == old(self).block_succs
                    &&& final(self).irmap == old(self).irmap
                    &&& final(self).num_vregs == old(self).num_vregs
                    &&& final(self).vreg_classes == old(self).vreg_classes
                },
                Err(e) => {
                    &&& e == crate::abi::CodegenError::BranchRangeExhaustion
                    &&& !spec_branches_in_range(old(self).insts@, old(self).block_ranges@)
                    &&& *final(self) == *old(self)
                },
            },
    {
        let n = self.insts.len();
        let nb = self.block_ranges.len();
        // Block offsets, by summing instruction sizes up to each block start.
        let mut boffs: Vec<i64> = Vec::new();
        let mut cur: i64 = 0;
        let mut k: usize = 0;
        let mut b: usize = 0;
        while b < nb
            invariant
                b <= nb,
                nb == self.block_ranges@.len(),
                *self == *old(self),
                old(self).wf_blocks(),
                old(self).insts@.len() <= 0x1000000,
                n == self.insts@.len(),
                boffs@.len() == b,
                k == (if b < nb {
                    self.block_ranges@[b as int].0
                } else {
                    n
                }),
                cur == Self::spec_size_to(self.insts@, k as int),
                cur <= 8 * k,
                0 <= cur,
                forall|j: int|
                    0 <= j < b ==> #[trigger] boffs@[j] == spec_block_off(
                        self.insts@,
                        self.block_ranges@,
                        j,
                    ),
                forall|j: int| 0 <= j < b ==> 0 <= #[trigger] boffs@[j] <= 8 * n,
            decreases nb - b,
        {
            boffs.push(cur);
            let e = self.block_ranges[b].1;
            while k < e
                invariant
                    old(self).wf_blocks(),
                    *self == *old(self),
                    b < nb,
                    nb == self.block_ranges@.len(),
                    n == self.insts@.len(),
                    old(self).insts@.len() <= 0x1000000,
                    e == self.block_ranges@[b as int].1,
                    k <= e <= n,
                    cur == Self::spec_size_to(self.insts@, k as int),
                    cur <= 8 * k,
                    0 <= cur,
                decreases e - k,
            {
                let sz = self.insts[k].size() as i64;
                proof {
                    assert(self.insts@[k as int].spec_bytes().len() <= 8);
                }
                cur = cur + sz;
                k = k + 1;
            }
            b = b + 1;
        }
        let body: i64 = cur;
        let lit_base: i64 = ((body + 7) / 8) * 8;
        proof {
            assert(lit_base == crate::spec_align8(body as int));
            assert(spec_lit_base(self.insts@) == lit_base);
            assert(((body + 7) / 8) * 8 <= body + 7);
            assert(0 <= lit_base <= 8 * n + 8);
        }
        // Validation pass: nothing is mutated until every displacement is
        // known to fit.
        let mut off: i64 = 0;
        let mut nlit: i64 = 0;
        let mut k: usize = 0;
        while k < n
            invariant
                k <= n,
                *self == *old(self),
                old(self).wf_blocks(),
                old(self).insts@.len() <= 0x1000000,
                n == self.insts@.len(),
                nb == self.block_ranges@.len(),
                boffs@.len() == nb,
                forall|j: int|
                    0 <= j < nb ==> #[trigger] boffs@[j] == spec_block_off(
                        self.insts@,
                        self.block_ranges@,
                        j,
                    ),
                lit_base == spec_lit_base(self.insts@),
                0 <= lit_base <= 8 * n + 8,
                forall|j: int| 0 <= j < nb ==> 0 <= #[trigger] boffs@[j] <= 8 * n,
                off == Self::spec_size_to(self.insts@, k as int),
                0 <= off <= 8 * k,
                nlit == spec_lit_count(self.insts@, k as int),
                0 <= nlit <= k,
                forall|j: int|
                    0 <= j < k ==> #[trigger] inst_in_range(self.insts@, self.block_ranges@, j),
            decreases n - k,
        {
            let inst = &self.insts[k];
            let sz = inst.size() as i64;
            proof {
                assert(self.insts@[k as int].spec_bytes().len() <= 8);
            }
            let ok: bool = check_inst_range(
                inst,
                &boffs,
                off,
                nlit,
                lit_base,
                Ghost(self.insts@),
                Ghost(self.block_ranges@),
                Ghost(k as int),
            );
            if !ok {
                proof {
                    assert(!spec_branches_in_range(self.insts@, self.block_ranges@));
                }
                return Err(crate::abi::CodegenError::BranchRangeExhaustion);
            }
            if matches!(inst, Inst::LoadConst64 { .. }) {
                nlit = nlit + 1;
            }
            off = off + sz;
            k = k + 1;
        }
        proof {
            assert(spec_branches_in_range(self.insts@, self.block_ranges@));
        }
        // Patch pass.
        let ghost orig = self.insts@;
        proof {
            assert(self.pool@ =~= old(self).pool@ + spec_collected(orig, 0));
        }
        let mut off: i64 = 0;
        let mut nlit: i64 = 0;
        let mut k: usize = 0;
        while k < n
            invariant
                k <= n,
                n == self.insts@.len(),
                nb == self.block_ranges@.len(),
                orig == old(self).insts@,
                self.block_ranges == old(self).block_ranges,
                self.block_succs == old(self).block_succs,
                self.irmap == old(self).irmap,
                self.num_vregs == old(self).num_vregs,
                self.vreg_classes == old(self).vreg_classes,
                self.island == old(self).island,
                old(self).wf_blocks(),
                old(self).insts@.len() <= 0x1000000,
                spec_branches_in_range(orig, self.block_ranges@),
                boffs@.len() == nb,
                forall|j: int|
                    0 <= j < nb ==> #[trigger] boffs@[j] == spec_block_off(
                        orig,
                        self.block_ranges@,
                        j,
                    ),
                lit_base == spec_lit_base(orig),
                0 <= lit_base <= 8 * n + 8,
                forall|j: int| 0 <= j < nb ==> 0 <= #[trigger] boffs@[j] <= 8 * n,
                orig.len() == n,
                forall|j: int| k <= j < n ==> #[trigger] self.insts@[j] == orig[j],
                forall|j: int|
                    0 <= j < k ==> #[trigger] self.insts@[j] == spec_patch_inst(
                        orig,
                        self.block_ranges@,
                        j,
                    ),
                off == Self::spec_size_to(orig, k as int),
                0 <= off <= 8 * k,
                nlit == spec_lit_count(orig, k as int),
                0 <= nlit <= k,
                self.pool@ == old(self).pool@ + spec_collected(orig, k as int),
            decreases n - k,
        {
            let inst = &self.insts[k];
            let sz = inst.size() as i64;
            proof {
                assert(self.insts@[k as int] == orig[k as int]);
                assert(orig[k as int].spec_bytes().len() <= 8);
                assert(inst_in_range(orig, self.block_ranges@, k as int));
            }
            let was_lit: bool = matches!(inst, Inst::LoadConst64 { .. });
            let patched = compute_patch(
                inst,
                &boffs,
                off,
                nlit,
                lit_base,
                Ghost(orig),
                Ghost(self.block_ranges@),
                Ghost(k as int),
            );
            let (repl, lit) = patched;
            match repl {
                Some(newinst) => {
                    self.insts[k] = newinst;
                },
                None => {},
            }
            match lit {
                Some(d) => {
                    self.pool.push(d);
                },
                None => {},
            }
            if was_lit {
                nlit = nlit + 1;
            }
            off = off + sz;
            k = k + 1;
        }
        // Rebuild the island from the pool.
        let mut island: Vec<Inst> = Vec::new();
        if self.pool.len() > 0 {
            if body % 8 != 0 {
                island.push(Inst::Pad);
            }
            let mut i: usize = 0;
            while i < self.pool.len()
                invariant
                    i <= self.pool@.len(),
                    island@ == (if (body as int) % 8 == 0 {
                        Seq::<Inst>::empty()
                    } else {
                        seq![Inst::Pad]
                    }) + self.pool@.subrange(0, i as int).map_values(
                        |d: u64| Inst::ConstData { data: d },
                    ),
                decreases self.pool@.len() - i,
            {
                island.push(Inst::ConstData { data: self.pool[i] });
                proof {
                    assert(island@ =~= (if (body as int) % 8 == 0 {
                        Seq::<Inst>::empty()
                    } else {
                        seq![Inst::Pad]
                    }) + self.pool@.subrange(0, i + 1).map_values(
                        |d: u64| Inst::ConstData { data: d },
                    ));
                }
                i = i + 1;
            }
            proof {
                assert(self.pool@.subrange(0, self.pool@.len() as int) =~= self.pool@);
            }
        }
        self.island = island;
        proof {
            assert(self.insts@ =~= spec_patched(old(self).insts@, old(self).block_ranges@));
            assert(body == old(self).spec_body_size());
            assert(self.island@ =~= spec_island_of(self.pool@, old(self).spec_body_size()));
        }
        Ok(())
    }
}

/// Check that the instruction at `k` can be encoded: its displacement or
/// literal reference fits.
fn check_inst_range(
    inst: &Inst,
    boffs: &Vec<i64>,
    off: i64,
    nlit: i64,
    lit_base: i64,
    Ghost(insts): Ghost<Seq<Inst>>,
    Ghost(ranges): Ghost<Seq<(usize, usize)>>,
    Ghost(k): Ghost<int>,
) -> (ok: bool)
    requires
        0 <= k < insts.len(),
        *inst == insts[k],
        insts.len() <= 0x1000000,
        off == VCode::spec_size_to(insts, k),
        0 <= off <= 8 * insts.len(),
        nlit == spec_lit_count(insts, k),
        0 <= nlit <= insts.len(),
        lit_base == spec_lit_base(insts),
        0 <= lit_base <= 8 * insts.len() + 8,
        boffs@.len() == ranges.len(),
        forall|j: int| 0 <= j < ranges.len() ==> #[trigger] boffs@[j] == spec_block_off(insts, ranges, j),
        forall|j: int| 0 <= j < ranges.len() ==> 0 <= #[trigger] boffs@[j] <= 8 * insts.len(),
    ensures
        ok == inst_in_range(insts, ranges, k),
{
    match inst {
        Inst::Jump { dest, .. } => {
            if (*dest as usize) < boffs.len() {
                let rel: i64 = boffs[*dest as usize] - off;
                -0x8000000 <= rel && rel < 0x8000000
            } else {
                false
            }
        },
        Inst::CondBr { taken, not_taken, .. } => {
            if (*taken as usize) < boffs.len() && (*not_taken as usize) < boffs.len() {
                let rt: i64 = boffs[*taken as usize] - off;
                let rnt: i64 = boffs[*not_taken as usize] - (off + 4);
                -0x100000 <= rt && rt < 0x100000 && -0x8000000 <= rnt && rnt < 0x8000000
            } else {
                false
            }
        },
        Inst::LoadConst64 { .. } => {
            let rel: i64 = lit_base + 8 * nlit - off;
            -0x100000 <= rel && rel < 0x100000
        },
        _ => true,
    }
}

/// The patched form of the instruction at `k`, or nothing when patching
/// leaves it unchanged.  The second component is the literal the
/// instruction contributes to the pool.
fn compute_patch(
    inst: &Inst,
    boffs: &Vec<i64>,
    off: i64,
    nlit: i64,
    lit_base: i64,
    Ghost(insts): Ghost<Seq<Inst>>,
    Ghost(ranges): Ghost<Seq<(usize, usize)>>,
    Ghost(k): Ghost<int>,
) -> (r: (Option<Inst>, Option<u64>))
    requires
        0 <= k < insts.len(),
        *inst == insts[k],
        insts.len() <= 0x1000000,
        inst_in_range(insts, ranges, k),
        off == VCode::spec_size_to(insts, k),
        0 <= off <= 8 * insts.len(),
        nlit == spec_lit_count(insts, k),
        0 <= nlit <= insts.len(),
        lit_base == spec_lit_base(insts),
        0 <= lit_base <= 8 * insts.len() + 8,
        boffs@.len() == ranges.len(),
        forall|j: int| 0 <= j < ranges.len() ==> #[trigger] boffs@[j] == spec_block_off(insts, ranges, j),
        forall|j: int| 0 <= j < ranges.len() ==> 0 <= #[trigger] boffs@[j] <= 8 * insts.len(),
    ensures
        match r.0 {
            Some(i) => i == spec_patch_inst(insts, ranges, k),
            None => spec_patch_inst(insts, ranges, k) == insts[k],
        },
        r.1 == (match insts[k] {
            Inst::LoadConst64 { const_data, .. } => Some(const_data),
            _ => Option::<u64>::None,
        }),
{
    match inst {
        Inst::Jump { dest, .. } => {
            let rel: i64 = boffs[*dest as usize] - off;
            (Some(Inst::Jump { dest: *dest, rel: rel as i32 }), None)
        },
        Inst::CondBr { kind, taken, not_taken, compound, .. } => {
            let rt: i64 = boffs[*taken as usize] - off;
            let rnt: i64 = boffs[*not_taken as usize] - (off + 4);
            (
                Some(
                    Inst::CondBr {
                        kind: *kind,
                        taken: *taken,
                        not_taken: *not_taken,
                        compound: *compound,
                        rel_taken: rt as i32,
                        rel_not_taken: rnt as i32,
                    },
                ),
                None,
            )
        },
        Inst::LoadConst64 { rd, const_data } => {
            let rel: i64 = lit_base + 8 * nlit - off;
            (Some(Inst::LdrLit { rd: *rd, rel: rel as i32 }), Some(*const_data))
        },
        _ => (None, None),
    }
}

/// What the register allocator returns: the rewritten instruction
/// sequence, the start of each block in it, the clobbered registers, and
/// the number of spill slots used.
pub struct RegAllocResult {
    pub insns: Vec<Inst>,
    pub block_starts: Vec<usize>,
    pub clobbered: Vec<Writable<RealReg>>,
    pub num_spill_slots: u32,
}

impl RegAllocResult {
    /// The block starts partition the instruction sequence.
    pub open spec fn wf(self) -> bool {
        &&& self.block_starts@.len() >= 1
        &&& self.block_starts@[0] == 0
        &&& forall|b: int|
            0 <= b < self.block_starts@.len() - 1 ==> #[trigger] self.block_starts@[b]
                <= self.block_starts@[b + 1]
        &&& forall|b: int|
            0 <= b < self.block_starts@.len() ==> #[trigger] self.block_starts@[b]
                <= self.insns@.len()
    }

    /// The instructions of block `b` in the allocator's output.
    pub open spec fn block_of(self, b: int) -> Seq<Inst> {
        self.insns@.subrange(
            self.block_starts@[b] as int,
            if b + 1 < self.block_starts@.len() {
                self.block_starts@[b + 1] as int
            } else {
                self.insns@.len() as int
            },
        )
    }
}

/// A move whose source and destination were given the same register; the
/// allocator leaves such moves behind and the splice drops them.
pub open spec fn spec_identity_move(i: Inst) -> bool {
    match i {
        Inst::Mov { rd, rm } => rd.reg == rm,
        Inst::Mov32 { rd, rm } => rd.reg == rm,
        Inst::FpuMov { rd, rm } => rd.reg == rm,
        _ => false,
    }
}

/// A block body with every epilogue placeholder replaced by the epilogue
/// sequence and every identity move dropped.
pub open spec fn spec_splice(insts: Seq<Inst>, epi: Seq<Inst>) -> Seq<Inst>
    decreases insts.len(),
{
    if insts.len() == 0 {
        Seq::empty()
    } else {
        spec_splice(insts.drop_last(), epi) + (if insts.last() is EpiloguePlaceholder {
            epi
        } else if spec_identity_move(insts.last()) {
            Seq::empty()
        } else {
            seq![insts.last()]
        })
    }
}

impl VCode {
    /// Replace the instructions with the allocator's output: record the
    /// spill count and the clobber set, splice the prologue at the entry,
    /// replace each epilogue placeholder with the generated epilogue, and
    /// drop the moves whose two sides were given the same register.  Block
    /// order is unchanged; block boundaries are recomputed.
    #[verifier::rlimit(100)]
    #[verifier::spinoff_prover]
    pub fn replace_insns_from_regalloc(
        &mut self,
        result: RegAllocResult,
        abi: &mut crate::abi::ARM64ABIBody,
        flags: &crate::settings::Flags,
    )
        requires
            old(self).wf_blocks(),
            result.wf(),
            result.block_starts@.len() == old(self).block_ranges@.len(),
            old(abi).wf(),
            old(abi).call_conv.spec_extends_baldrdash() ==> !flags.enable_probestack,
            crate::abi::spec_vec_callee_saves(result.clobbered@).len() <= 15,
        ensures
            final(self).wf_blocks(),
            final(self).block_ranges@.len() == old(self).block_ranges@.len(),
            final(self).num_vregs == old(self).num_vregs,
            final(self).vreg_classes == old(self).vreg_classes,
            final(self).block_succs == old(self).block_succs,
            final(self).pool == old(self).pool,
            final(self).island == old(self).island,
            *final(abi) == (crate::abi::ARM64ABIBody {
                spillslots: Some(result.num_spill_slots),
                clobbered: result.clobbered,
                total_frame_size: Some(
                    (crate::abi::ARM64ABIBody {
                        spillslots: Some(result.num_spill_slots),
                        clobbered: result.clobbered,
                        ..*old(abi)
                    }).spec_total_stacksize(*flags) as u64,
                ),
                ..*old(abi)
            }),
            final(self).blocks_view() == Seq::new(
                old(self).block_ranges@.len() as nat,
                |b: int|
                    (if b == 0 {
                        final(abi).spec_prologue(*flags)
                    } else {
                        Seq::empty()
                    }) + spec_splice(result.block_of(b), final(abi).spec_epilogue(*flags)),
            ),
    {
        let RegAllocResult { insns, block_starts, clobbered, num_spill_slots } = result;
        let ghost orig = insns@;
        let mut insns = insns;
        abi.set_num_spillslots(num_spill_slots);
        abi.set_clobbered(clobbered);
        let prologue = abi.gen_prologue(flags);
        let ghost pro = prologue@;
        let ghost epi = abi.spec_epilogue(*flags);
        let nb = block_starts.len();
        let ghost tb = Seq::new(
            nb as nat,
            |b: int|
                (if b == 0 {
                    pro
                } else {
                    Seq::<Inst>::empty()
                }) + spec_splice(result.block_of(b), epi),
        );
        let mut prologue = prologue;
        let n_orig = insns.len();
        let mut new_insts: Vec<Inst> = Vec::new();
        let mut new_ranges: Vec<(usize, usize)> = Vec::new();
        let mut b: usize = 0;
        let mut c: usize = 0;
        while b < nb
            invariant
                b <= nb,
                n_orig == orig.len(),
                b == 0 ==> prologue@ == pro,
                nb == block_starts@.len(),
                block_starts@ == result.block_starts@,
                orig == result.insns@,
                result.wf(),
                abi.wf(),
                *abi == *final(abi),
                epi == abi.spec_epilogue(*flags),
                crate::abi::spec_vec_callee_saves(abi.clobbered@).len() <= 15,
                tb == Seq::new(
                    nb as nat,
                    |bb: int|
                        (if bb == 0 {
                            pro
                        } else {
                            Seq::<Inst>::empty()
                        }) + spec_splice(result.block_of(bb), epi),
                ),
                c == (if b < nb {
                    block_starts@[b as int] as int
                } else {
                    orig.len() as int
                }),
                insns@ == orig.skip(c as int),
                new_insts@ == flat(tb, b as int),
                new_ranges@.len() == b,
                forall|j: int|
                    0 <= j < b ==> #[trigger] new_ranges@[j].0 == flat_len(tb, j)
                        && new_ranges@[j].1 == flat_len(tb, j + 1),
            decreases nb - b,
        {
            proof {
                lemma_flat_len(tb, b as int);
                lemma_flat_len(tb, b + 1);
            }
            let s = new_insts.len();
            if b == 0 {
                new_insts.append(&mut prologue);
            }
            let e_block: usize = if b + 1 < nb {
                block_starts[b + 1]
            } else {
                n_orig
            };
            let ghost blockseq = result.block_of(b as int);
            proof {
                assert(orig.subrange(block_starts@[b as int] as int, c as int)
                    =~= Seq::<Inst>::empty());
                assert(new_insts@ =~= flat(tb, b as int) + (if b == 0 {
                    pro
                } else {
                    Seq::<Inst>::empty()
                }) + spec_splice(orig.subrange(block_starts@[b as int] as int, c as int), epi));
            }
            while c < e_block
                invariant
                    b < nb,
                    nb == block_starts@.len(),
                    block_starts@ == result.block_starts@,
                    orig == result.insns@,
                    result.wf(),
                    abi.wf(),
                    *abi == *final(abi),
                    epi == abi.spec_epilogue(*flags),
                    crate::abi::spec_vec_callee_saves(abi.clobbered@).len() <= 15,
                    block_starts@[b as int] <= c <= e_block,
                    e_block == (if b + 1 < nb {
                        block_starts@[b as int + 1] as int
                    } else {
                        orig.len() as int
                    }),
                    blockseq == result.block_of(b as int),
                    insns@ == orig.skip(c as int),
                    new_insts@ == flat(tb, b as int) + (if b == 0 {
                        pro
                    } else {
                        Seq::<Inst>::empty()
                    }) + spec_splice(
                        orig.subrange(block_starts@[b as int] as int, c as int),
                        epi,
                    ),
                decreases e_block - c,
            {
                proof {
                    assert(orig.skip(c as int).len() > 0);
                }
                let inst = insns.remove(0);
                proof {
                    assert(inst == orig[c as int]);
                    assert(insns@ =~= orig.skip(c + 1));
                    assert(orig.subrange(block_starts@[b as int] as int, c + 1).drop_last()
                        =~= orig.subrange(block_starts@[b as int] as int, c as int));
                }
                if matches!(inst, Inst::EpiloguePlaceholder) {
                    let mut epilogue = abi.gen_epilogue(flags);
                    new_insts.append(&mut epilogue);
                } else {
                    let identity: bool = match inst.is_move() {
                        Some((d, src)) => d.reg == src,
                        None => false,
                    };
                    if !identity {
                        new_insts.push(inst);
                    }
                }
                proof {
                    assert(new_insts@ =~= flat(tb, b as int) + (if b == 0 {
                        pro
                    } else {
                        Seq::<Inst>::empty()
                    }) + spec_splice(
                        orig.subrange(block_starts@[b as int] as int, c + 1),
                        epi,
                    ));
                }
                c = c + 1;
            }
            let e = new_insts.len();
            new_ranges.push((s, e));
            proof {
                assert(orig.subrange(
                    block_starts@[b as int] as int,
                    if b + 1 < nb {
                        block_starts@[b as int + 1] as int
                    } else {
                        orig.len() as int
                    },
                ) =~= result.block_of(b as int));
                assert(tb[b as int] == (if b == 0 {
                    pro
                } else {
                    Seq::<Inst>::empty()
                }) + spec_splice(result.block_of(b as int), epi));
                assert(flat(tb, b + 1) =~= flat(tb, b as int) + tb[b as int]);
                assert(new_insts@ =~= flat(tb, b + 1));
                lemma_flat_len(tb, b as int);
                lemma_flat_len(tb, b + 1);
            }
            b = b + 1;
        }
        // The origin map no longer applies to the rewritten sequence.
        let mut new_irmap: Vec<u32> = Vec::new();
        let mut i: usize = 0;
        let n_new = new_insts.len();
        while i < n_new
            invariant
                i <= n_new,
                new_irmap@.len() == i,
            decreases n_new - i,
        {
            new_irmap.push(NO_IR_INST);
            i = i + 1;
        }
        self.insts = new_insts;
        self.irmap = new_irmap;
        self.block_ranges = new_ranges;
        proof {
            lemma_flat_len(tb, nb as int);
            assert(self.insts@ =~= flat(tb, nb as int));
            assert forall|i2: int| 0 <= i2 < nb implies #[trigger] self.blocks_view()[i2]
                == tb[i2] by {
                lemma_flat_len(tb, i2);
                lemma_flat_len(tb, i2 + 1);
                lemma_flat_prefix(tb, i2, nb as int);
                assert(self.block_insts(i2) =~= tb[i2]);
            }
            assert(self.blocks_view() =~= tb);
            assert forall|j: int|
                0 <= j < nb implies (#[trigger] self.block_ranges@[j]).0 <= self.block_ranges@[j].1
                <= self.insts@.len() by {
                lemma_flat_len(tb, j);
                lemma_flat_len(tb, j + 1);
                lemma_flat_mono(tb, j + 1, nb as int);
            }
        }
    }
}

/// No terminator stands anywhere but the last position of a block.
pub open spec fn view_no_mid_terms(bs: Seq<Seq<Inst>>) -> bool {
    forall|b: int, k: int|
        0 <= b < bs.len() && 0 <= k < bs[b].len() - 1 ==> (#[trigger] bs[b][k]).spec_is_term()
            is NoTerm
}

/// Every conditional branch still carries its unconditional half.
pub open spec fn view_cond_compound(bs: Seq<Seq<Inst>>) -> bool {
    forall|b: int|
        0 <= b < bs.len() && (#[trigger] bs[b]).len() > 0 ==> (bs[b].last() matches Inst::CondBr {
            compound,
            ..
        } ==> compound)
}

/// The shape branch removal leaves behind: no terminator mid-block, and a
/// conditional branch that relies on fall-through has the next block as its
/// not-taken target.
pub open spec fn view_final_form(bs: Seq<Seq<Inst>>) -> bool {
    &&& view_no_mid_terms(bs)
    &&& forall|b: int|
        0 <= b < bs.len() && (#[trigger] bs[b]).len() > 0 ==> (bs[b].last() matches Inst::CondBr {
            not_taken,
            compound: false,
            ..
        } ==> not_taken == b + 1)
}

proof fn lemma_remove_block_idempotent(b: Seq<Inst>, idx: int)
    requires
        forall|k: int| 0 <= k < b.len() - 1 ==> (#[trigger] b[k]).spec_is_term() is NoTerm,
    ensures
        spec_remove_block(spec_remove_block(b, idx), idx) == spec_remove_block(b, idx),
{
    let b1 = spec_remove_block(b, idx);
    if b.len() > 0 {
        match b.last() {
            Inst::Jump { dest, .. } => {
                if dest == idx + 1 {
                    if b1.len() > 0 {
                        assert(b1.last() == b[b.len() - 2]);
                        assert(b1.last().spec_is_term() is NoTerm);
                    }
                }
            },
            Inst::CondBr { .. } => {},
            _ => {},
        }
    }
}

/// Redundant-branch removal is idempotent: running it a second time over
/// any layout whose terminators stand only at block ends changes nothing.
pub proof fn lemma_remove_redundant_idempotent(bs: Seq<Seq<Inst>>)
    requires
        view_no_mid_terms(bs),
    ensures
        spec_remove_all(spec_remove_all(bs)) == spec_remove_all(bs),
{
    let bs1 = spec_remove_all(bs);
    assert forall|i: int| 0 <= i < bs1.len() implies #[trigger] spec_remove_all(bs1)[i]
        == bs1[i] by {
        assert(forall|k: int| 0 <= k < bs[i].len() - 1 ==> (#[trigger] bs[i][k]).spec_is_term()
            is NoTerm);
        lemma_remove_block_idempotent(bs[i], i);
    }
    assert(spec_remove_all(bs1) =~= bs1);
}

/// After removal the layout has the final form: terminators only at block
/// ends, and fall-through conditionals aimed at the next block.
pub proof fn lemma_remove_gives_final_form(bs: Seq<Seq<Inst>>)
    requires
        view_no_mid_terms(bs),
        view_cond_compound(bs),
    ensures
        view_final_form(spec_remove_all(bs)),
{
    let bs1 = spec_remove_all(bs);
    assert forall|b: int, k: int|
        0 <= b < bs1.len() && 0 <= k < bs1[b].len() - 1 implies (
    #[trigger] bs1[b][k]).spec_is_term() is NoTerm by {
        assert(bs1[b] == spec_remove_block(bs[b], b));
        assert(bs1[b][k] == bs[b][k]);
    }
    assert forall|b: int|
        0 <= b < bs1.len() && (#[trigger] bs1[b]).len() > 0 implies (
    bs1[b].last() matches Inst::CondBr { not_taken, compound: false, .. } ==> not_taken == b
        + 1) by {
        assert(bs1[b] == spec_remove_block(bs[b], b));
        if bs[b].len() > 0 {
            match bs[b].last() {
                Inst::Jump { dest, .. } => {
                    if dest == b + 1 && bs1[b].len() > 0 {
                        assert(bs1[b].last() == bs[b][bs[b].len() - 2]);
                        assert(bs1[b].last().spec_is_term() is NoTerm);
                    }
                },
                _ => {},
            }
        }
    }
}

/// Patching changes no instruction's size.
proof fn lemma_patched_sizes(insts: Seq<Inst>, ranges: Seq<(usize, usize)>, n: int)
    requires
        n <= insts.len(),
    ensures
        VCode::spec_size_to(spec_patched(insts, ranges), n) == VCode::spec_size_to(insts, n),
    decreases n,
{
    if n > 0 {
        lemma_patched_sizes(insts, ranges, n - 1);
        assert(spec_patched(insts, ranges)[n - 1] == spec_patch_inst(insts, ranges, n - 1));
    }
}

/// Patching leaves no constant loads, so the second collection is empty
/// and no literal counts remain.
proof fn lemma_patched_no_lits(insts: Seq<Inst>, ranges: Seq<(usize, usize)>, n: int)
    requires
        n <= insts.len(),
    ensures
        spec_collected(spec_patched(insts, ranges), n) == Seq::<u64>::empty(),
        spec_lit_count(spec_patched(insts, ranges), n) == 0,
    decreases n,
{
    if n > 0 {
        lemma_patched_no_lits(insts, ranges, n - 1);
        assert(spec_patched(insts, ranges)[n - 1] == spec_patch_inst(insts, ranges, n - 1));
        assert(!(spec_patch_inst(insts, ranges, n - 1) is LoadConst64));
        assert(spec_collected(spec_patched(insts, ranges), n) =~= Seq::<u64>::empty());
    }
}

/// Branch finalization is idempotent: running it again over its own output
/// recomputes the same displacements, collects no new literals, and
/// rebuilds the same island — so the emitted bytes do not change.
#[verifier::rlimit(100)]
#[verifier::spinoff_prover]
pub proof fn lemma_finalize_idempotent(insts: Seq<Inst>, ranges: Seq<(usize, usize)>)
    requires
        forall|b: int| 0 <= b < ranges.len() ==> (#[trigger] ranges[b]).0 <= insts.len(),
        spec_branches_in_range(insts, ranges),
    ensures
        spec_patched(spec_patched(insts, ranges), ranges) == spec_patched(insts, ranges),
        spec_collected(spec_patched(insts, ranges), insts.len() as int) == Seq::<u64>::empty(),
        VCode::spec_size_to(spec_patched(insts, ranges), insts.len() as int)
            == VCode::spec_size_to(insts, insts.len() as int),
        spec_island_of(
            spec_collected(insts, insts.len() as int),
            VCode::spec_size_to(spec_patched(insts, ranges), insts.len() as int),
        ) == spec_island_of(
            spec_collected(insts, insts.len() as int),
            VCode::spec_size_to(insts, insts.len() as int),
        ),
{
    let p1 = spec_patched(insts, ranges);
    lemma_patched_sizes(insts, ranges, insts.len() as int);
    lemma_patched_no_lits(insts, ranges, insts.len() as int);
    assert forall|k: int| 0 <= k < p1.len() implies #[trigger] spec_patched(p1, ranges)[k]
        == p1[k] by {
        lemma_patched_sizes(insts, ranges, k);
        assert(p1[k] == spec_patch_inst(insts, ranges, k));
        assert(inst_in_range(insts, ranges, k));
        match insts[k] {
            Inst::Jump { dest, .. } => {
                lemma_patched_sizes(insts, ranges, ranges[dest as int].0 as int);
                assert(spec_patch_inst(p1, ranges, k) == p1[k]);
            },
            Inst::CondBr { taken, not_taken, .. } => {
                lemma_patched_sizes(insts, ranges, ranges[taken as int].0 as int);
                lemma_patched_sizes(insts, ranges, ranges[not_taken as int].0 as int);
                assert(spec_patch_inst(p1, ranges, k) == p1[k]);
            },
            _ => {
                assert(spec_patch_inst(p1, ranges, k) == p1[k]);
            },
        }
    }
    assert(spec_patched(p1, ranges) =~= p1);
}

impl VCode {
    /// Whether every instruction, island included, is ready to encode.
    pub fn ready_to_emit(&self) -> (b: bool)
        ensures
            b == self.wf_emit_all(),
    {
        let mut k: usize = 0;
        let n = self.insts.len();
        while k < n
            invariant
                k <= n,
                n == self.insts@.len(),
                forall|j: int| 0 <= j < k ==> (#[trigger] self.insts@[j]).wf_emit(),
            decreases n - k,
        {
            if !self.insts[k].emit_ready() {
                return false;
            }
            k = k + 1;
        }
        let mut k: usize = 0;
        let n = self.island.len();
        while k < n
            invariant
                k <= n,
                n == self.island@.len(),
                forall|j: int| 0 <= j < self.insts@.len() ==> (#[trigger] self.insts@[j]).wf_emit(),
                forall|j: int| 0 <= j < k ==> (#[trigger] self.island@[j]).wf_emit(),
            decreases n - k,
        {
            if !self.island[k].emit_ready() {
                return false;
            }
            k = k + 1;
        }
        true
    }
}

} // verus!
