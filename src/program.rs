use vstd::prelude::*;
use crate::opcode::{lemma_fixed_code_unique, Opcode};

verus! {

/// An ordered sequence of instructions.
#[derive(Clone, Debug, PartialEq, Eq, Hash)]
pub struct Program(pub Vec<Opcode>);

/// The same instruction as a zeroed form of `op` is itself a zeroed form of
/// `op`.
proof fn lemma_same_zeroed(a: Opcode, z: Opcode, op: Opcode)
    requires
        a.same(z),
        z.is_zeroed_of(op),
    ensures
        a.is_zeroed_of(op),
{
    reveal(Opcode::is_zeroed_of);
    reveal(Opcode::same);
    if op.is_fixed() {
        lemma_fixed_code_unique(a, op);
    }
}

/// `z` is the zeroed form of one of the first `n` opcodes of `ops`.
pub open spec fn zeroed_from(z: Opcode, ops: Seq<Opcode>, n: int) -> bool {
    exists|m: int| 0 <= m < n && z.is_zeroed_of(#[trigger] ops[m])
}

/// `shapes` holds a zeroed form of `op`.
pub open spec fn has_zeroed(shapes: Seq<Opcode>, op: Opcode) -> bool {
    exists|i: int| 0 <= i < shapes.len() && (#[trigger] shapes[i]).is_zeroed_of(op)
}

/// No two opcodes of `ops` are the same instruction.
pub open spec fn distinct(ops: Seq<Opcode>) -> bool {
    forall|i: int, k: int| 0 <= i < k < ops.len() ==> !(#[trigger] ops[i]).same(#[trigger] ops[k])
}

/// Whether `v` holds the same instruction as `x`.
fn holds_same(v: &Vec<Opcode>, x: &Opcode) -> (r: bool)
    ensures
        r == exists|i: int| 0 <= i < v@.len() && (#[trigger] v@[i]).same(*x),
{
    let mut i: usize = 0;
    while i < v.len()
        invariant
            0 <= i <= v@.len(),
            forall|k: int| 0 <= k < i ==> !(#[trigger] v@[k]).same(*x),
        decreases v@.len() - i,
    {
        if v[i] == *x {
            return true;
        }
        i = i + 1;
    }
    false
}

impl Program {
    /// Every opcode of the program is well formed.
    pub open spec fn wf(self) -> bool {
        forall|i: int| 0 <= i < self.0@.len() ==> (#[trigger] self.0@[i]).wf()
    }

    /// The distinct instruction shapes the program uses: each opcode with its
    /// pushed operand zeroed, each shape once, in order of first use.
    pub fn opcode_set(&self) -> (r: Vec<Opcode>)
        ensures
            forall|i: int| 0 <= i < r@.len() ==> zeroed_from(#[trigger] r@[i], self.0@, self.0@.len() as int),
            forall|j: int| 0 <= j < self.0@.len() ==> has_zeroed(r@, #[trigger] self.0@[j]),
            distinct(r@),
    {
        let mut result: Vec<Opcode> = Vec::new();
        let mut j: usize = 0;
        while j < self.0.len()
            invariant
                0 <= j <= self.0@.len(),
                forall|i: int| 0 <= i < result@.len() ==> zeroed_from(#[trigger] result@[i], self.0@, j as int),
                forall|m: int| 0 <= m < j ==> has_zeroed(result@, #[trigger] self.0@[m]),
                distinct(result@),
            decreases self.0@.len() - j,
        {
            let z = self.0[j].zeroed();
            let ghost op = self.0@[j as int];
            let ghost prev = result@;
            assert(zeroed_from(z, self.0@, j + 1)) by {
                assert(z.is_zeroed_of(self.0@[j as int]));
            }
            if holds_same(&result, &z) {
                proof {
                    let i = choose|i: int| 0 <= i < result@.len() && (#[trigger] result@[i]).same(z);
                    lemma_same_zeroed(result@[i], z, op);
                    assert(has_zeroed(result@, op));
                }
            } else {
                result.push(z);
                proof {
                    assert(result@[prev.len() as int] == z);
                    assert(has_zeroed(result@, op));
                    assert forall|m: int| 0 <= m < j implies has_zeroed(result@, #[trigger] self.0@[m]) by {
                        let i = choose|i: int| 0 <= i < prev.len() && (#[trigger] prev[i]).is_zeroed_of(self.0@[m]);
                        assert(result@[i] == prev[i]);
                    }
                    assert forall|i: int, k: int| 0 <= i < k < result@.len() implies !(#[trigger] result@[i]).same(#[trigger] result@[k]) by {
                        assert(result@[i] == prev[i]);
                        if k < prev.len() {
                            assert(result@[k] == prev[k]);
                        }
                    }
                }
            }
            proof {
                assert forall|i: int| 0 <= i < result@.len() implies zeroed_from(#[trigger] result@[i], self.0@, j + 1) by {
                    if i < prev.len() {
                        assert(result@[i] == prev[i]);
                    }
                }
            }
            j = j + 1;
        }
        result
    }
}

} // verus!
