use vstd::prelude::*;
use crate::decode::{decodes_to, first_error, fails_at, is_assigned, operand_len};
use crate::encode::encoding_of;
use crate::opcode::Opcode;
use crate::word::lemma_value_unique;

verus! {

/// An encoding splits into the first opcode's bytes and the encoding of the
/// rest.
pub proof fn lemma_encoding_of_first(ops: Seq<Opcode>)
    requires
        ops.len() > 0,
    ensures
        encoding_of(ops) == ops[0].encoding() + encoding_of(ops.drop_first()),
    decreases ops.len(),
{
    if ops.len() == 1 {
        assert(ops.drop_last() =~= Seq::<Opcode>::empty());
        assert(ops.drop_first() =~= Seq::<Opcode>::empty());
        assert(encoding_of(ops.drop_last()) =~= Seq::<u8>::empty());
        assert(encoding_of(ops.drop_first()) =~= Seq::<u8>::empty());
        assert(encoding_of(ops) =~= ops[0].encoding());
    } else {
        lemma_encoding_of_first(ops.drop_last());
        assert(ops.drop_last().drop_first() =~= ops.drop_first().drop_last());
        assert(ops.drop_first().last() == ops.last());
        assert(encoding_of(ops) =~= ops[0].encoding() + encoding_of(ops.drop_first()));
    }
}

/// A canonical opcode's byte is assigned, and it carries exactly the
/// operand count that byte declares.
pub proof fn lemma_canonical_code(op: Opcode)
    requires
        op.canonical(),
    ensures
        0 <= op.code() <= 0xFF,
        is_assigned(op.code() as u8),
        op.operands().len() == operand_len(op.code() as u8),
        op.spec_size() == 1 + op.operands().len(),
{
}

/// Two canonical opcodes with the same byte and operand bytes are the same
/// instruction.
pub proof fn lemma_canonical_unique(a: Opcode, b: Opcode)
    requires
        a.canonical(),
        b.canonical(),
        a.code() == b.code(),
        a.operands() == b.operands(),
    ensures
        a.same(b),
{
    reveal(Opcode::same);
    match (a, b) {
        (Opcode::PUSH1(x), Opcode::PUSH1(y)) => {
            assert(a.operands()[0] == x && b.operands()[0] == y);
        },
        (Opcode::PUSHn(n, v, bs), Opcode::PUSHn(m, w, cs)) => {
            lemma_value_unique(v, w);
        },
        _ => {},
    }
}

/// Decoding looks at the bytes from `pos` on only: bytes put in front of
/// them do not change where it first fails.
pub proof fn lemma_first_error_shift(a: Seq<u8>, c: Seq<u8>, k: int)
    requires
        0 <= k,
    ensures
        first_error(a + c, a.len() + k) == first_error(c, k),
    decreases c.len() - k,
{
    let s = a + c;
    if k < c.len() {
        assert(s[a.len() + k] == c[k]);
        if !fails_at(c, k) {
            lemma_first_error_shift(a, c, k + 1 + operand_len(c[k]));
        }
    }
}

/// Round trip: the opcodes that decoding yields are well formed, so they
/// can be encoded, and their encoding is exactly the decoded bytes,
/// operand bytes and their leading zeros included.
pub proof fn lemma_round_trip(b: Seq<u8>, ops: Seq<Opcode>)
    requires
        decodes_to(b, ops),
    ensures
        forall|i: int| 0 <= i < ops.len() ==> (#[trigger] ops[i]).wf(),
        encoding_of(ops) == b,
{
}

/// Decoding is determined by its input: two opcode sequences that both
/// decode from the same bytes hold the same instructions, in the same order.
pub proof fn lemma_decode_unique(b: Seq<u8>, ops1: Seq<Opcode>, ops2: Seq<Opcode>)
    requires
        decodes_to(b, ops1),
        decodes_to(b, ops2),
    ensures
        ops1.len() == ops2.len(),
        forall|i: int| 0 <= i < ops1.len() ==> (#[trigger] ops1[i]).same(ops2[i]),
    decreases ops1.len(),
{
    if ops1.len() == 0 || ops2.len() == 0 {
        if ops1.len() > 0 {
            lemma_encoding_of_first(ops1);
        }
        if ops2.len() > 0 {
            lemma_encoding_of_first(ops2);
        }
    } else {
        let (x, y) = (ops1[0], ops2[0]);
        lemma_encoding_of_first(ops1);
        lemma_encoding_of_first(ops2);
        lemma_canonical_code(x);
        lemma_canonical_code(y);
        assert(x.code() == b[0] as int && y.code() == b[0] as int);
        let len = 1 + operand_len(b[0]);
        assert(x.encoding().len() == len && y.encoding().len() == len);
        assert(x.operands() =~= b.subrange(1, len as int));
        assert(y.operands() =~= b.subrange(1, len as int));
        lemma_canonical_unique(x, y);
        let rest = b.subrange(len as int, b.len() as int);
        assert(encoding_of(ops1.drop_first()) =~= rest);
        assert(encoding_of(ops2.drop_first()) =~= rest);
        assert forall|i: int| 0 <= i < ops1.drop_first().len() implies (#[trigger] ops1.drop_first()[i]).canonical() by {
            assert(ops1.drop_first()[i] == ops1[i + 1]);
        }
        assert forall|i: int| 0 <= i < ops2.drop_first().len() implies (#[trigger] ops2.drop_first()[i]).canonical() by {
            assert(ops2.drop_first()[i] == ops2[i + 1]);
        }
        lemma_decode_unique(rest, ops1.drop_first(), ops2.drop_first());
        assert forall|i: int| 0 <= i < ops1.len() implies (#[trigger] ops1[i]).same(ops2[i]) by {
            if i > 0 {
                assert(ops1.drop_first()[i - 1] == ops1[i]);
                assert(ops2.drop_first()[i - 1] == ops2[i]);
            }
        }
    }
}

/// Encoding then decoding: the encoding of canonical opcodes always
/// decodes, and by [`lemma_decode_unique`] back to the same opcodes.
pub proof fn lemma_encoding_decodes(ops: Seq<Opcode>)
    requires
        forall|i: int| 0 <= i < ops.len() ==> (#[trigger] ops[i]).canonical(),
    ensures
        first_error(encoding_of(ops), 0) is None,
        decodes_to(encoding_of(ops), ops),
    decreases ops.len(),
{
    if ops.len() > 0 {
        let x = ops[0];
        let rest = ops.drop_first();
        lemma_encoding_of_first(ops);
        lemma_canonical_code(x);
        assert forall|i: int| 0 <= i < rest.len() implies (#[trigger] rest[i]).canonical() by {
            assert(rest[i] == ops[i + 1]);
        }
        lemma_encoding_decodes(rest);
        let s = encoding_of(ops);
        assert(s[0] == x.code() as u8);
        assert(!fails_at(s, 0));
        lemma_first_error_shift(x.encoding(), encoding_of(rest), 0);
    }
}

} // verus!
