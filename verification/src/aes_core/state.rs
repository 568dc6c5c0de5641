use vstd::prelude::*;

verus! {

/// Byte `(r, c)` of a 16-byte block laid out column by column (FIPS-197):
/// the byte at position `r + 4 * c`.
pub open spec fn cell(s: Seq<u8>, r: int, c: int) -> u8 {
    s[r + 4 * c]
}

/// The 16-byte block whose byte `(r, c)` is `f(r, c)`.
pub open spec fn block_of(f: spec_fn(int, int) -> u8) -> Seq<u8> {
    Seq::new(16, |i: int| f(i % 4, i / 4))
}

/// Position `r + 4 * c` lies in row `r` and column `c`.
pub proof fn lemma_block_index(r: int, c: int)
    requires
        0 <= r < 4,
        0 <= c < 4,
    ensures
        0 <= r + 4 * c < 16,
        (r + 4 * c) % 4 == r,
        (r + 4 * c) / 4 == c,
{
}

/// Reading byte `(r, c)` of `block_of(f)` gives `f(r, c)`.
pub proof fn lemma_cell_of_block(f: spec_fn(int, int) -> u8, r: int, c: int)
    requires
        0 <= r < 4,
        0 <= c < 4,
    ensures
        cell(block_of(f), r, c) == f(r, c),
{
    lemma_block_index(r, c);
}

/// Two blocks with the same sixteen cells are equal.
pub proof fn lemma_blocks_equal(s: Seq<u8>, t: Seq<u8>)
    requires
        s.len() == 16,
        t.len() == 16,
        forall|r: int, c: int| 0 <= r < 4 && 0 <= c < 4 ==> cell(s, r, c) == cell(t, r, c),
    ensures
        s == t,
{
    assert forall|i: int| 0 <= i < 16 implies s[i] == t[i] by {
        let r = i % 4;
        let c = i / 4;
        assert(i == r + 4 * c);
        assert(cell(s, r, c) == cell(t, r, c));
    }
    assert(s =~= t);
}

/// The AES state: a 4x4 matrix of bytes, filled column by column from a
/// 16-byte block as FIPS-197 prescribes.
pub struct State {
    pub bytes: [[u8; 4]; 4],
}

impl View for State {
    type V = Seq<u8>;

    /// The state read back as a 16-byte block, column by column.
    open spec fn view(&self) -> Seq<u8> {
        Seq::new(16, |i: int| self.bytes[i % 4][i / 4])
    }
}

impl State {
    /// Whether every byte `(r, c)` of the matrix is byte `(r, c)` of `s`.
    pub open spec fn holds(&self, s: Seq<u8>) -> bool {
        &&& s.len() == 16
        &&& forall|r: int, c: int|
            0 <= r < 4 && 0 <= c < 4 ==> #[trigger] self.bytes[r][c] == cell(s, r, c)
    }

    /// A state holds exactly its own view.
    pub proof fn lemma_holds_view(&self, s: Seq<u8>)
        ensures
            self.holds(s) <==> self@ == s,
    {
        if self.holds(s) {
            assert forall|r: int, c: int| 0 <= r < 4 && 0 <= c < 4 implies cell(self@, r, c)
                == cell(s, r, c) by {
                lemma_block_index(r, c);
            }
            lemma_blocks_equal(self@, s);
        }
        if self@ == s {
            assert forall|r: int, c: int| 0 <= r < 4 && 0 <= c < 4 implies #[trigger] self.bytes[r][c]
                == cell(s, r, c) by {
                lemma_block_index(r, c);
            }
        }
    }

    /// Builds a state from a 16-byte block: byte `i` goes to row `i % 4`,
    /// column `i / 4`.
    pub fn from_bytes(input: [u8; 16]) -> (st: State)
        ensures
            st@ == input@,
            st.holds(input@),
    {
        let mut bytes = [[0u8; 4]; 4];

        for i in 0..16usize
            invariant
                forall|j: int| 0 <= j < i ==> #[trigger] bytes[j % 4][j / 4] == input[j],
        {
            let row = i % 4;
            let col = i / 4;
            bytes[row][col] = input[i];
        }

        let st = State { bytes };
        proof {
            assert forall|r: int, c: int| 0 <= r < 4 && 0 <= c < 4 implies #[trigger] st.bytes[r][c]
                == cell(input@, r, c) by {
                lemma_block_index(r, c);
                assert(bytes[(r + 4 * c) % 4][(r + 4 * c) / 4] == input[r + 4 * c]);
            }
            st.lemma_holds_view(input@);
        }
        st
    }

    /// Reads the state back as a 16-byte block, the inverse of `from_bytes`.
    pub fn to_bytes(&self) -> (output: [u8; 16])
        ensures
            output@ == self@,
    {
        let mut output = [0u8; 16];
        for i in 0..16usize
            invariant
                forall|j: int| 0 <= j < i ==> output[j] == #[trigger] self.bytes[j % 4][j / 4],
        {
            let row = i % 4;
            let col = i / 4;
            output[i] = self.bytes[row][col];
        }
        assert(output@ =~= self@);
        output
    }
}

} // verus!
