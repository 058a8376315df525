//! The environment block handed to the spawned helper.
//!
//! The helper must initialize with the exact configuration of the
//! launching process, so the block delivered to the spawn step carries
//! every name/value pair the caller supplies — no additions, no
//! omissions. Each pair is rendered as the C-style line `key=value`; the
//! laws below show the rendering is invertible, so the set of pairs
//! recovered on the other side of the process boundary equals the set
//! that went in.

use vstd::prelude::*;

verus! {

/// One environment variable of the launching process, as raw bytes.
pub struct EnvVar {
    pub key: Vec<u8>,
    pub value: Vec<u8>,
}

/// A key is usable when it is nonempty and contains neither the pair
/// separator `=` nor a NUL byte.
pub open spec fn valid_env_key(k: Seq<u8>) -> bool {
    k.len() > 0 && forall|i: int| 0 <= i < k.len() ==> #[trigger] k[i] != 61 && k[i] != 0
}

/// A value is usable when it contains no NUL byte.
pub open spec fn valid_env_value(v: Seq<u8>) -> bool {
    forall|i: int| 0 <= i < v.len() ==> #[trigger] v[i] != 0
}

impl EnvVar {
    /// Both halves of the pair survive the trip through a C string.
    pub open spec fn wf(&self) -> bool {
        valid_env_key(self.key@) && valid_env_value(self.value@)
    }

    /// Runtime check of `wf`, so an unverified caller can sift its
    /// environment before handing it to the constructor.
    pub fn check_wf(&self) -> (r: bool)
        ensures
            r == self.wf(),
    {
        if self.key.len() == 0 {
            return false;
        }
        let mut i: usize = 0;
        while i < self.key.len()
            invariant
                0 <= i <= self.key@.len(),
                forall|j: int| 0 <= j < i ==> #[trigger] self.key@[j] != 61 && self.key@[j] != 0,
            decreases self.key@.len() - i,
        {
            let b = self.key[i];
            if b == 61 || b == 0 {
                proof {
                    assert(self.key@[i as int] == 61 || self.key@[i as int] == 0);
                }
                return false;
            }
            i = i + 1;
        }
        let mut k: usize = 0;
        while k < self.value.len()
            invariant
                valid_env_key(self.key@),
                0 <= k <= self.value@.len(),
                forall|j: int| 0 <= j < k ==> #[trigger] self.value@[j] != 0,
            decreases self.value@.len() - k,
        {
            if self.value[k] == 0 {
                proof {
                    assert(self.value@[k as int] == 0);
                }
                return false;
            }
            k = k + 1;
        }
        true
    }
}

/// The rendered line `key=value`.
pub open spec fn env_line(k: Seq<u8>, v: Seq<u8>) -> Seq<u8> {
    k + seq![61u8] + v
}

/// The position of the first `=` in `s` (its length when none occurs).
pub open spec fn eq_pos(s: Seq<u8>) -> int
    decreases s.len(),
{
    if s.len() == 0 {
        0
    } else if s[0] == 61 {
        0
    } else {
        1 + eq_pos(s.drop_first())
    }
}

/// The key half an unrelated process recovers from a rendered line.
pub open spec fn parsed_key(s: Seq<u8>) -> Seq<u8> {
    s.take(eq_pos(s))
}

/// The value half an unrelated process recovers from a rendered line.
pub open spec fn parsed_value(s: Seq<u8>) -> Seq<u8> {
    s.skip(eq_pos(s) + 1)
}

proof fn lemma_eq_pos_line(k: Seq<u8>, v: Seq<u8>)
    requires
        forall|i: int| 0 <= i < k.len() ==> #[trigger] k[i] != 61,
    ensures
        0 <= eq_pos(env_line(k, v)) == k.len() < env_line(k, v).len(),
    decreases k.len(),
{
    let s = env_line(k, v);
    assert(s.len() == k.len() + 1 + v.len());
    if k.len() == 0 {
        assert(s[0] == 61);
    } else {
        assert(s[0] == k[0]);
        assert(forall|i: int|
            0 <= i < k.drop_first().len() ==> #[trigger] k.drop_first()[i] == k[i + 1]);
        lemma_eq_pos_line(k.drop_first(), v);
        assert(s.drop_first() =~= env_line(k.drop_first(), v));
    }
}

/// Law: recovering the pair undoes the rendering. For every usable key and
/// any value, the line `key=value` splits at its first `=` back into
/// exactly that key and that value.
pub proof fn lemma_env_line_round_trip(k: Seq<u8>, v: Seq<u8>)
    requires
        valid_env_key(k),
    ensures
        parsed_key(env_line(k, v)) == k,
        parsed_value(env_line(k, v)) == v,
{
    lemma_eq_pos_line(k, v);
    assert(parsed_key(env_line(k, v)) =~= k);
    assert(parsed_value(env_line(k, v)) =~= v);
}

/// Law: the environment delivered to the spawned process equals, as a
/// sequence and hence as a set of key/value pairs, the environment of the
/// caller at call time — no additions, no omissions. `lines` is any block
/// in which the i-th line renders the i-th pair, as `build_env_block`
/// ensures; parsing every line recovers exactly the pairs that went in.
pub proof fn lemma_env_block_exact(pairs: Seq<(Seq<u8>, Seq<u8>)>, lines: Seq<Seq<u8>>)
    requires
        lines.len() == pairs.len(),
        forall|i: int| 0 <= i < pairs.len() ==> valid_env_key(#[trigger] pairs[i].0),
        forall|i: int|
            0 <= i < lines.len() ==> #[trigger] lines[i] == env_line(pairs[i].0, pairs[i].1),
    ensures
        lines.map_values(|l: Seq<u8>| (parsed_key(l), parsed_value(l))) == pairs,
        lines.map_values(|l: Seq<u8>| (parsed_key(l), parsed_value(l))).to_set() == pairs.to_set(),
{
    let parsed = lines.map_values(|l: Seq<u8>| (parsed_key(l), parsed_value(l)));
    assert forall|i: int| 0 <= i < pairs.len() implies #[trigger] parsed[i] == pairs[i] by {
        lemma_env_line_round_trip(pairs[i].0, pairs[i].1);
    }
    assert(parsed =~= pairs);
}

/// Law: a block in which the i-th line renders the i-th variable — the
/// relation `build_env_block` ensures — delivers, pair for pair, exactly
/// the variables it was built from.
pub proof fn lemma_built_block_delivers_exactly(env: Seq<EnvVar>, lines: Seq<Seq<u8>>)
    requires
        lines.len() == env.len(),
        forall|i: int| 0 <= i < env.len() ==> (#[trigger] env[i]).wf(),
        forall|i: int|
            0 <= i < lines.len() ==> #[trigger] lines[i] == env_line(env[i].key@, env[i].value@),
    ensures
        lines.map_values(|l: Seq<u8>| (parsed_key(l), parsed_value(l))) == env.map_values(
            |e: EnvVar| (e.key@, e.value@),
        ),
{
    let pairs = env.map_values(|e: EnvVar| (e.key@, e.value@));
    assert forall|i: int| 0 <= i < pairs.len() implies valid_env_key(#[trigger] pairs[i].0) by {
        assert(env[i].wf());
    }
    assert forall|i: int|
        0 <= i < lines.len() implies #[trigger] lines[i] == env_line(pairs[i].0, pairs[i].1) by {
        assert(lines[i] == env_line(env[i].key@, env[i].value@));
    }
    lemma_env_block_exact(pairs, lines);
}

/// Renders one variable as the line `key=value`.
pub fn format_env_var(e: &EnvVar) -> (r: Vec<u8>)
    ensures
        r@ == env_line(e.key@, e.value@),
{
    let mut out: Vec<u8> = Vec::new();
    out.extend_from_slice(e.key.as_slice());
    out.push(61);
    out.extend_from_slice(e.value.as_slice());
    proof {
        assert(out@ =~= env_line(e.key@, e.value@));
    }
    out
}

/// Renders the whole environment block, pair for pair and in order.
pub fn build_env_block(env: &Vec<EnvVar>) -> (r: Vec<Vec<u8>>)
    ensures
        r@.len() == env@.len(),
        forall|i: int|
            0 <= i < env@.len() ==> #[trigger] r@[i]@ == env_line(env@[i].key@, env@[i].value@),
{
    let mut out: Vec<Vec<u8>> = Vec::new();
    let mut i: usize = 0;
    while i < env.len()
        invariant
            0 <= i <= env@.len(),
            out@.len() == i,
            forall|j: int|
                0 <= j < i ==> #[trigger] out@[j]@ == env_line(env@[j].key@, env@[j].value@),
        decreases env@.len() - i,
    {
        out.push(format_env_var(&env[i]));
        i = i + 1;
    }
    out
}

} // verus!
