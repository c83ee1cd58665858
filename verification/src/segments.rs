//! Media segment persistence: names, index selection, and write progress.
//!
//! Each uploaded chunk becomes its own file `video{slot}_segment{index}.webm`
//! under the registry's save directory. The index is the smallest one whose
//! file does not already exist, so a segment file, once created, is never
//! overwritten by a later chunk for the same slot. The owner probes the
//! file system and performs the writes; this module decides names, indices
//! and when to retry.

use vstd::prelude::*;
use vstd::seq_lib::seq_to_set_is_finite;
use vstd::set_lib::lemma_len_subset;
use vstd::string::StringExecFns;

verus! {

/// How many write attempts one upload is given before whatever was flushed
/// is left as the final content.
pub const WRITE_ATTEMPTS: u64 = 10;

/// The decimal digit character for `d`.
pub open spec fn dec_digit(d: nat) -> char
    recommends
        d < 10,
{
    if d == 0 {
        '0'
    } else if d == 1 {
        '1'
    } else if d == 2 {
        '2'
    } else if d == 3 {
        '3'
    } else if d == 4 {
        '4'
    } else if d == 5 {
        '5'
    } else if d == 6 {
        '6'
    } else if d == 7 {
        '7'
    } else if d == 8 {
        '8'
    } else {
        '9'
    }
}

/// The decimal rendering of `n`, most significant digit first, with no
/// leading zeros (except for `n == 0` itself).
pub open spec fn dec_str(n: nat) -> Seq<char>
    decreases n,
{
    if n < 10 {
        seq![dec_digit(n)]
    } else {
        dec_str(n / 10) + seq![dec_digit(n % 10)]
    }
}

/// The one-character string for a single decimal digit.
fn dec_digit_str(d: u64) -> (s: &'static str)
    requires
        d < 10,
    ensures
        s@ == seq![dec_digit(d as nat)],
{
    proof {
        reveal_strlit("0");
        reveal_strlit("1");
        reveal_strlit("2");
        reveal_strlit("3");
        reveal_strlit("4");
        reveal_strlit("5");
        reveal_strlit("6");
        reveal_strlit("7");
        reveal_strlit("8");
        reveal_strlit("9");
    }
    if d == 0 {
        proof {
            assert("0"@ =~= seq![dec_digit(d as nat)]);
        }
        "0"
    } else if d == 1 {
        proof {
            assert("1"@ =~= seq![dec_digit(d as nat)]);
        }
        "1"
    } else if d == 2 {
        proof {
            assert("2"@ =~= seq![dec_digit(d as nat)]);
        }
        "2"
    } else if d == 3 {
        proof {
            assert("3"@ =~= seq![dec_digit(d as nat)]);
        }
        "3"
    } else if d == 4 {
        proof {
            assert("4"@ =~= seq![dec_digit(d as nat)]);
        }
        "4"
    } else if d == 5 {
        proof {
            assert("5"@ =~= seq![dec_digit(d as nat)]);
        }
        "5"
    } else if d == 6 {
        proof {
            assert("6"@ =~= seq![dec_digit(d as nat)]);
        }
        "6"
    } else if d == 7 {
        proof {
            assert("7"@ =~= seq![dec_digit(d as nat)]);
        }
        "7"
    } else if d == 8 {
        proof {
            assert("8"@ =~= seq![dec_digit(d as nat)]);
        }
        "8"
    } else {
        proof {
            assert("9"@ =~= seq![dec_digit(d as nat)]);
        }
        "9"
    }
}

/// Renders `n` in decimal.
pub fn u64_to_dec(n: u64) -> (s: String)
    ensures
        s@ == dec_str(n as nat),
    decreases n,
{
    if n < 10 {
        String::from_str(dec_digit_str(n))
    } else {
        let mut s = u64_to_dec(n / 10);
        let d = dec_digit_str(n % 10);
        s.append(d);
        proof {
            assert((n / 10) as nat == (n as nat) / 10);
            assert((n % 10) as nat == (n as nat) % 10);
        }
        s
    }
}

/// The file name a chunk for `slot` is stored under at `index`.
pub open spec fn segment_name_spec(slot: nat, index: nat) -> Seq<char> {
    "video"@ + dec_str(slot) + "_segment"@ + dec_str(index) + ".webm"@
}

/// Builds `video{slot}_segment{index}.webm`.
pub fn segment_file_name(slot: u64, index: u64) -> (name: String)
    ensures
        name@ == segment_name_spec(slot as nat, index as nat),
{
    let mut s = String::from_str("video");
    let slot_s = u64_to_dec(slot);
    s.append(slot_s.as_str());
    s.append("_segment");
    let index_s = u64_to_dec(index);
    s.append(index_s.as_str());
    s.append(".webm");
    proof {
        assert(s@ =~= segment_name_spec(slot as nat, index as nat));
    }
    s
}

/// The indices up to and including `i`.
spec fn upto(i: u64) -> Set<u64> {
    Set::new(|x: u64| x <= i)
}

proof fn lemma_upto_len(i: u64)
    ensures
        upto(i).finite(),
        upto(i).len() == i + 1,
    decreases i,
{
    if i == 0 {
        assert(upto(0) =~= Set::empty().insert(0));
    } else {
        lemma_upto_len((i - 1) as u64);
        assert(upto(i) =~= upto((i - 1) as u64).insert(i));
    }
}

/// If every index up to and including `i` occurs in `s`, then `s` holds at
/// least `i + 1` elements: a sequence of existing segment indices cannot
/// occupy every candidate, so the probe below terminates.
proof fn lemma_occupied_bound(s: Seq<u64>, i: u64)
    requires
        forall|j: u64| j <= i ==> s.contains(j),
    ensures
        i + 1 <= s.len(),
{
    broadcast use seq_to_set_is_finite;

    lemma_upto_len(i);
    assert forall|x: u64| upto(i).contains(x) implies s.to_set().contains(x) by {
        assert(s.contains(x));
    }
    lemma_len_subset(upto(i), s.to_set());
    s.lemma_cardinality_of_set();
}

/// Whether `x` occurs in `v`.
fn contains_u64(v: &Vec<u64>, x: u64) -> (b: bool)
    ensures
        b == v@.contains(x),
{
    let mut k: usize = 0;
    while k < v.len()
        invariant
            k <= v@.len(),
            forall|t: int| 0 <= t < k ==> v@[t] != x,
        decreases v@.len() - k,
    {
        if v[k] == x {
            proof {
                assert(v@[k as int] == x);
            }
            return true;
        }
        k += 1;
    }
    false
}

/// The smallest segment index whose file does not already exist, given the
/// indices whose files do: the next chunk never lands on an existing file,
/// and no free index is skipped.
pub fn next_segment_index(existing: &Vec<u64>) -> (i: u64)
    ensures
        !existing@.contains(i),
        forall|j: u64| j < i ==> existing@.contains(j),
        i <= existing@.len(),
{
    let n: usize = existing.len();
    let mut i: u64 = 0;
    loop
        invariant
            n == existing@.len(),
            i <= existing@.len(),
            forall|j: u64| j < i ==> existing@.contains(j),
        decreases existing@.len() - i,
    {
        if !contains_u64(existing, i) {
            return i;
        }
        proof {
            lemma_occupied_bound(existing@, i);
            assert(i + 1 <= n);
        }
        i = i + 1;
    }
}

/// Progress of one upload's retrying write: how much of the payload has
/// reached the file and how many attempts remain. The write stops when the
/// payload is complete or the attempts are exhausted; whatever was flushed
/// by then remains on disk. Residual failure is logged by the owner, never
/// surfaced to the uploader.
pub struct WritePlan {
    /// Length of the payload being written.
    pub total: usize,
    /// Bytes already written; the next attempt resumes at this offset.
    pub written: usize,
    /// Attempts left before the write gives up.
    pub retries_left: u64,
}

impl WritePlan {
    /// Progress never outruns the payload.
    pub open spec fn wf(&self) -> bool {
        self.written <= self.total
    }

    /// A fresh plan for a payload of `total` bytes.
    pub fn new(total: usize) -> (p: WritePlan)
        ensures
            p.wf(),
            p.total == total,
            p.written == 0,
            p.retries_left == WRITE_ATTEMPTS,
    {
        WritePlan { total, written: 0, retries_left: WRITE_ATTEMPTS }
    }

    /// Whether another write attempt is due: bytes remain and at least one
    /// attempt is left.
    pub fn pending(&self) -> (b: bool)
        ensures
            b == (self.written < self.total && self.retries_left > 0),
    {
        self.written < self.total && self.retries_left > 0
    }

    /// Records one write attempt: `wrote` is how many bytes the attempt put
    /// down (`None` for an attempt that failed outright). Every attempt
    /// consumes one retry; progress only ever grows.
    pub fn record_attempt(&mut self, wrote: Option<usize>)
        requires
            old(self).wf(),
            old(self).written < old(self).total,
            old(self).retries_left > 0,
            match wrote {
                Some(n) => n <= old(self).total - old(self).written,
                None => true,
            },
        ensures
            final(self).wf(),
            final(self).total == old(self).total,
            final(self).retries_left == old(self).retries_left - 1,
            final(self).written == old(self).written + match wrote {
                Some(n) => n as int,
                None => 0,
            },
    {
        self.retries_left = self.retries_left - 1;
        match wrote {
            Some(n) => {
                self.written = self.written + n;
            },
            None => (),
        }
    }
}

} // verus!
