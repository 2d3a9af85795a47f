//! Recognising the simulation's own processes among those running, so that
//! they can be stopped when the viewer exits.
use vstd::prelude::*;
use vstd::string::StrSliceExecFns;

verus! {

/// Whether `pat` occurs in `s` as a run of consecutive characters.
pub open spec fn contains_spec(s: Seq<char>, pat: Seq<char>) -> bool {
    exists|i: int| 0 <= i && i + pat.len() <= s.len() && #[trigger] s.subrange(i, i + pat.len()) == pat
}

/// Whether `pat` occurs in `s`.
pub fn contains(s: &str, pat: &str) -> (r: bool)
    ensures
        r == contains_spec(s@, pat@),
{
    let n = s.unicode_len();
    let m = pat.unicode_len();
    if m > n {
        proof {
            assert forall|i: int| 0 <= i && i + pat@.len() <= s@.len() implies #[trigger] s@.subrange(
                i,
                i + pat@.len(),
            ) != pat@ by {}
        }
        return false;
    }
    let mut i: usize = 0;
    while i <= n - m
        invariant
            n == s@.len(),
            m == pat@.len(),
            m <= n,
            i <= n - m + 1,
            forall|k: int| 0 <= k < i ==> #[trigger] s@.subrange(k, k + m) != pat@,
        decreases n - m + 1 - i,
    {
        let mut j: usize = 0;
        let mut same = true;
        while j < m
            invariant
                n == s@.len(),
                m == pat@.len(),
                i + m <= n,
                j <= m,
                same == (forall|t: int| 0 <= t < j ==> s@[i + t] == pat@[t]),
            decreases m - j,
        {
            if s.get_char(i + j) != pat.get_char(j) {
                same = false;
            }
            j = j + 1;
        }
        if same {
            assert(s@.subrange(i as int, i + m) =~= pat@);
            return true;
        }
        proof {
            let w = choose|t: int| 0 <= t < m && s@[i + t] != pat@[t];
            assert(s@.subrange(i as int, i + m)[w] != pat@[w]);
        }
        i = i + 1;
    }
    proof {
        assert forall|k: int| 0 <= k && k + pat@.len() <= s@.len() implies #[trigger] s@.subrange(
            k,
            k + pat@.len(),
        ) != pat@ by {
            assert(k < i);
        }
    }
    false
}

/// Whether a process, by its executable path and its command line, is a run
/// of the simulation: a Java process whose command line runs the
/// data-generation jar.
pub open spec fn is_simulation_process_spec(exe: Seq<char>, cmdline: Seq<char>) -> bool {
    &&& (contains_spec(exe, "java"@) || contains_spec(cmdline, "java"@))
    &&& contains_spec(cmdline, "data-generation"@)
    &&& contains_spec(cmdline, ".jar"@)
}

/// Whether a process, by its executable path (empty when unknown) and its
/// command line, is a run of the simulation.
pub fn is_simulation_process(exe: &str, cmdline: &str) -> (r: bool)
    ensures
        r == is_simulation_process_spec(exe@, cmdline@),
{
    (contains(exe, "java") || contains(cmdline, "java")) && contains(cmdline, "data-generation")
        && contains(cmdline, ".jar")
}

} // verus!
