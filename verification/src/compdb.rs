//! Batch-mode input: one entry of a compilation database, and the recovery
//! of compiler flags from its command string. The command is tokenized on
//! spaces (empty tokens dropped); the first token, the compiler executable,
//! is discarded, as are the last four tokens, assumed to be fixed trailing
//! flags.

use vstd::prelude::*;
use vstd::string::StrSliceExecFns;

verus! {

/// One entry of a compilation database: where the compiler ran, the full
/// command it was invoked with, and the file it compiled.
pub struct CompilationEntry {
    pub directory: String,
    pub command: String,
    pub file: String,
}

/// The index of the first space at or after `i`, or the string's end.
pub open spec fn token_end(s: Seq<char>, i: int) -> int
    decreases s.len() - i,
{
    if i < 0 || i >= s.len() {
        i
    } else if s[i] == ' ' {
        i
    } else {
        token_end(s, i + 1)
    }
}

proof fn lemma_token_end_bounds(s: Seq<char>, i: int)
    requires
        0 <= i <= s.len(),
    ensures
        i <= token_end(s, i) <= s.len(),
    decreases s.len() - i,
{
    if i < s.len() && s[i] != ' ' {
        lemma_token_end_bounds(s, i + 1);
    }
}

/// The nonempty space-separated tokens of `s`, from index `i` on.
pub open spec fn spec_tokens_from(s: Seq<char>, i: int) -> Seq<Seq<char>>
    decreases s.len() - i,
        via spec_tokens_from_decreases
{
    if i < 0 || i >= s.len() {
        Seq::empty()
    } else if s[i] == ' ' {
        spec_tokens_from(s, i + 1)
    } else {
        seq![s.subrange(i, token_end(s, i))] + spec_tokens_from(s, token_end(s, i))
    }
}

#[via_fn]
proof fn spec_tokens_from_decreases(s: Seq<char>, i: int) {
    if 0 <= i && i < s.len() && s[i] != ' ' {
        lemma_token_end_bounds(s, i + 1);
    }
}

/// The nonempty space-separated tokens of `s`.
pub open spec fn spec_tokens(s: Seq<char>) -> Seq<Seq<char>> {
    spec_tokens_from(s, 0)
}

/// The compiler flags recovered from a command string: its tokens with the
/// first and the last four dropped; `None` when the command has fewer than
/// five tokens and the split is impossible.
pub open spec fn spec_compile_flags(cmd: Seq<char>) -> Option<Seq<Seq<char>>> {
    let toks = spec_tokens(cmd);
    if toks.len() < 5 {
        None
    } else {
        Some(toks.subrange(1, toks.len() - 4))
    }
}

/// The nonempty space-separated tokens of `command`, in order.
pub fn tokenize(command: &str) -> (r: Vec<String>)
    ensures
        r@.map_values(|t: String| t@) == spec_tokens(command@),
{
    let n = command.unicode_len();
    let mut toks: Vec<String> = Vec::new();
    let mut i: usize = 0;
    while i < n
        invariant
            0 <= i <= n,
            n as int == command@.len(),
            spec_tokens(command@) == toks@.map_values(|t: String| t@) + spec_tokens_from(
                command@,
                i as int,
            ),
        decreases n - i,
    {
        let c = command.get_char(i);
        if c == ' ' {
            i = i + 1;
        } else {
            let mut j: usize = i;
            while j < n && command.get_char(j) != ' '
                invariant
                    i <= j <= n,
                    n as int == command@.len(),
                    token_end(command@, i as int) == token_end(command@, j as int),
                decreases n - j,
            {
                j = j + 1;
            }
            proof {
                assert(token_end(command@, j as int) == j as int);
                lemma_token_end_bounds(command@, i as int + 1);
            }
            let tok = command.substring_char(i, j);
            let ghost pre = toks@;
            toks.push(tok.to_owned());
            proof {
                assert(toks@.map_values(|t: String| t@) =~= pre.map_values(|t: String| t@)
                    + seq![command@.subrange(i as int, j as int)]);
                assert(spec_tokens_from(command@, i as int) == seq![command@.subrange(
                    i as int,
                    j as int,
                )] + spec_tokens_from(command@, j as int));
                assert(spec_tokens(command@) =~= toks@.map_values(|t: String| t@)
                    + spec_tokens_from(command@, j as int));
            }
            i = j;
        }
    }
    proof {
        assert(spec_tokens_from(command@, i as int) =~= Seq::<Seq<char>>::empty());
        assert(spec_tokens(command@) =~= toks@.map_values(|t: String| t@));
    }
    toks
}

/// The compiler flags of a database entry's command: every token but the
/// executable and the four fixed trailing flags. `None` exactly when the
/// command has fewer than five tokens.
pub fn compile_flags(command: &str) -> (r: Option<Vec<String>>)
    ensures
        match r {
            Some(v) => spec_compile_flags(command@) == Some(
                v@.map_values(|t: String| t@),
            ),
            None => spec_compile_flags(command@) is None,
        },
{
    let toks = tokenize(command);
    if toks.len() < 5 {
        None
    } else {
        let stop = toks.len() - 4;
        let mut flags: Vec<String> = Vec::new();
        let mut k: usize = 1;
        while k < stop
            invariant
                1 <= k <= stop,
                stop == toks@.len() - 4,
                toks@.len() >= 5,
                toks@.map_values(|t: String| t@) == spec_tokens(command@),
                flags@.map_values(|t: String| t@) == spec_tokens(command@).subrange(1, k as int),
            decreases stop - k,
        {
            let ghost pre = flags@;
            flags.push(toks[k].clone());
            proof {
                assert(flags@.map_values(|t: String| t@) =~= pre.map_values(|t: String| t@)
                    + seq![toks@[k as int]@]);
                assert(toks@.map_values(|t: String| t@)[k as int] == toks@[k as int]@);
                assert(flags@.map_values(|t: String| t@) =~= spec_tokens(command@).subrange(
                    1,
                    k as int + 1,
                ));
            }
            k = k + 1;
        }
        Some(flags)
    }
}

} // verus!
