use vstd::prelude::*;

verus! {

/// Unicode `White_Space` characters: the ones that separate tokens and that
/// trimming removes.
pub open spec fn is_white_space(c: char) -> bool {
    let u = c as u32;
    ||| 0x9 <= u <= 0xD
    ||| u == 0x20
    ||| u == 0x85
    ||| u == 0xA0
    ||| u == 0x1680
    ||| 0x2000 <= u <= 0x200A
    ||| u == 0x2028
    ||| u == 0x2029
    ||| u == 0x202F
    ||| u == 0x205F
    ||| u == 0x3000
}

/// Characters that end one command of a line and start the next.
pub open spec fn is_delimiter(c: char) -> bool {
    c == ';' || c == '\n'
}

/// Every character of `s` is white space (this holds of the empty text).
pub open spec fn all_white(s: Seq<char>) -> bool {
    forall|i: int| 0 <= i < s.len() ==> is_white_space(#[trigger] s[i])
}

/// The texts that `v` holds.
pub open spec fn views(v: Seq<String>) -> Seq<Seq<char>> {
    v.map_values(|t: String| t@)
}

/// Splitting the first `n` characters of `s` at delimiters: the pieces that a
/// delimiter has closed, and where the open piece starts.
pub open spec fn split_state(s: Seq<char>, n: nat) -> (Seq<Seq<char>>, int)
    decreases n,
{
    if n == 0 {
        (Seq::empty(), 0)
    } else {
        let prev = split_state(s, (n - 1) as nat);
        if is_delimiter(s[n - 1]) {
            (prev.0.push(s.subrange(prev.1, n - 1)), n as int)
        } else {
            prev
        }
    }
}

/// The pieces of `s` between delimiters, in order, empty ones included:
/// `k` delimiters give `k + 1` pieces.
pub open spec fn pieces(s: Seq<char>) -> Seq<Seq<char>> {
    let st = split_state(s, s.len());
    st.0.push(s.subrange(st.1, s.len() as int))
}

/// Splitting the first `n` characters of `s` at white space: the tokens that
/// white space has closed, and where the open token starts.
pub open spec fn token_state(s: Seq<char>, n: nat) -> (Seq<Seq<char>>, int)
    decreases n,
{
    if n == 0 {
        (Seq::empty(), 0)
    } else {
        let prev = token_state(s, (n - 1) as nat);
        if is_white_space(s[n - 1]) {
            if prev.1 < n - 1 {
                (prev.0.push(s.subrange(prev.1, n - 1)), n as int)
            } else {
                (prev.0, n as int)
            }
        } else {
            prev
        }
    }
}

/// The maximal runs of non-white-space characters of `s`, in order.
pub open spec fn tokens(s: Seq<char>) -> Seq<Seq<char>> {
    let st = token_state(s, s.len());
    if st.1 < s.len() {
        st.0.push(s.subrange(st.1, s.len() as int))
    } else {
        st.0
    }
}

/// While scanning for tokens: nothing has been closed and no token is open
/// exactly when every character so far is white space.
proof fn lemma_token_state_blank(s: Seq<char>, n: nat)
    requires
        n <= s.len(),
    ensures
        0 <= token_state(s, n).1 <= n,
        token_state(s, n).1 < n ==> !is_white_space(s[n - 1]),
        (token_state(s, n).0.len() == 0 && token_state(s, n).1 == n) <==> (forall|i: int|
            0 <= i < n ==> is_white_space(#[trigger] s[i])),
    decreases n,
{
    if n > 0 {
        lemma_token_state_blank(s, (n - 1) as nat);
        let prev = token_state(s, (n - 1) as nat);
        if is_white_space(s[n - 1]) {
            if prev.1 < n - 1 {
                assert(!is_white_space(s[n - 2]));
            } else {
                if prev.0.len() == 0 {
                    assert forall|i: int| 0 <= i < n implies is_white_space(#[trigger] s[i]) by {
                        if i < n - 1 {
                            assert(is_white_space(s[i]));
                        }
                    }
                }
            }
        } else {
            assert(!(forall|i: int| 0 <= i < n ==> is_white_space(#[trigger] s[i])));
        }
    }
}

/// A piece has no tokens exactly when it is empty after trimming white
/// space, that is, when it is all white space.
pub proof fn lemma_no_tokens_iff_blank(s: Seq<char>)
    ensures
        tokens(s).len() == 0 <==> all_white(s),
{
    lemma_token_state_blank(s, s.len());
}

/// Decides whether `c` is a Unicode `White_Space` character.
pub fn is_whitespace_char(c: char) -> (r: bool)
    ensures
        r == is_white_space(c),
{
    let u = c as u32;
    (0x9 <= u && u <= 0xD) || u == 0x20 || u == 0x85 || u == 0xA0 || u == 0x1680 || (0x2000 <= u
        && u <= 0x200A) || u == 0x2028 || u == 0x2029 || u == 0x202F || u == 0x205F || u == 0x3000
}

/// Decides whether `s` holds nothing but white space.
pub fn is_blank(s: &str) -> (r: bool)
    ensures
        r == all_white(s@),
{
    let n = s.unicode_len();
    let mut i: usize = 0;
    while i < n
        invariant
            n == s@.len(),
            i <= n,
            forall|j: int| 0 <= j < i ==> is_white_space(#[trigger] s@[j]),
        decreases n - i,
    {
        let c = s.get_char(i);
        if !is_whitespace_char(c) {
            return false;
        }
        i += 1;
    }
    true
}

/// Splits `s` at each `;` and each newline. Pieces keep their surrounding
/// white space; empty pieces are kept.
pub fn split_pieces(s: &str) -> (r: Vec<String>)
    ensures
        views(r@) == pieces(s@),
{
    let n = s.unicode_len();
    let mut done: Vec<String> = Vec::new();
    let mut start: usize = 0;
    let mut i: usize = 0;
    while i < n
        invariant
            n == s@.len(),
            start <= i <= n,
            split_state(s@, i as nat).0 == views(done@),
            split_state(s@, i as nat).1 == start as int,
        decreases n - i,
    {
        let c = s.get_char(i);
        if c == ';' || c == '\n' {
            let piece = String::from_str(s.substring_char(start, i));
            let ghost before = done@;
            done.push(piece);
            proof {
                assert(views(done@) =~= views(before).push(piece@));
            }
            start = i + 1;
        }
        i += 1;
    }
    let piece = String::from_str(s.substring_char(start, n));
    let ghost before = done@;
    done.push(piece);
    proof {
        assert(views(done@) =~= views(before).push(piece@));
    }
    done
}

/// Splits `s` into its white-space separated tokens.
pub fn split_tokens(s: &str) -> (r: Vec<String>)
    ensures
        views(r@) == tokens(s@),
{
    let n = s.unicode_len();
    let mut done: Vec<String> = Vec::new();
    let mut start: usize = 0;
    let mut i: usize = 0;
    while i < n
        invariant
            n == s@.len(),
            start <= i <= n,
            token_state(s@, i as nat).0 == views(done@),
            token_state(s@, i as nat).1 == start as int,
        decreases n - i,
    {
        let c = s.get_char(i);
        if is_whitespace_char(c) {
            if start < i {
                let token = String::from_str(s.substring_char(start, i));
                let ghost before = done@;
                done.push(token);
                proof {
                    assert(views(done@) =~= views(before).push(token@));
                }
            }
            start = i + 1;
        }
        i += 1;
    }
    if start < n {
        let token = String::from_str(s.substring_char(start, n));
        let ghost before = done@;
        done.push(token);
        proof {
            assert(views(done@) =~= views(before).push(token@));
        }
    }
    done
}

/// One command of an input line, ready to be handed to the registry.
#[derive(Debug)]
pub enum Invocation {
    /// The piece held only white space and is skipped.
    Empty,
    /// A command name and its arguments.
    Call { name: String, args: Vec<String> },
}

/// `inv` is what the piece `p` of a line asks for: nothing where `p` has no
/// token, else its first token as the name and the rest as arguments.
pub open spec fn invocation_of(inv: Invocation, p: Seq<char>) -> bool {
    let t = tokens(p);
    match inv {
        Invocation::Empty => t.len() == 0,
        Invocation::Call { name, args } => t.len() > 0 && name@ == t[0] && views(args@)
            == t.drop_first(),
    }
}

/// The invocations that the line `s` asks for, in order: none for a blank
/// line, else one for each piece between delimiters.
pub open spec fn plan_of(r: Seq<Invocation>, s: Seq<char>) -> bool {
    if all_white(s) {
        r.len() == 0
    } else {
        &&& r.len() == pieces(s).len()
        &&& forall|k: int| 0 <= k < r.len() ==> invocation_of(#[trigger] r[k], pieces(s)[k])
    }
}

/// Turns one piece of a line into an invocation.
pub fn parse_piece(p: &str) -> (r: Invocation)
    ensures
        invocation_of(r, p@),
{
    let mut toks = split_tokens(p);
    if toks.len() == 0 {
        Invocation::Empty
    } else {
        let ghost all = toks@;
        let name = toks.remove(0);
        proof {
            assert(views(toks@) =~= views(all).drop_first());
        }
        Invocation::Call { name, args: toks }
    }
}

/// Breaks an input line into the commands it holds, left to right.
pub fn evaluate_command(input: &str) -> (r: Vec<Invocation>)
    ensures
        plan_of(r@, input@),
{
    let mut out: Vec<Invocation> = Vec::new();
    if is_blank(input) {
        return out;
    }
    let ps = split_pieces(input);
    let mut k: usize = 0;
    while k < ps.len()
        invariant
            views(ps@) == pieces(input@),
            k <= ps@.len(),
            out@.len() == k,
            forall|j: int| 0 <= j < k ==> invocation_of(#[trigger] out@[j], pieces(input@)[j]),
        decreases ps@.len() - k,
    {
        let inv = parse_piece(ps[k].as_str());
        proof {
            assert(views(ps@)[k as int] == ps@[k as int]@);
        }
        out.push(inv);
        k += 1;
    }
    out
}

} // verus!
