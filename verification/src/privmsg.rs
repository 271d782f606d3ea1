//! The grammar of a tagged Twitch `PRIVMSG` line and its parser.
//!
//! A chat line is read as the pattern
//!
//! ```text
//! .*;color=(.*?);display-name=(.*?);.*;tmi-sent-ts=(.*?);.*:(.*)!.*@.*\.tmi\.twitch\.tv PRIVMSG #.* :(.*)
//! ```
//!
//! searched for with leftmost-first semantics: the match starts as early as
//! possible, `.` never crosses a line feed, and each gap, from left to right,
//! takes the most characters (greedy gaps) or the fewest (lazy gaps, the first
//! three fields) that still let the rest of the pattern match.  The pattern is
//! a chain of ten fixed pieces separated by free gaps; the five fields are the
//! gaps after pieces 0, 1, 3, 5 and the rest of the line after piece 9.

use vstd::prelude::*;

verus! {

/// The fixed pieces of the pattern, in order.
pub open spec fn piece(k: int) -> Seq<char> {
    if k == 0 {
        seq![';', 'c', 'o', 'l', 'o', 'r', '=']
    } else if k == 1 {
        seq![';', 'd', 'i', 's', 'p', 'l', 'a', 'y', '-', 'n', 'a', 'm', 'e', '=']
    } else if k == 2 {
        seq![';']
    } else if k == 3 {
        seq![';', 't', 'm', 'i', '-', 's', 'e', 'n', 't', '-', 't', 's', '=']
    } else if k == 4 {
        seq![';']
    } else if k == 5 {
        seq![':']
    } else if k == 6 {
        seq!['!']
    } else if k == 7 {
        seq!['@']
    } else if k == 8 {
        seq![
            '.', 't', 'm', 'i', '.', 't', 'w', 'i', 't', 'c', 'h', '.', 't', 'v', ' ', 'P', 'R',
            'I', 'V', 'M', 'S', 'G', ' ', '#',
        ]
    } else {
        seq![' ', ':']
    }
}

/// Number of fixed pieces in the pattern.
pub open spec fn piece_count() -> int {
    10
}

/// Whether the gap in front of piece `k` is greedy (takes as much as it can).
/// The gaps in front of pieces 1, 2 and 4 are the lazy fields.
pub open spec fn greedy(k: int) -> bool {
    !(k == 1 || k == 2 || k == 4)
}

/// Piece `k` occurs in `s` at `j` and ends by `e`.
pub open spec fn placeable(s: Seq<char>, j: int, k: int, e: int) -> bool {
    &&& 0 <= j
    &&& j + piece(k).len() <= e
    &&& e <= s.len()
    &&& forall|i: int| 0 <= i < piece(k).len() ==> s[j + i] == #[trigger] piece(k)[i]
}

/// Pieces `k..10` can be placed in order, non-overlapping, in `s[p..e]`.
pub open spec fn tail_ok(s: Seq<char>, p: int, k: int, e: int) -> bool
    decreases piece_count() - k,
{
    if k >= piece_count() {
        p <= e
    } else {
        exists|j: int|
            p <= j && #[trigger] placeable(s, j, k, e) && tail_ok(s, j + piece(k).len(), k + 1, e)
    }
}

/// `j` is a place for piece `k` at or after `lower` from which the rest of the
/// pattern can still match inside `s[..e]`.
pub open spec fn candidate(s: Seq<char>, lower: int, k: int, e: int, j: int) -> bool {
    &&& lower <= j
    &&& placeable(s, j, k, e)
    &&& tail_ok(s, j + piece(k).len(), k + 1, e)
}

/// `j` is the candidate that the search prefers: the last one for a greedy
/// gap, the first one for a lazy gap.
pub open spec fn preferred(s: Seq<char>, lower: int, k: int, e: int, j: int) -> bool {
    &&& candidate(s, lower, k, e, j)
    &&& forall|i: int|
        #[trigger] candidate(s, lower, k, e, i) ==> if greedy(k) {
            i <= j
        } else {
            j <= i
        }
}

/// Where the search for piece `k` starts, given the places of the earlier pieces.
pub open spec fn lower_bound(q: Seq<int>, a: int, k: int) -> int {
    if k == 0 {
        a
    } else {
        q[k - 1] + piece(k - 1).len()
    }
}

/// `q` holds the places of all pieces chosen by leftmost-first search in the
/// line `s[a..e]`.
pub open spec fn chosen(s: Seq<char>, a: int, e: int, q: Seq<int>) -> bool {
    &&& q.len() == piece_count()
    &&& forall|k: int|
        0 <= k < piece_count() ==> #[trigger] preferred(s, lower_bound(q, a, k), k, e, q[k])
}

/// The end of the line that holds position `p`: the first line feed at or
/// after `p`, or the end of `s`.
pub open spec fn line_end(s: Seq<char>, p: int) -> int
    decreases s.len() - p,
{
    if p >= s.len() {
        s.len() as int
    } else if s[p] == '\n' {
        p
    } else {
        line_end(s, p + 1)
    }
}

/// A line of `s` starts at `a`.
pub open spec fn line_start(s: Seq<char>, a: int) -> bool {
    0 <= a <= s.len() && (a == 0 || s[a - 1] == '\n')
}

/// The line that starts at `a` holds a match of the pattern.
pub open spec fn line_matches(s: Seq<char>, a: int) -> bool {
    line_start(s, a) && tail_ok(s, a, 0, line_end(s, a))
}

/// Some line of `s` holds a match of the pattern.
pub open spec fn has_match(s: Seq<char>) -> bool {
    exists|a: int| #[trigger] line_matches(s, a)
}

/// The match lies in the line at `a`, no earlier line matches, and `q` are the
/// places that leftmost-first search chooses in that line.
pub open spec fn leftmost_first(s: Seq<char>, a: int, q: Seq<int>) -> bool {
    &&& line_matches(s, a)
    &&& forall|b: int| 0 <= b < a ==> !#[trigger] line_matches(s, b)
    &&& chosen(s, a, line_end(s, a), q)
}

/// The five captured fields for the places `q` in the line at `a`:
/// color, display name, sent timestamp, login, body.
pub open spec fn fields_at(s: Seq<char>, a: int, q: Seq<int>) -> (
    Seq<char>,
    Seq<char>,
    Seq<char>,
    Seq<char>,
    Seq<char>,
) {
    (
        s.subrange(q[0] + piece(0).len(), q[1]),
        s.subrange(q[1] + piece(1).len(), q[2]),
        s.subrange(q[3] + piece(3).len(), q[4]),
        s.subrange(q[5] + piece(5).len(), q[6]),
        s.subrange(q[9] + piece(9).len(), line_end(s, a)),
    )
}

/// The fields of the first match of the pattern in `s`, if there is one.
pub open spec fn privmsg_fields(s: Seq<char>) -> Option<
    (Seq<char>, Seq<char>, Seq<char>, Seq<char>, Seq<char>),
> {
    if exists|a: int, q: Seq<int>| leftmost_first(s, a, q) {
        let (a, q) = choose|a: int, q: Seq<int>| leftmost_first(s, a, q);
        Some(fields_at(s, a, q))
    } else {
        None
    }
}

// ---------------------------------------------------------------------------
// Facts about the definitions.
/// Starting earlier never hurts: what can be placed from `p2` can be placed
/// from any `p1 <= p2`.
pub proof fn lemma_tail_ok_monotone(s: Seq<char>, p1: int, p2: int, k: int, e: int)
    requires
        p1 <= p2,
        tail_ok(s, p2, k, e),
    ensures
        tail_ok(s, p1, k, e),
{
    if k < piece_count() {
        let j = choose|j: int|
            p2 <= j && #[trigger] placeable(s, j, k, e) && tail_ok(
                s,
                j + piece(k).len(),
                k + 1,
                e,
            );
        assert(p1 <= j && placeable(s, j, k, e));
    }
}

/// `line_end` is the first line feed at or after `p`, or the end of `s`.
pub proof fn lemma_line_end(s: Seq<char>, p: int)
    requires
        0 <= p <= s.len(),
    ensures
        p <= line_end(s, p) <= s.len(),
        forall|i: int| p <= i < line_end(s, p) ==> s[i] != '\n',
        line_end(s, p) < s.len() ==> s[line_end(s, p)] == '\n',
    decreases s.len() - p,
{
    if p < s.len() && s[p] != '\n' {
        lemma_line_end(s, p + 1);
    }
}

/// Every piece has at least one character.
pub proof fn lemma_piece_nonempty(k: int)
    ensures
        piece(k).len() > 0,
{
}

/// The chosen places are in order, in the line, and leave room for each piece.
pub proof fn lemma_chosen_order(s: Seq<char>, a: int, e: int, q: Seq<int>)
    requires
        chosen(s, a, e, q),
    ensures
        a <= q[0],
        forall|k: int| 1 <= k < piece_count() ==> q[k - 1] + piece(k - 1).len() <= #[trigger] q[k],
        q[9] + piece(9).len() <= e,
        e <= s.len(),
{
    assert(preferred(s, lower_bound(q, a, 0), 0, e, q[0]));
    assert forall|k: int| 1 <= k < piece_count() implies q[k - 1] + piece(k - 1).len() <= #[trigger] q[k] by {
        assert(preferred(s, lower_bound(q, a, k), k, e, q[k]));
    }
    assert(preferred(s, lower_bound(q, a, 9), 9, e, q[9]));
}

/// The choice of places is unique.
pub proof fn lemma_chosen_unique(s: Seq<char>, a: int, e: int, q1: Seq<int>, q2: Seq<int>)
    requires
        chosen(s, a, e, q1),
        chosen(s, a, e, q2),
    ensures
        q1 == q2,
{
    lemma_chosen_prefix_equal(s, a, e, q1, q2, piece_count());
    assert(q1 =~= q2);
}

proof fn lemma_chosen_prefix_equal(
    s: Seq<char>,
    a: int,
    e: int,
    q1: Seq<int>,
    q2: Seq<int>,
    n: int,
)
    requires
        chosen(s, a, e, q1),
        chosen(s, a, e, q2),
        0 <= n <= piece_count(),
    ensures
        forall|k: int| 0 <= k < n ==> q1[k] == q2[k],
    decreases n,
{
    if n > 0 {
        lemma_chosen_prefix_equal(s, a, e, q1, q2, n - 1);
        let k = n - 1;
        assert(lower_bound(q1, a, k) == lower_bound(q2, a, k));
        assert(preferred(s, lower_bound(q1, a, k), k, e, q1[k]));
        assert(preferred(s, lower_bound(q2, a, k), k, e, q2[k]));
        assert(candidate(s, lower_bound(q1, a, k), k, e, q2[k]));
        assert(candidate(s, lower_bound(q1, a, k), k, e, q1[k]));
    }
}

/// Leftmost-first search picks one line and one set of places.
pub proof fn lemma_leftmost_first_unique(s: Seq<char>, a1: int, q1: Seq<int>, a2: int, q2: Seq<int>)
    requires
        leftmost_first(s, a1, q1),
        leftmost_first(s, a2, q2),
    ensures
        a1 == a2,
        q1 == q2,
{
    if a1 < a2 {
        assert(line_matches(s, a1));
    } else if a2 < a1 {
        assert(line_matches(s, a2));
    }
    lemma_chosen_unique(s, a1, line_end(s, a1), q1, q2);
}

// ---------------------------------------------------------------------------
// Executable search.
/// Positions as mathematical integers.
pub open spec fn ints(q: Seq<usize>) -> Seq<int> {
    q.map_values(|x: usize| x as int)
}

/// The characters of piece `k`.
fn piece_chars(k: usize) -> (v: Vec<char>)
    requires
        k < 10,
    ensures
        v@ == piece(k as int),
{
    let v = if k == 0 {
        vec![';', 'c', 'o', 'l', 'o', 'r', '=']
    } else if k == 1 {
        vec![';', 'd', 'i', 's', 'p', 'l', 'a', 'y', '-', 'n', 'a', 'm', 'e', '=']
    } else if k == 2 {
        vec![';']
    } else if k == 3 {
        vec![';', 't', 'm', 'i', '-', 's', 'e', 'n', 't', '-', 't', 's', '=']
    } else if k == 4 {
        vec![';']
    } else if k == 5 {
        vec![':']
    } else if k == 6 {
        vec!['!']
    } else if k == 7 {
        vec!['@']
    } else if k == 8 {
        vec![
            '.', 't', 'm', 'i', '.', 't', 'w', 'i', 't', 'c', 'h', '.', 't', 'v', ' ', 'P', 'R',
            'I', 'V', 'M', 'S', 'G', ' ', '#',
        ]
    } else {
        vec![' ', ':']
    };
    assert(v@ =~= piece(k as int));
    v
}

/// Whether piece `k` (given as `pc`) occurs at `j` and ends by `e`.
fn placeable_at(cs: &Vec<char>, pc: &Vec<char>, j: usize, k: usize, e: usize) -> (r: bool)
    requires
        k < 10,
        pc@ == piece(k as int),
        e <= cs@.len(),
    ensures
        r == placeable(cs@, j as int, k as int, e as int),
{
    if pc.len() > e || j > e - pc.len() {
        return false;
    }
    let mut i: usize = 0;
    while i < pc.len()
        invariant
            pc@ == piece(k as int),
            j + pc@.len() <= e <= cs@.len(),
            0 <= i <= pc@.len(),
            forall|t: int| 0 <= t < i ==> cs@[j + t] == pc@[t],
        decreases pc@.len() - i,
    {
        if cs[j + i] != pc[i] {
            assert(cs@[j + i as int] != piece(k as int)[i as int]);
            return false;
        }
        i = i + 1;
    }
    true
}

/// The first place at or after `p` where piece `k` occurs and ends by `e`.
fn find_first(cs: &Vec<char>, p: usize, k: usize, e: usize) -> (r: Option<usize>)
    requires
        k < 10,
        p <= e <= cs@.len(),
    ensures
        match r {
            Some(j) => p <= j && placeable(cs@, j as int, k as int, e as int) && forall|i: int|
                p <= i < j ==> !#[trigger] placeable(cs@, i, k as int, e as int),
            None => forall|i: int| p <= i ==> !#[trigger] placeable(cs@, i, k as int, e as int),
        },
{
    let pc = piece_chars(k);
    let mut j = p;
    while j < e
        invariant
            k < 10,
            pc@ == piece(k as int),
            p <= j <= e <= cs@.len(),
            forall|i: int| p <= i < j ==> !#[trigger] placeable(cs@, i, k as int, e as int),
        decreases e - j,
    {
        if placeable_at(cs, &pc, j, k, e) {
            return Some(j);
        }
        j = j + 1;
    }
    assert forall|i: int| p <= i implies !#[trigger] placeable(cs@, i, k as int, e as int) by {
        if i >= j {
            assert(piece(k as int).len() > 0);
        }
    }
    None
}

/// Whether pieces `k..10` can be placed in order in `cs[p..e]`; tries the
/// earliest place of each piece in turn.
fn fits(cs: &Vec<char>, p: usize, k: usize, e: usize) -> (r: bool)
    requires
        k <= 10,
        p <= e <= cs@.len(),
    ensures
        r == tail_ok(cs@, p as int, k as int, e as int),
    decreases 10 - k,
{
    if k >= 10 {
        return true;
    }
    let ghost s = cs@;
    match find_first(cs, p, k, e) {
        None => {
            assert(!tail_ok(s, p as int, k as int, e as int));
            false
        },
        Some(j) => {
            let len = piece_chars(k).len();
            let r = fits(cs, j + len, k + 1, e);
            proof {
                if r {
                    assert(p <= j && placeable(s, j as int, k as int, e as int) && tail_ok(
                        s,
                        j + piece(k as int).len(),
                        k + 1,
                        e as int,
                    ));
                } else if tail_ok(s, p as int, k as int, e as int) {
                    let j2 = choose|j2: int|
                        p <= j2 && #[trigger] placeable(s, j2, k as int, e as int) && tail_ok(
                            s,
                            j2 + piece(k as int).len(),
                            k + 1,
                            e as int,
                        );
                    assert(j <= j2);
                    lemma_tail_ok_monotone(
                        s,
                        j + piece(k as int).len(),
                        j2 + piece(k as int).len(),
                        k + 1,
                        e as int,
                    );
                }
            }
            r
        },
    }
}

/// Whether `j` is a candidate place for piece `k`.
fn is_candidate(cs: &Vec<char>, pc: &Vec<char>, lower: usize, k: usize, e: usize, j: usize) -> (r:
    bool)
    requires
        k < 10,
        pc@ == piece(k as int),
        e <= cs@.len(),
    ensures
        r == candidate(cs@, lower as int, k as int, e as int, j as int),
{
    if j < lower || !placeable_at(cs, pc, j, k, e) {
        return false;
    }
    fits(cs, j + pc.len(), k + 1, e)
}

/// The preferred place of piece `k` at or after `lower`.
fn pick(cs: &Vec<char>, lower: usize, k: usize, e: usize) -> (j: usize)
    requires
        k < 10,
        lower <= e <= cs@.len(),
        exists|j: int| candidate(cs@, lower as int, k as int, e as int, j),
    ensures
        preferred(cs@, lower as int, k as int, e as int, j as int),
{
    let ghost s = cs@;
    let pc = piece_chars(k);
    let ghost w = choose|j: int| candidate(s, lower as int, k as int, e as int, j);
    if k == 1 || k == 2 || k == 4 {
        let mut j = lower;
        while j < e
            invariant
                k < 10,
                !greedy(k as int),
                pc@ == piece(k as int),
                lower <= j <= e <= s.len(),
                s == cs@,
                candidate(s, lower as int, k as int, e as int, w),
                forall|i: int|
                    lower <= i < j ==> !#[trigger] candidate(s, lower as int, k as int, e as int, i),
            decreases e - j,
        {
            if is_candidate(cs, &pc, lower, k, e, j) {
                assert forall|i: int| #[trigger]
                    candidate(s, lower as int, k as int, e as int, i) implies j <= i by {
                    if i < j {
                        assert(!candidate(s, lower as int, k as int, e as int, i));
                    }
                }
                assert(!greedy(k as int));
                return j;
            }
            j = j + 1;
        }
        proof {
            lemma_piece_nonempty(k as int);
        }
        assert(false);
        lower
    } else {
        proof {
            lemma_piece_nonempty(k as int);
        }
        let mut j = e;
        while j > lower
            invariant
                k < 10,
                greedy(k as int),
                pc@ == piece(k as int),
                lower <= j <= e <= s.len(),
                s == cs@,
                candidate(s, lower as int, k as int, e as int, w),
                forall|i: int| j <= i ==> !#[trigger] candidate(s, lower as int, k as int, e as int, i),
            decreases j - lower,
        {
            j = j - 1;
            if is_candidate(cs, &pc, lower, k, e, j) {
                assert forall|i: int| #[trigger]
                    candidate(s, lower as int, k as int, e as int, i) implies i <= j by {
                    if i > j {
                        assert(!candidate(s, lower as int, k as int, e as int, i));
                    }
                }
                assert(greedy(k as int));
                return j;
            }
        }
        assert(false);
        lower
    }
}

/// The end of the line holding `p`.
fn find_line_end(cs: &Vec<char>, p: usize) -> (e: usize)
    requires
        p <= cs@.len(),
    ensures
        e == line_end(cs@, p as int),
{
    let mut e = p;
    while e < cs.len() && cs[e] != '\n'
        invariant
            p <= e <= cs@.len(),
            line_end(cs@, p as int) == line_end(cs@, e as int),
        decreases cs@.len() - e,
    {
        e = e + 1;
    }
    e
}

/// The places of all pieces in the line `cs[a..e]`, which must hold a match.
fn choose_places(cs: &Vec<char>, a: usize, e: usize) -> (q: Vec<usize>)
    requires
        a <= e <= cs@.len(),
        tail_ok(cs@, a as int, 0, e as int),
    ensures
        chosen(cs@, a as int, e as int, ints(q@)),
        forall|k: int| 0 <= k < 10 ==> q@[k] <= e,
{
    let ghost s = cs@;
    let mut q: Vec<usize> = Vec::new();
    let mut lower = a;
    let mut k: usize = 0;
    while k < 10
        invariant
            s == cs@,
            a <= e <= s.len(),
            q@.len() == k,
            k <= 10,
            lower <= e,
            lower as int == lower_bound(ints(q@), a as int, k as int),
            forall|i: int| 0 <= i < k ==> q@[i] <= e,
            forall|i: int|
                0 <= i < k ==> #[trigger] preferred(
                    s,
                    lower_bound(ints(q@), a as int, i),
                    i,
                    e as int,
                    q@[i] as int,
                ),
            tail_ok(s, lower as int, k as int, e as int),
        decreases 10 - k,
    {
        let ghost qi_old = ints(q@);
        assert(exists|j: int| candidate(s, lower as int, k as int, e as int, j)) by {
            let j = choose|j: int|
                lower <= j && #[trigger] placeable(s, j, k as int, e as int) && tail_ok(
                    s,
                    j + piece(k as int).len(),
                    k + 1,
                    e as int,
                );
            assert(candidate(s, lower as int, k as int, e as int, j));
        }
        let j = pick(cs, lower, k, e);
        let len = piece_chars(k).len();
        q.push(j);
        let ghost qi = ints(q@);
        assert forall|i: int| 0 <= i < k + 1 implies #[trigger] preferred(
            s,
            lower_bound(qi, a as int, i),
            i,
            e as int,
            q@[i] as int,
        ) by {
            assert(lower_bound(qi, a as int, i) == lower_bound(qi_old, a as int, i));
        }
        lower = j + len;
        k = k + 1;
        assert(lower as int == lower_bound(qi, a as int, k as int));
    }
    let ghost qi = ints(q@);
    assert forall|i: int| 0 <= i < piece_count() implies #[trigger] preferred(
        s,
        lower_bound(qi, a as int, i),
        i,
        e as int,
        qi[i],
    ) by {
        assert(preferred(s, lower_bound(qi, a as int, i), i, e as int, q@[i] as int));
    }
    q
}

/// The five fields of a chat line, as cut out by the pattern.
pub struct PrivmsgFields {
    pub color: String,
    pub display_name: String,
    pub sent_ts: String,
    pub login: String,
    pub body: String,
}

impl PrivmsgFields {
    /// The fields as a tuple of character sequences.
    pub open spec fn view_tuple(&self) -> (Seq<char>, Seq<char>, Seq<char>, Seq<char>, Seq<char>) {
        (self.color@, self.display_name@, self.sent_ts@, self.login@, self.body@)
    }
}

/// The characters of `s[from..to]` as a new string.
fn cut(raw: &str, from: usize, to: usize) -> (r: String)
    requires
        from <= to <= raw@.len(),
    ensures
        r@ == raw@.subrange(from as int, to as int),
{
    raw.substring_char(from, to).to_owned()
}

/// Finds the first match of the chat-line pattern in `raw` and returns its
/// five fields; `None` when no line of `raw` matches.
pub fn parse_privmsg(raw: &str) -> (r: Option<PrivmsgFields>)
    ensures
        r is Some <==> has_match(raw@),
        r is Some <==> privmsg_fields(raw@) is Some,
        r matches Some(f) ==> privmsg_fields(raw@) == Some(f.view_tuple()),
{
    let cs = crate::text::chars_of(raw);
    let ghost s = cs@;
    let mut a: usize = 0;
    loop
        invariant
            s == cs@,
            s == raw@,
            line_start(s, a as int),
            forall|b: int| 0 <= b < a ==> !#[trigger] line_matches(s, b),
        decreases s.len() - a,
    {
        let e = find_line_end(&cs, a);
        proof {
            lemma_line_end(s, a as int);
        }
        if fits(&cs, a, 0, e) {
            let q = choose_places(&cs, a, e);
            let ghost qi = ints(q@);
            proof {
                lemma_chosen_order(s, a as int, e as int, qi);
                assert(qi[0] == q@[0] && qi[1] == q@[1] && qi[2] == q@[2] && qi[3] == q@[3]);
                assert(qi[4] == q@[4] && qi[5] == q@[5] && qi[6] == q@[6] && qi[9] == q@[9]);
                assert(qi[1] >= qi[0] + piece(0).len());
                assert(qi[2] >= qi[1] + piece(1).len());
                assert(qi[4] >= qi[3] + piece(3).len());
                assert(qi[6] >= qi[5] + piece(5).len());
            }
            assert(line_matches(s, a as int));
            assert(leftmost_first(s, a as int, qi));
            proof {
                assert(has_match(s));
                let (a2, q2) = choose|a2: int, q2: Seq<int>| leftmost_first(s, a2, q2);
                lemma_leftmost_first_unique(s, a as int, qi, a2, q2);
            }
            let f = PrivmsgFields {
                color: cut(raw, q[0] + 7, q[1]),
                display_name: cut(raw, q[1] + 14, q[2]),
                sent_ts: cut(raw, q[3] + 13, q[4]),
                login: cut(raw, q[5] + 1, q[6]),
                body: cut(raw, q[9] + 2, e),
            };
            return Some(f);
        }
        proof {
            assert forall|b: int| 0 <= b <= e implies !#[trigger] line_matches(s, b) by {
                if a < b && line_matches(s, b) {
                    assert(s[b - 1] == '\n');
                }
                if b == a {
                    assert(!tail_ok(s, a as int, 0, e as int));
                }
            }
        }
        if e == cs.len() {
            proof {
                assert forall|b: int| !#[trigger] line_matches(s, b) by {
                    if b > e && line_start(s, b) {
                        assert(b <= s.len());
                    }
                    if b > e {
                        assert(!line_start(s, b));
                    }
                }
                if exists|a2: int, q2: Seq<int>| leftmost_first(s, a2, q2) {
                    let (a2, q2) = choose|a2: int, q2: Seq<int>| leftmost_first(s, a2, q2);
                    assert(line_matches(s, a2));
                }
            }
            return None;
        }
        a = e + 1;
    }
}

} // verus!
