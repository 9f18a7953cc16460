//! Diagnostic enumeration of local named-pipe endpoints. The surrounding
//! process performs the raw enumeration (a directory listing of the pipe
//! namespace, or a shell utility's printed output as the fallback); every
//! decision about that data is made here: which names count as presence
//! endpoints, how the fallback's line-oriented output is parsed, and the
//! "none found" sentinel that keeps a successful empty scan distinguishable
//! from an error.

use vstd::prelude::*;

use crate::errors::DiscoveryError;

verus! {

/// The substring that marks a presence IPC endpoint name.
pub open spec fn marker() -> Seq<char> {
    "discord-ipc"@
}

/// The sentinel reported when a successful scan found no endpoint.
pub open spec fn spec_sentinel() -> Seq<char> {
    "No Discord IPC pipes found"@
}

/// The views of a sequence of strings.
pub open spec fn views(v: Seq<String>) -> Seq<Seq<char>> {
    v.map_values(|s: String| s@)
}

/// Whether the marker occurs at position `i` of `s`.
pub open spec fn matches_at(s: Seq<char>, i: int) -> bool {
    0 <= i && i + marker().len() <= s.len() && s.subrange(i, i + marker().len()) == marker()
}

/// Whether the marker occurs anywhere in `s`.
pub open spec fn contains_marker(s: Seq<char>) -> bool {
    exists|i: int| matches_at(s, i)
}

/// Whether `name` contains the endpoint marker.
pub fn name_matches(name: &str) -> (b: bool)
    ensures
        b == contains_marker(name@),
{
    proof {
        reveal_strlit("discord-ipc");
    }
    let pat = "discord-ipc";
    let n: usize = name.unicode_len();
    if n < 11 {
        proof {
            assert(forall|i: int| !matches_at(name@, i));
        }
        return false;
    }
    let mut i: usize = 0;
    while i <= n - 11
        invariant
            11 <= n == name@.len(),
            i <= n - 11 + 1,
            pat@ == marker(),
            marker().len() == 11,
            forall|k: int| 0 <= k < i ==> !matches_at(name@, k),
        decreases n - i,
    {
        let mut j: usize = 0;
        let mut ok = true;
        while j < 11
            invariant
                11 <= n == name@.len(),
                i + 11 <= n,
                j <= 11,
                pat@ == marker(),
                marker().len() == 11,
                ok == (forall|k: int| 0 <= k < j ==> name@[i + k] == marker()[k]),
            decreases 11 - j,
        {
            if name.get_char(i + j) != pat.get_char(j) {
                ok = false;
            }
            j = j + 1;
        }
        if ok {
            proof {
                assert(name@.subrange(i as int, i as int + 11) =~= marker());
                assert(matches_at(name@, i as int));
            }
            return true;
        }
        proof {
            assert(!matches_at(name@, i as int)) by {
                if matches_at(name@, i as int) {
                    assert(forall|k: int|
                        0 <= k < 11 ==> #[trigger] name@.subrange(i as int, i as int + 11)[k]
                            == name@[i + k]);
                }
            }
        }
        i = i + 1;
    }
    proof {
        assert forall|k: int| !matches_at(name@, k) by {
            if k >= i {
                assert(k + 11 > name@.len());
            }
        }
    }
    false
}

/// Keeps exactly the names that contain the endpoint marker, in order.
pub fn filter_endpoints(names: &Vec<String>) -> (r: Vec<String>)
    ensures
        views(r@) == views(names@).filter(|l: Seq<char>| contains_marker(l)),
{
    let mut r: Vec<String> = Vec::new();
    let mut i: usize = 0;
    proof {
        assert(views(names@.take(0)) =~= Seq::<Seq<char>>::empty());
        reveal(Seq::filter);
    }
    while i < names.len()
        invariant
            i <= names@.len(),
            views(r@) == views(names@.take(i as int)).filter(|l: Seq<char>| contains_marker(l)),
        decreases names@.len() - i,
    {
        let keep = name_matches(names[i].as_str());
        proof {
            let prev = views(names@.take(i as int));
            let next = views(names@.take(i as int + 1));
            assert(next.drop_last() =~= prev);
            assert(next.last() == names@[i as int]@);
            reveal(Seq::filter);
        }
        if keep {
            r.push(names[i].clone());
        }
        i = i + 1;
    }
    proof {
        assert(names@.take(names@.len() as int) =~= names@);
    }
    r
}

/// The discovery report for a successful scan: the findings themselves, or
/// the single sentinel entry when there were none.
pub open spec fn spec_discovered(found: Seq<Seq<char>>) -> Seq<Seq<char>> {
    if found.len() == 0 {
        seq![spec_sentinel()]
    } else {
        found
    }
}

/// Replaces an empty finding with the sentinel, so a successful scan is
/// never reported as an empty sequence.
pub fn with_sentinel(found: Vec<String>) -> (r: Vec<String>)
    ensures
        views(r@) == spec_discovered(views(found@)),
        r@.len() > 0,
{
    if found.len() == 0 {
        let mut r: Vec<String> = Vec::new();
        r.push(String::from_str("No Discord IPC pipes found"));
        proof {
            assert(views(r@) =~= seq![spec_sentinel()]);
        }
        r
    } else {
        found
    }
}

/// Whether `c` is inner-line whitespace that trimming removes.
pub open spec fn is_space(c: char) -> bool {
    c == ' ' || c == '\t' || c == '\r'
}

/// A line with its leading whitespace removed.
pub open spec fn trim_front(l: Seq<char>) -> Seq<char>
    decreases l.len(),
{
    if l.len() > 0 && is_space(l[0]) {
        trim_front(l.drop_first())
    } else {
        l
    }
}

/// A line with its trailing whitespace removed.
pub open spec fn trim_back(l: Seq<char>) -> Seq<char>
    decreases l.len(),
{
    if l.len() > 0 && is_space(l.last()) {
        trim_back(l.drop_last())
    } else {
        l
    }
}

/// A line with whitespace removed from both ends.
pub open spec fn spec_trim(l: Seq<char>) -> Seq<char> {
    trim_back(trim_front(l))
}

/// What one raw line contributes to the parse: its trimmed text, or nothing
/// when only whitespace remains.
pub open spec fn keep_line(l: Seq<char>) -> Seq<Seq<char>> {
    if spec_trim(l).len() > 0 {
        seq![spec_trim(l)]
    } else {
        Seq::empty()
    }
}

/// The non-empty trimmed lines of `s`, with `cur` the line read so far.
pub open spec fn split_acc(s: Seq<char>, cur: Seq<char>) -> Seq<Seq<char>>
    decreases s.len(),
{
    if s.len() == 0 {
        keep_line(cur)
    } else if s[0] == '\n' {
        keep_line(cur) + split_acc(s.drop_first(), Seq::empty())
    } else {
        split_acc(s.drop_first(), cur.push(s[0]))
    }
}

/// The non-empty trimmed lines of a line-oriented output.
pub open spec fn spec_kept_lines(s: Seq<char>) -> Seq<Seq<char>> {
    split_acc(s, Seq::empty())
}

fn is_space_char(c: char) -> (b: bool)
    ensures
        b == is_space(c),
{
    c == ' ' || c == '\t' || c == '\r'
}

proof fn lemma_trim_front_skip(l: Seq<char>, k: int)
    requires
        0 <= k <= l.len(),
        forall|j: int| 0 <= j < k ==> is_space(l[j]),
    ensures
        trim_front(l) == trim_front(l.skip(k)),
    decreases k,
{
    if k > 0 {
        assert(l.drop_first() =~= l.skip(1));
        lemma_trim_front_skip(l.skip(1), k - 1);
        assert(l.skip(1).skip(k - 1) =~= l.skip(k));
    } else {
        assert(l.skip(0) =~= l);
    }
}

proof fn lemma_trim_back_take(l: Seq<char>, k: int)
    requires
        0 <= k <= l.len(),
        forall|j: int| k <= j < l.len() ==> is_space(l[j]),
    ensures
        trim_back(l) == trim_back(l.take(k)),
    decreases l.len() - k,
{
    if k < l.len() {
        assert(l.drop_last() =~= l.take(l.len() - 1));
        lemma_trim_back_take(l.take(l.len() - 1), k);
        assert(l.take(l.len() - 1).take(k) =~= l.take(k));
    } else {
        assert(l.take(l.len() as int) =~= l);
    }
}

/// Removes whitespace from both ends of a line.
fn trim_str(l: &str) -> (r: String)
    ensures
        r@ == spec_trim(l@),
{
    let n: usize = l.unicode_len();
    let mut start: usize = 0;
    while start < n && is_space_char(l.get_char(start))
        invariant
            start <= n,
            n == l@.len(),
            forall|j: int| 0 <= j < start ==> is_space(l@[j]),
        decreases n - start,
    {
        start = start + 1;
    }
    let mut end: usize = n;
    while end > start && is_space_char(l.get_char(end - 1))
        invariant
            start <= end <= n,
            n == l@.len(),
            forall|j: int| end <= j < n ==> is_space(l@[j]),
        decreases end,
    {
        end = end - 1;
    }
    let sub = l.substring_char(start, end);
    proof {
        lemma_trim_front_skip(l@, start as int);
        let m = l@.skip(start as int);
        if start < n {
            assert(m[0] == l@[start as int]);
            assert(trim_front(m) == m);
        } else {
            assert(m =~= Seq::<char>::empty());
        }
        assert(forall|j: int|
            end - start <= j < m.len() ==> is_space(#[trigger] m[j]) == is_space(
                l@[j + start as int],
            ));
        lemma_trim_back_take(m, end as int - start as int);
        let t = m.take(end as int - start as int);
        if end > start {
            assert(t.last() == l@[end - 1]);
            assert(trim_back(t) == t);
        } else {
            assert(t =~= Seq::<char>::empty());
        }
        assert(sub@ =~= t);
    }
    String::from_str(sub)
}

/// Parses the fallback utility's line-oriented output: one entry per line,
/// trimmed, with whitespace-only lines dropped.
pub fn parse_line_output(s: &str) -> (r: Vec<String>)
    ensures
        views(r@) == spec_kept_lines(s@),
{
    let n: usize = s.unicode_len();
    let mut r: Vec<String> = Vec::new();
    let mut cur = String::new();
    let mut i: usize = 0;
    proof {
        assert(s@.skip(0) =~= s@);
        assert(views(r@) =~= Seq::<Seq<char>>::empty());
    }
    while i < n
        invariant
            i <= n,
            n == s@.len(),
            views(r@) + split_acc(s@.skip(i as int), cur@) == spec_kept_lines(s@),
        decreases n - i,
    {
        let c = s.get_char(i);
        proof {
            assert(s@.skip(i as int).drop_first() =~= s@.skip(i as int + 1));
            assert(s@.skip(i as int)[0] == s@[i as int]);
        }
        if c == '\n' {
            let ghost prev_r = views(r@);
            let ghost prev_cur = cur@;
            let t = trim_str(cur.as_str());
            if t.as_str().unicode_len() > 0 {
                r.push(t);
                proof {
                    assert(views(r@) =~= prev_r + keep_line(prev_cur));
                }
            } else {
                proof {
                    assert(views(r@) =~= prev_r + keep_line(prev_cur));
                }
            }
            cur = String::new();
            proof {
                assert(views(r@) + split_acc(s@.skip(i as int + 1), cur@) =~= prev_r + (keep_line(
                    prev_cur,
                ) + split_acc(s@.skip(i as int + 1), Seq::empty())));
            }
        } else {
            let ghost prev_cur = cur@;
            cur.append(crate::char_to_str(c).as_str());
            proof {
                assert(cur@ =~= prev_cur.push(s@[i as int]));
            }
        }
        i = i + 1;
    }
    proof {
        assert(s@.skip(n as int) =~= Seq::<char>::empty());
    }
    let ghost prev_r = views(r@);
    let ghost prev_cur = cur@;
    let t = trim_str(cur.as_str());
    if t.as_str().unicode_len() > 0 {
        r.push(t);
        proof {
            assert(views(r@) =~= prev_r + keep_line(prev_cur));
        }
    } else {
        proof {
            assert(views(r@) =~= prev_r + keep_line(prev_cur));
        }
    }
    r
}

/// The whole diagnostic decision, over plain inputs: whether this is the
/// supported platform; what the primary enumeration of the pipe namespace
/// returned, `None` meaning the listing call itself failed (not an empty
/// listing); and, only in that case, what the fallback shell utility
/// printed, `None` meaning it failed too.
pub fn local_endpoints(
    supported: bool,
    primary: Option<Vec<String>>,
    fallback_output: Option<String>,
) -> (r: Result<Vec<String>, DiscoveryError>)
    ensures
        !supported ==> r == Err::<Vec<String>, DiscoveryError>(DiscoveryError::UnsupportedPlatform),
        supported ==> match primary {
            Some(names) => r matches Ok(v) && views(v@) == spec_discovered(
                views(names@).filter(|l: Seq<char>| contains_marker(l)),
            ) && v@.len() > 0,
            None => match fallback_output {
                Some(out) => r matches Ok(v) && views(v@) == spec_discovered(spec_kept_lines(out@))
                    && v@.len() > 0,
                None => r == Err::<Vec<String>, DiscoveryError>(DiscoveryError::EnumerationFailed),
            },
        },
{
    if !supported {
        return Err(DiscoveryError::UnsupportedPlatform);
    }
    match primary {
        Some(names) => {
            let found = filter_endpoints(&names);
            Ok(with_sentinel(found))
        },
        None => match fallback_output {
            Some(out) => {
                let lines = parse_line_output(out.as_str());
                Ok(with_sentinel(lines))
            },
            None => Err(DiscoveryError::EnumerationFailed),
        },
    }
}

/// Law: a successful discovery is never empty — whatever a scan found, the
/// report keeps at least one entry, so callers can tell "ran successfully,
/// found nothing" from an empty or erroneous response.
pub proof fn lemma_discovery_never_empty(found: Seq<Seq<char>>)
    ensures
        spec_discovered(found).len() > 0,
{
}

} // verus!
