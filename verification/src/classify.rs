//! Recognition of foreground applications: a lookup of a window's process
//! name against the configured allow-list, and a regex-based extraction of a
//! document name from the window title. The raw platform queries (window
//! handles, titles, process names) are the surrounding process's work; this
//! module makes every decision about what they returned.

use vstd::prelude::*;

verus! {

/// One configured allow-list entry, as loaded from the bundled
/// configuration.
#[derive(Clone, Debug)]
pub struct AllowedProcess {
    pub process_name: String,
    pub icon_path: String,
    pub display_name: String,
    pub app_id: Option<String>,
    pub title_extract_patterns: Option<Vec<String>>,
}

/// One recognized top-level window.
#[derive(Clone, Debug)]
pub struct WindowInfo {
    pub hwnd: isize,
    pub title: String,
    pub process_name: String,
    pub icon_path: String,
    pub display_name: String,
    pub document_name: String,
}

#[verifier::external_type_specification]
#[verifier::external_body]
pub struct ExRegex(regex::Regex);

/// Whether `regex::Regex::new` accepts this pattern text.
pub uninterp spec fn regex_valid(pattern: Seq<char>) -> bool;

/// What capture group `group` of the leftmost match of `pattern` in `hay`
/// holds; `None` when there is no match or the group did not participate.
pub uninterp spec fn regex_capture(pattern: Seq<char>, group: int, hay: Seq<char>) -> Option<
    Seq<char>,
>;

/// A title-extraction pattern: the pattern text together with the compiled
/// form built from exactly that text, so what a capture returns is a
/// function of the text, the group index and the haystack alone.
pub struct TitlePattern {
    source: String,
    compiled: regex::Regex,
}

/// The view of an optional capture.
pub open spec fn capture_view(o: Option<String>) -> Option<Seq<char>> {
    match o {
        Some(s) => Some(s@),
        None => None,
    }
}

impl TitlePattern {
    /// The pattern text this value was compiled from.
    pub closed spec fn text(&self) -> Seq<char> {
        self.source@
    }

    /// Relies on `regex::Regex::new`: it returns `Ok` exactly on pattern
    /// texts that are valid regex syntax, and the compiled regex it returns
    /// is determined by the pattern text alone.
    #[verifier::external_body]
    pub fn compile(source: &str) -> (r: Option<TitlePattern>)
        ensures
            r is Some <==> regex_valid(source@),
            r matches Some(p) ==> p.text() == source@,
    {
        match regex::Regex::new(source) {
            Ok(compiled) => Some(TitlePattern { source: source.to_owned(), compiled }),
            Err(_) => None,
        }
    }

    /// Relies on `regex::Regex::captures` (with `Captures::get` and
    /// `Match::as_str`): the text of capture group `group` of the leftmost
    /// match in `hay`, which depends only on the pattern text this value was
    /// compiled from, the group index, and the haystack. Group 0 is the
    /// whole match, so when any group is captured, group 0 is too.
    #[verifier::external_body]
    pub fn capture(&self, hay: &str, group: usize) -> (r: Option<String>)
        ensures
            capture_view(r) == regex_capture(self.text(), group as int, hay@),
            r is Some && group > 0 ==> regex_capture(self.text(), 0, hay@) is Some,
    {
        self.compiled.captures(hay).and_then(|c| c.get(group)).map(|m| m.as_str().to_owned())
    }
}

/// The document name one pattern extracts from a title: the first capture
/// group of the leftmost match when it participates, the whole match
/// otherwise, nothing when the pattern does not match at all.
pub open spec fn spec_extract_one(pattern: Seq<char>, title: Seq<char>) -> Option<Seq<char>> {
    match regex_capture(pattern, 0, title) {
        Some(whole) => match regex_capture(pattern, 1, title) {
            Some(g) => Some(g),
            None => Some(whole),
        },
        None => None,
    }
}

/// The document name a pattern list extracts: what the first matching
/// pattern yields, or the empty string when none matches.
pub open spec fn spec_extract(patterns: Seq<Seq<char>>, title: Seq<char>) -> Seq<char>
    decreases patterns.len(),
{
    if patterns.len() == 0 {
        Seq::empty()
    } else {
        match spec_extract_one(patterns[0], title) {
            Some(s) => s,
            None => spec_extract(patterns.drop_first(), title),
        }
    }
}

/// The pattern texts of a compiled pattern list.
pub open spec fn pattern_texts(ps: Seq<TitlePattern>) -> Seq<Seq<char>> {
    ps.map_values(|p: TitlePattern| p.text())
}

/// An allow-list entry with its extraction patterns compiled; patterns that
/// are not valid regex syntax are dropped, as configuration is best-effort.
pub struct CompiledEntry {
    pub process_name: String,
    pub icon_path: String,
    pub display_name: String,
    pub patterns: Vec<TitlePattern>,
}

/// The views of a list of pattern texts.
pub open spec fn text_views(v: Seq<String>) -> Seq<Seq<char>> {
    v.map_values(|s: String| s@)
}

/// The pattern texts a configuration entry carries, absence read as none.
pub open spec fn cfg_pattern_texts(o: Option<Vec<String>>) -> Seq<Seq<char>> {
    match o {
        Some(v) => text_views(v@),
        None => Seq::empty(),
    }
}

/// Compiles one configuration entry, keeping the fields and exactly those
/// extraction patterns that are valid regex syntax, in order.
pub fn compile_entry(cfg: &AllowedProcess) -> (e: CompiledEntry)
    ensures
        e.process_name@ == cfg.process_name@,
        e.icon_path@ == cfg.icon_path@,
        e.display_name@ == cfg.display_name@,
        pattern_texts(e.patterns@) == cfg_pattern_texts(cfg.title_extract_patterns).filter(
            |t: Seq<char>| regex_valid(t),
        ),
{
    let mut patterns: Vec<TitlePattern> = Vec::new();
    proof {
        assert(pattern_texts(patterns@) =~= Seq::<Seq<char>>::empty());
        reveal(Seq::filter);
    }
    match &cfg.title_extract_patterns {
        None => {
            proof {
                assert(cfg_pattern_texts(cfg.title_extract_patterns).filter(
                    |t: Seq<char>| regex_valid(t),
                ) =~= Seq::<Seq<char>>::empty());
            }
        },
        Some(texts) => {
            let mut i: usize = 0;
            proof {
                assert(text_views(texts@.take(0)) =~= Seq::<Seq<char>>::empty());
            }
            while i < texts.len()
                invariant
                    i <= texts@.len(),
                    pattern_texts(patterns@) == text_views(texts@.take(i as int)).filter(
                        |t: Seq<char>| regex_valid(t),
                    ),
                decreases texts@.len() - i,
            {
                proof {
                    let prev = text_views(texts@.take(i as int));
                    let next = text_views(texts@.take(i as int + 1));
                    assert(next.drop_last() =~= prev);
                    assert(next.last() == texts@[i as int]@);
                    reveal(Seq::filter);
                }
                let ghost prev_pats = pattern_texts(patterns@);
                match TitlePattern::compile(texts[i].as_str()) {
                    Some(p) => {
                        patterns.push(p);
                        proof {
                            assert(pattern_texts(patterns@) =~= prev_pats.push(texts@[i as int]@));
                        }
                    },
                    None => {},
                }
                i = i + 1;
            }
            proof {
                assert(texts@.take(texts@.len() as int) =~= texts@);
            }
        },
    }
    CompiledEntry {
        process_name: cfg.process_name.clone(),
        icon_path: cfg.icon_path.clone(),
        display_name: cfg.display_name.clone(),
        patterns,
    }
}

/// Extracts a document name from a window title: the first pattern that
/// matches decides, preferring its first capture group over the whole
/// match; no match at all yields the empty string.
pub fn extract_document_name(entry: &CompiledEntry, title: &str) -> (r: String)
    ensures
        r@ == spec_extract(pattern_texts(entry.patterns@), title@),
{
    let n = entry.patterns.len();
    let mut i: usize = 0;
    proof {
        assert(pattern_texts(entry.patterns@).skip(0) =~= pattern_texts(entry.patterns@));
    }
    while i < n
        invariant
            n == entry.patterns@.len(),
            i <= n,
            spec_extract(pattern_texts(entry.patterns@), title@) == spec_extract(
                pattern_texts(entry.patterns@).skip(i as int),
                title@,
            ),
        decreases n - i,
    {
        proof {
            assert(pattern_texts(entry.patterns@).skip(i as int).drop_first() =~= pattern_texts(
                entry.patterns@,
            ).skip(i as int + 1));
            assert(pattern_texts(entry.patterns@).skip(i as int)[0] == entry.patterns@[i as int].text());
        }
        let pat = &entry.patterns[i];
        match pat.capture(title, 0) {
            Some(whole) => {
                match pat.capture(title, 1) {
                    Some(g) => {
                        return g;
                    },
                    None => {
                        return whole;
                    },
                }
            },
            None => {},
        }
        i = i + 1;
    }
    proof {
        assert(pattern_texts(entry.patterns@).skip(n as int) =~= Seq::<Seq<char>>::empty());
    }
    String::new()
}

/// Which entry recognizes this process name: the first with an equal name.
pub open spec fn spec_find_entry(entries: Seq<CompiledEntry>, pname: Seq<char>) -> Option<
    CompiledEntry,
>
    decreases entries.len(),
{
    if entries.len() == 0 {
        None
    } else if entries[0].process_name@ == pname {
        Some(entries[0])
    } else {
        spec_find_entry(entries.drop_first(), pname)
    }
}

/// Classifies one visible top-level window: a window whose process name is
/// on the allow-list is reported with that entry's icon and display name
/// and with the document name its patterns extract from the title; any
/// other window is not reported.
pub fn classify_window(
    hwnd: isize,
    title: &str,
    process_name: &str,
    entries: &Vec<CompiledEntry>,
) -> (r: Option<WindowInfo>)
    ensures
        r is Some <==> spec_find_entry(entries@, process_name@) is Some,
        r matches Some(w) ==> spec_find_entry(entries@, process_name@) matches Some(e) && {
            &&& w.hwnd == hwnd
            &&& w.title@ == title@
            &&& w.process_name@ == process_name@
            &&& w.icon_path@ == e.icon_path@
            &&& w.display_name@ == e.display_name@
            &&& w.document_name@ == spec_extract(pattern_texts(e.patterns@), title@)
        },
{
    let pname = String::from_str(process_name);
    let n = entries.len();
    let mut i: usize = 0;
    proof {
        assert(entries@.skip(0) =~= entries@);
    }
    while i < n
        invariant
            n == entries@.len(),
            pname@ == process_name@,
            i <= n,
            spec_find_entry(entries@, process_name@) == spec_find_entry(
                entries@.skip(i as int),
                process_name@,
            ),
        decreases n - i,
    {
        proof {
            assert(entries@.skip(i as int).drop_first() =~= entries@.skip(i as int + 1));
            assert(entries@.skip(i as int)[0] == entries@[i as int]);
        }
        let entry = &entries[i];
        if entry.process_name == pname {
            let document_name = extract_document_name(entry, title);
            return Some(
                WindowInfo {
                    hwnd,
                    title: String::from_str(title),
                    process_name: pname,
                    icon_path: entry.icon_path.clone(),
                    display_name: entry.display_name.clone(),
                    document_name,
                },
            );
        }
        i = i + 1;
    }
    proof {
        assert(entries@.skip(n as int) =~= Seq::<CompiledEntry>::empty());
    }
    None
}

/// The file name at the end of a backslash-separated path: everything after
/// the last separator, or the whole text when there is none.
pub open spec fn last_sep(s: Seq<char>) -> int
    decreases s.len(),
{
    if s.len() == 0 {
        -1
    } else if s.last() == '\\' {
        s.len() - 1
    } else {
        last_sep(s.drop_last())
    }
}

/// See `last_sep`: the suffix after the last backslash.
pub open spec fn spec_file_name(s: Seq<char>) -> Seq<char> {
    s.subrange(last_sep(s) + 1, s.len() as int)
}

proof fn lemma_last_sep_bounds(s: Seq<char>)
    ensures
        -1 <= last_sep(s) < s.len(),
    decreases s.len(),
{
    if s.len() > 0 && s.last() != '\\' {
        lemma_last_sep_bounds(s.drop_last());
    }
}

/// The process image's file name: the path component after the last
/// backslash of the reported image path.
pub fn file_name_of_path(s: &str) -> (r: String)
    ensures
        r@ == spec_file_name(s@),
{
    let n: usize = s.unicode_len();
    let mut cut: usize = 0;
    let mut i: usize = 0;
    proof {
        assert(s@.take(0) =~= Seq::<char>::empty());
    }
    while i < n
        invariant
            i <= n,
            n == s@.len(),
            cut <= i,
            last_sep(s@.take(i as int)) == cut - 1,
        decreases n - i,
    {
        let c = s.get_char(i);
        proof {
            assert(s@.take(i as int + 1).drop_last() =~= s@.take(i as int));
            assert(s@.take(i as int + 1).last() == s@[i as int]);
        }
        if c == '\\' {
            cut = i + 1;
        }
        i = i + 1;
    }
    proof {
        assert(s@.take(n as int) =~= s@);
        lemma_last_sep_bounds(s@);
    }
    let sub = s.substring_char(cut, n);
    String::from_str(sub)
}

} // verus!
