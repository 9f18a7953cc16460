//! Pure translation of a caller-supplied presence payload into the activity
//! shape the external client expects.
//!
//! Every string field of the payload is optional-by-emptiness: an empty
//! string means "field absent". The activity-kind tag is matched without
//! regard to ASCII case; an unrecognized tag is ignored, not an error.

use vstd::prelude::*;

verus! {

/// The four activity kinds the external presence service understands.
#[derive(Clone, Copy, PartialEq, Eq, Structural, Debug)]
pub enum ActivityKind {
    Playing,
    Listening,
    Watching,
    Competing,
}

/// A caller-supplied presence payload, immutable once constructed.
#[derive(Clone, Debug)]
pub struct PresencePayload {
    pub details: String,
    pub state: String,
    pub large_image: String,
    pub small_image: String,
    pub large_text: Option<String>,
    pub small_text: Option<String>,
    pub activity_kind: Option<String>,
}

/// The asset sub-object of a built activity.
#[derive(Clone, Debug)]
pub struct ActivityAssets {
    pub large_image: Option<String>,
    pub small_image: Option<String>,
    pub large_text: Option<String>,
    pub small_text: Option<String>,
}

/// The activity representation handed to the external client: each field is
/// present only if its source string was non-empty.
#[derive(Clone, Debug)]
pub struct BuiltActivity {
    pub state: Option<String>,
    pub details: Option<String>,
    pub kind: Option<ActivityKind>,
    pub assets: Option<ActivityAssets>,
}

/// ASCII lowercasing of one character; other characters are unchanged.
pub open spec fn spec_lower(c: char) -> char {
    match c {
        'A' => 'a',
        'B' => 'b',
        'C' => 'c',
        'D' => 'd',
        'E' => 'e',
        'F' => 'f',
        'G' => 'g',
        'H' => 'h',
        'I' => 'i',
        'J' => 'j',
        'K' => 'k',
        'L' => 'l',
        'M' => 'm',
        'N' => 'n',
        'O' => 'o',
        'P' => 'p',
        'Q' => 'q',
        'R' => 'r',
        'S' => 's',
        'T' => 't',
        'U' => 'u',
        'V' => 'v',
        'W' => 'w',
        'X' => 'x',
        'Y' => 'y',
        'Z' => 'z',
        _ => c,
    }
}

/// ASCII lowercasing of a whole character sequence.
pub open spec fn spec_lower_seq(s: Seq<char>) -> Seq<char> {
    s.map_values(|c: char| spec_lower(c))
}

/// Which activity kind a tag denotes, after ASCII lowercasing; `None` for an
/// unrecognized tag.
pub open spec fn spec_kind_of(tag: Seq<char>) -> Option<ActivityKind> {
    if spec_lower_seq(tag) == "playing"@ {
        Some(ActivityKind::Playing)
    } else if spec_lower_seq(tag) == "listening"@ {
        Some(ActivityKind::Listening)
    } else if spec_lower_seq(tag) == "watching"@ {
        Some(ActivityKind::Watching)
    } else if spec_lower_seq(tag) == "competing"@ {
        Some(ActivityKind::Competing)
    } else {
        None
    }
}

/// The text of an optional field, with absence read as the empty string.
pub open spec fn norm(o: Option<String>) -> Seq<char> {
    match o {
        Some(s) => s@,
        None => Seq::empty(),
    }
}

/// The view of an optional string field.
pub open spec fn opt_view(o: Option<String>) -> Option<Seq<char>> {
    match o {
        Some(s) => Some(s@),
        None => None,
    }
}

/// How one source string appears in the built activity: present with its own
/// text if non-empty, absent otherwise.
pub open spec fn field_view(s: Seq<char>) -> Option<Seq<char>> {
    if s.len() > 0 {
        Some(s)
    } else {
        None
    }
}

/// The kind carried by the payload's tag, if the tag is recognized.
pub open spec fn kind_view(o: Option<String>) -> Option<ActivityKind> {
    match o {
        Some(t) => spec_kind_of(t@),
        None => None,
    }
}

/// Whether the payload populates any of the four asset fields.
pub open spec fn assets_present(p: PresencePayload) -> bool {
    p.large_image@.len() > 0 || p.small_image@.len() > 0 || norm(p.large_text).len() > 0
        || norm(p.small_text).len() > 0
}

/// The exact relation between a payload and the activity built from it.
pub open spec fn is_build_of(a: BuiltActivity, p: PresencePayload) -> bool {
    &&& opt_view(a.state) == field_view(p.state@)
    &&& opt_view(a.details) == field_view(p.details@)
    &&& a.kind == kind_view(p.activity_kind)
    &&& (a.assets is Some <==> assets_present(p))
    &&& (a.assets matches Some(ass) ==> {
        &&& opt_view(ass.large_image) == field_view(p.large_image@)
        &&& opt_view(ass.small_image) == field_view(p.small_image@)
        &&& opt_view(ass.large_text) == field_view(norm(p.large_text))
        &&& opt_view(ass.small_text) == field_view(norm(p.small_text))
    })
}

/// ASCII lowercasing of one character.
fn lower_char(c: char) -> (r: char)
    ensures
        r == spec_lower(c),
{
    match c {
        'A' => 'a',
        'B' => 'b',
        'C' => 'c',
        'D' => 'd',
        'E' => 'e',
        'F' => 'f',
        'G' => 'g',
        'H' => 'h',
        'I' => 'i',
        'J' => 'j',
        'K' => 'k',
        'L' => 'l',
        'M' => 'm',
        'N' => 'n',
        'O' => 'o',
        'P' => 'p',
        'Q' => 'q',
        'R' => 'r',
        'S' => 's',
        'T' => 't',
        'U' => 'u',
        'V' => 'v',
        'W' => 'w',
        'X' => 'x',
        'Y' => 'y',
        'Z' => 'z',
        _ => c,
    }
}

/// ASCII lowercasing of a whole string.
fn lower_str(s: &str) -> (r: String)
    ensures
        r@ == spec_lower_seq(s@),
{
    let n: usize = s.unicode_len();
    let mut out = String::new();
    let mut i: usize = 0;
    while i < n
        invariant
            n == s@.len(),
            i <= n,
            out@.len() == i,
            forall|j: int| 0 <= j < i ==> out@[j] == spec_lower(s@[j]),
        decreases n - i,
    {
        let c = lower_char(s.get_char(i));
        out.append(crate::char_to_str(c).as_str());
        i = i + 1;
    }
    proof {
        assert(out@ =~= spec_lower_seq(s@));
    }
    out
}

/// Parses an activity-kind tag, without regard to ASCII case. An
/// unrecognized tag yields `None` and is never an error.
pub fn parse_kind(tag: &str) -> (k: Option<ActivityKind>)
    ensures
        k == spec_kind_of(tag@),
{
    let lowered = lower_str(tag);
    if lowered == String::from_str("playing") {
        Some(ActivityKind::Playing)
    } else if lowered == String::from_str("listening") {
        Some(ActivityKind::Listening)
    } else if lowered == String::from_str("watching") {
        Some(ActivityKind::Watching)
    } else if lowered == String::from_str("competing") {
        Some(ActivityKind::Competing)
    } else {
        None
    }
}

/// Wraps a string in `Some` when it is non-empty, the "optional by
/// emptiness" reading of payload fields.
fn nonempty_or_none(s: &String) -> (r: Option<String>)
    ensures
        opt_view(r) == field_view(s@),
{
    if s.as_str().unicode_len() > 0 {
        Some(s.clone())
    } else {
        None
    }
}

/// The text of an optional payload field, with absence read as empty.
fn opt_text(o: &Option<String>) -> (r: String)
    ensures
        r@ == norm(*o),
{
    match o {
        Some(s) => s.clone(),
        None => String::new(),
    }
}

/// Builds the external activity representation from a payload. Pure: the
/// result depends on the payload's field values alone; each field is
/// included only if its source string is non-empty, and the asset sub-object
/// only if at least one of its four constituents is non-empty.
pub fn build_activity(p: &PresencePayload) -> (a: BuiltActivity)
    ensures
        is_build_of(a, *p),
{
    let state = nonempty_or_none(&p.state);
    let details = nonempty_or_none(&p.details);
    let kind = match &p.activity_kind {
        Some(t) => parse_kind(t.as_str()),
        None => None,
    };
    let large_text = opt_text(&p.large_text);
    let small_text = opt_text(&p.small_text);
    let any_asset = p.large_image.as_str().unicode_len() > 0 || p.small_image.as_str().unicode_len()
        > 0 || large_text.as_str().unicode_len() > 0 || small_text.as_str().unicode_len() > 0;
    let assets = if any_asset {
        Some(
            ActivityAssets {
                large_image: nonempty_or_none(&p.large_image),
                small_image: nonempty_or_none(&p.small_image),
                large_text: nonempty_or_none(&large_text),
                small_text: nonempty_or_none(&small_text),
            },
        )
    } else {
        None
    };
    BuiltActivity { state, details, kind, assets }
}

/// Law: a payload with every string field empty and no recognized kind tag
/// builds an activity with no optional field set.
pub proof fn lemma_build_all_empty(p: PresencePayload, a: BuiltActivity)
    requires
        is_build_of(a, p),
        p.details@.len() == 0,
        p.state@.len() == 0,
        p.large_image@.len() == 0,
        p.small_image@.len() == 0,
        norm(p.large_text).len() == 0,
        norm(p.small_text).len() == 0,
        norm(p.activity_kind).len() == 0,
    ensures
        a.state is None,
        a.details is None,
        a.kind is None,
        a.assets is None,
{
    if let Some(t) = p.activity_kind {
        reveal_strlit("playing");
        reveal_strlit("listening");
        reveal_strlit("watching");
        reveal_strlit("competing");
        assert(spec_lower_seq(t@).len() == 0);
    }
}

/// Law: construction is field-wise, so the order in which fields are filled
/// in cannot matter — each part of the result is determined by the
/// corresponding payload field alone.
pub proof fn lemma_build_fieldwise(p1: PresencePayload, a1: BuiltActivity, p2: PresencePayload, a2: BuiltActivity)
    requires
        is_build_of(a1, p1),
        is_build_of(a2, p2),
    ensures
        p1.state@ == p2.state@ ==> opt_view(a1.state) == opt_view(a2.state),
        p1.details@ == p2.details@ ==> opt_view(a1.details) == opt_view(a2.details),
        opt_view(p1.activity_kind) == opt_view(p2.activity_kind) ==> a1.kind == a2.kind,
        (p1.large_image@ == p2.large_image@ && p1.small_image@ == p2.small_image@ && norm(
            p1.large_text,
        ) == norm(p2.large_text) && norm(p1.small_text) == norm(p2.small_text)) ==> {
            &&& (a1.assets is Some <==> a2.assets is Some)
            &&& (a1.assets matches Some(x1) ==> a2.assets matches Some(x2) && opt_view(
                x1.large_image,
            ) == opt_view(x2.large_image) && opt_view(x1.small_image) == opt_view(x2.small_image)
                && opt_view(x1.large_text) == opt_view(x2.large_text) && opt_view(x1.small_text)
                == opt_view(x2.small_text))
        },
{
}

/// Law: an unrecognized activity-kind tag is equivalent to omitting the tag —
/// the build succeeds and every part of the result matches the build of the
/// same payload with no tag at all.
pub proof fn lemma_unknown_kind_ignored(p1: PresencePayload, a1: BuiltActivity, p2: PresencePayload, a2: BuiltActivity)
    requires
        is_build_of(a1, p1),
        is_build_of(a2, p2),
        p1.activity_kind matches Some(t) && spec_kind_of(t@) is None,
        p2.activity_kind is None,
        p1.state@ == p2.state@,
        p1.details@ == p2.details@,
        p1.large_image@ == p2.large_image@,
        p1.small_image@ == p2.small_image@,
        norm(p1.large_text) == norm(p2.large_text),
        norm(p1.small_text) == norm(p2.small_text),
    ensures
        a1.kind is None,
        a2.kind is None,
        opt_view(a1.state) == opt_view(a2.state),
        opt_view(a1.details) == opt_view(a2.details),
        (a1.assets is Some <==> a2.assets is Some),
{
}

} // verus!

