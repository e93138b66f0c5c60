//! Text helpers over the character view of strings.
use vstd::prelude::*;

verus! {

/// Whether two strings hold the same characters.
pub fn same_text(a: &str, b: &str) -> (r: bool)
    ensures
        r == (a@ == b@),
{
    let n = a.unicode_len();
    if n != b.unicode_len() {
        return false;
    }
    let mut i: usize = 0;
    while i < n
        invariant
            n == a@.len(),
            n == b@.len(),
            i <= n,
            a@.subrange(0, i as int) == b@.subrange(0, i as int),
        decreases n - i,
    {
        if a.get_char(i) != b.get_char(i) {
            assert(a@[i as int] != b@[i as int]);
            return false;
        }
        assert(a@.subrange(0, i + 1) == a@.subrange(0, i as int).push(a@[i as int]));
        assert(b@.subrange(0, i + 1) == b@.subrange(0, i as int).push(b@[i as int]));
        i = i + 1;
    }
    assert(a@ == a@.subrange(0, n as int));
    assert(b@ == b@.subrange(0, n as int));
    true
}

/// Whether `c` has the Unicode `White_Space` property, as `char::is_whitespace` reads it.
pub open spec fn is_ws(c: char) -> bool {
    let u = c as u32;
    (0x9 <= u && u <= 0xD) || u == 0x20 || u == 0x85 || u == 0xA0 || u == 0x1680 || (0x2000 <= u
        && u <= 0x200A) || u == 0x2028 || u == 0x2029 || u == 0x202F || u == 0x205F || u == 0x3000
}

/// Whether every character of `s` is whitespace.
pub open spec fn all_ws(s: Seq<char>) -> bool {
    forall|i: int| 0 <= i < s.len() ==> is_ws(#[trigger] s[i])
}

/// `s` without its leading whitespace.
pub open spec fn trim_start(s: Seq<char>) -> Seq<char>
    decreases s.len(),
{
    if s.len() > 0 && is_ws(s[0]) {
        trim_start(s.drop_first())
    } else {
        s
    }
}

/// `s` without its trailing whitespace.
pub open spec fn trim_end(s: Seq<char>) -> Seq<char>
    decreases s.len(),
{
    if s.len() > 0 && is_ws(s.last()) {
        trim_end(s.drop_last())
    } else {
        s
    }
}

/// `s` without leading and trailing whitespace.
pub open spec fn trimmed(s: Seq<char>) -> Seq<char> {
    trim_end(trim_start(s))
}

/// Whether `s` begins with `p`.
pub open spec fn starts_with(s: Seq<char>, p: Seq<char>) -> bool {
    p.len() <= s.len() && s.subrange(0, p.len() as int) == p
}

/// Whether `s` ends with `p`.
pub open spec fn ends_with(s: Seq<char>, p: Seq<char>) -> bool {
    p.len() <= s.len() && s.subrange(s.len() - p.len(), s.len() as int) == p
}

/// `s` with every leading repetition of the non-empty `p` removed.
pub open spec fn strip_prefixes(s: Seq<char>, p: Seq<char>) -> Seq<char>
    decreases s.len(),
{
    if p.len() > 0 && starts_with(s, p) {
        strip_prefixes(s.subrange(p.len() as int, s.len() as int), p)
    } else {
        s
    }
}

/// `s` with every trailing repetition of the non-empty `p` removed.
pub open spec fn strip_suffixes(s: Seq<char>, p: Seq<char>) -> Seq<char>
    decreases s.len(),
{
    if p.len() > 0 && ends_with(s, p) {
        strip_suffixes(s.subrange(0, s.len() - p.len()), p)
    } else {
        s
    }
}

/// Whether `c` may stand in the language tag of a code fence.
pub open spec fn is_tag_char(c: char) -> bool {
    ('a' <= c && c <= 'z') || ('A' <= c && c <= 'Z') || ('0' <= c && c <= '9') || c == '-' || c
        == '+' || c == '_' || c == '.'
}

/// The number of tag characters at the start of `s`.
pub open spec fn tag_len(s: Seq<char>) -> nat
    decreases s.len(),
{
    if s.len() > 0 && is_tag_char(s[0]) {
        1 + tag_len(s.drop_first())
    } else {
        0
    }
}

/// `s` without a language tag that makes up the rest of its first line; the
/// line break stays.
pub open spec fn drop_tag(s: Seq<char>) -> Seq<char> {
    let k = tag_len(s);
    if 0 < k && k < s.len() && (s[k as int] == '\n' || s[k as int] == '\r') {
        s.subrange(k as int, s.len() as int)
    } else {
        s
    }
}

/// Trimmed text with its leading fence marker taken off: every leading
/// "```json" and "```", then, where a marker was there, a language tag.
pub open spec fn without_opening(t: Seq<char>) -> Seq<char> {
    let u = strip_prefixes(strip_prefixes(t, "```json"@), "```"@);
    if starts_with(t, "```"@) {
        drop_tag(u)
    } else {
        u
    }
}

/// The text of a reply with its code-fence marker taken off: trimmed, the
/// opening marker with any language tag removed, trailing "```" removed, then
/// trimmed again.
pub open spec fn json_payload_of(s: Seq<char>) -> Seq<char> {
    trimmed(strip_suffixes(without_opening(trimmed(s)), "```"@))
}

/// Whether `c` is whitespace.
pub fn is_whitespace(c: char) -> (r: bool)
    ensures
        r == is_ws(c),
{
    let u = c as u32;
    (0x9 <= u && u <= 0xD) || u == 0x20 || u == 0x85 || u == 0xA0 || u == 0x1680 || (0x2000 <= u
        && u <= 0x200A) || u == 0x2028 || u == 0x2029 || u == 0x202F || u == 0x205F || u == 0x3000
}

/// `s` without leading and trailing whitespace.
pub fn trim(s: &str) -> (r: &str)
    ensures
        r@ == trimmed(s@),
{
    let n = s.unicode_len();
    let mut i: usize = 0;
    assert(s@.subrange(0, n as int) =~= s@);
    while i < n && is_whitespace(s.get_char(i))
        invariant
            n == s@.len(),
            i <= n,
            trim_start(s@.subrange(i as int, n as int)) == trim_start(s@),
        decreases n - i,
    {
        assert(s@.subrange(i as int, n as int).drop_first() =~= s@.subrange(i + 1, n as int));
        i = i + 1;
    }
    assert(trim_start(s@) == s@.subrange(i as int, n as int));
    let mut j: usize = n;
    while j > i && is_whitespace(s.get_char(j - 1))
        invariant
            n == s@.len(),
            i <= j <= n,
            trim_end(s@.subrange(i as int, j as int)) == trimmed(s@),
        decreases j,
    {
        assert(s@.subrange(i as int, j as int).drop_last() =~= s@.subrange(i as int, j - 1));
        j = j - 1;
    }
    s.substring_char(i, j)
}

/// Whether `s` begins with `p`.
pub fn has_prefix(s: &str, p: &str) -> (r: bool)
    ensures
        r == starts_with(s@, p@),
{
    let n = s.unicode_len();
    let m = p.unicode_len();
    if m > n {
        return false;
    }
    let mut i: usize = 0;
    while i < m
        invariant
            n == s@.len(),
            m == p@.len(),
            m <= n,
            i <= m,
            s@.subrange(0, i as int) == p@.subrange(0, i as int),
        decreases m - i,
    {
        if s.get_char(i) != p.get_char(i) {
            assert(s@.subrange(0, m as int)[i as int] != p@[i as int]);
            return false;
        }
        assert(s@.subrange(0, i + 1) =~= s@.subrange(0, i as int).push(s@[i as int]));
        assert(p@.subrange(0, i + 1) =~= p@.subrange(0, i as int).push(p@[i as int]));
        i = i + 1;
    }
    assert(p@ =~= p@.subrange(0, m as int));
    true
}

/// Whether `s` ends with `p`.
pub fn has_suffix(s: &str, p: &str) -> (r: bool)
    ensures
        r == ends_with(s@, p@),
{
    let n = s.unicode_len();
    let m = p.unicode_len();
    if m > n {
        return false;
    }
    let d: usize = n - m;
    let mut i: usize = 0;
    while i < m
        invariant
            n == s@.len(),
            m == p@.len(),
            d == n - m,
            i <= m,
            s@.subrange(d as int, d + i) == p@.subrange(0, i as int),
        decreases m - i,
    {
        if s.get_char(d + i) != p.get_char(i) {
            assert(s@.subrange(d as int, n as int)[i as int] != p@[i as int]);
            return false;
        }
        assert(s@.subrange(d as int, d + i + 1) =~= s@.subrange(d as int, d + i).push(
            s@[d + i],
        ));
        assert(p@.subrange(0, i + 1) =~= p@.subrange(0, i as int).push(p@[i as int]));
        i = i + 1;
    }
    assert(p@ =~= p@.subrange(0, m as int));
    true
}

/// `s` with every leading repetition of `p` removed.
pub fn trim_prefixes<'a>(s: &'a str, p: &str) -> (r: &'a str)
    ensures
        r@ == strip_prefixes(s@, p@),
{
    let m = p.unicode_len();
    if m == 0 {
        return s;
    }
    let mut t = s;
    while has_prefix(t, p)
        invariant
            m == p@.len(),
            m > 0,
            strip_prefixes(t@, p@) == strip_prefixes(s@, p@),
        decreases t@.len(),
    {
        let n = t.unicode_len();
        t = t.substring_char(m, n);
    }
    t
}

/// `s` with every trailing repetition of `p` removed.
pub fn trim_suffixes<'a>(s: &'a str, p: &str) -> (r: &'a str)
    ensures
        r@ == strip_suffixes(s@, p@),
{
    let m = p.unicode_len();
    if m == 0 {
        return s;
    }
    let mut t = s;
    while has_suffix(t, p)
        invariant
            m == p@.len(),
            m > 0,
            strip_suffixes(t@, p@) == strip_suffixes(s@, p@),
        decreases t@.len(),
    {
        let n = t.unicode_len();
        t = t.substring_char(0, n - m);
    }
    t
}

/// Whether `c` may stand in a language tag.
pub fn is_tag_character(c: char) -> (r: bool)
    ensures
        r == is_tag_char(c),
{
    ('a' <= c && c <= 'z') || ('A' <= c && c <= 'Z') || ('0' <= c && c <= '9') || c == '-' || c
        == '+' || c == '_' || c == '.'
}

/// `s` without a language tag that makes up the rest of its first line.
pub fn drop_language_tag(s: &str) -> (r: &str)
    ensures
        r@ == drop_tag(s@),
{
    let n = s.unicode_len();
    let mut k: usize = 0;
    assert(s@.subrange(0, n as int) =~= s@);
    while k < n && is_tag_character(s.get_char(k))
        invariant
            n == s@.len(),
            k <= n,
            tag_len(s@) == k + tag_len(s@.subrange(k as int, n as int)),
        decreases n - k,
    {
        assert(s@.subrange(k as int, n as int).drop_first() =~= s@.subrange(k + 1, n as int));
        k = k + 1;
    }
    if 0 < k && k < n {
        let c = s.get_char(k);
        if c == '\n' || c == '\r' {
            return s.substring_char(k, n);
        }
    }
    s
}

/// The JSON text inside a reply that may be wrapped in a code fence, with or
/// without a language tag.
pub fn json_payload(text: &str) -> (r: String)
    ensures
        r@ == json_payload_of(text@),
{
    proof {
        reveal_strlit("```json");
        reveal_strlit("```");
    }
    let t = trim(text);
    let opened = has_prefix(t, "```");
    let t = trim_prefixes(t, "```json");
    let t = trim_prefixes(t, "```");
    let t = if opened {
        drop_language_tag(t)
    } else {
        t
    };
    let t = trim_suffixes(t, "```");
    String::from_str(trim(t))
}

/// A reply that wraps `payload` in a code fence with language tag `tag`
/// (empty for none), the payload on lines of its own.
pub open spec fn fenced(payload: Seq<char>, tag: Seq<char>) -> Seq<char> {
    "```"@ + tag + ("\n"@ + payload + "\n"@) + "```"@
}

proof fn lemma_trim_start_ws_prefix(w: Seq<char>, s: Seq<char>)
    requires
        all_ws(w),
    ensures
        trim_start(w + s) == trim_start(s),
    decreases w.len(),
{
    if w.len() == 0 {
        assert(w + s =~= s);
    } else {
        assert((w + s)[0] == w[0]);
        assert((w + s).drop_first() =~= w.drop_first() + s);
        lemma_trim_start_ws_prefix(w.drop_first(), s);
    }
}

proof fn lemma_trim_end_ws_suffix(s: Seq<char>, w: Seq<char>)
    requires
        all_ws(w),
    ensures
        trim_end(s + w) == trim_end(s),
    decreases w.len(),
{
    if w.len() == 0 {
        assert(s + w =~= s);
    } else {
        assert((s + w).last() == w.last());
        assert((s + w).drop_last() =~= s + w.drop_last());
        lemma_trim_end_ws_suffix(s, w.drop_last());
    }
}

proof fn lemma_trimmed_ws_suffix(s: Seq<char>, w: Seq<char>)
    requires
        all_ws(w),
    ensures
        trimmed(s + w) == trimmed(s),
    decreases s.len(),
{
    if s.len() == 0 {
        assert(s + w =~= w);
        lemma_trim_start_ws_prefix(w, s);
        assert(w + s =~= w);
    } else if is_ws(s[0]) {
        assert((s + w)[0] == s[0]);
        assert((s + w).drop_first() =~= s.drop_first() + w);
        lemma_trimmed_ws_suffix(s.drop_first(), w);
    } else {
        assert((s + w)[0] == s[0]);
        lemma_trim_end_ws_suffix(s, w);
    }
}

proof fn lemma_trim_start_shape(s: Seq<char>)
    ensures
        trim_start(s).len() == 0 || !is_ws(trim_start(s)[0]),
    decreases s.len(),
{
    if s.len() > 0 && is_ws(s[0]) {
        lemma_trim_start_shape(s.drop_first());
    }
}

proof fn lemma_trim_end_keeps_first(s: Seq<char>)
    requires
        s.len() > 0,
        !is_ws(s[0]),
    ensures
        trim_end(s).len() > 0,
        trim_end(s)[0] == s[0],
        !is_ws(trim_end(s).last()),
    decreases s.len(),
{
    if is_ws(s.last()) {
        lemma_trim_end_keeps_first(s.drop_last());
    }
}

proof fn lemma_trimmed_shape(s: Seq<char>)
    ensures
        trimmed(s).len() == 0 || (!is_ws(trimmed(s)[0]) && !is_ws(trimmed(s).last())),
        trimmed(trimmed(s)) == trimmed(s),
{
    let t = trim_start(s);
    lemma_trim_start_shape(s);
    if t.len() > 0 {
        lemma_trim_end_keeps_first(t);
    }
}

proof fn lemma_tag_then_break(tag: Seq<char>, rest: Seq<char>)
    requires
        forall|i: int| 0 <= i < tag.len() ==> is_tag_char(#[trigger] tag[i]),
        rest.len() > 0,
        rest[0] == '\n',
    ensures
        drop_tag(tag + rest) == rest,
{
    lemma_tag_len_of(tag, rest);
    if tag.len() > 0 {
        assert((tag + rest)[tag.len() as int] == '\n');
        assert((tag + rest).subrange(tag.len() as int, (tag + rest).len() as int) =~= rest);
    } else {
        assert(tag + rest =~= rest);
    }
}

proof fn lemma_tag_len_of(tag: Seq<char>, rest: Seq<char>)
    requires
        forall|i: int| 0 <= i < tag.len() ==> is_tag_char(#[trigger] tag[i]),
        rest.len() > 0,
        rest[0] == '\n',
    ensures
        tag_len(tag + rest) == tag.len(),
    decreases tag.len(),
{
    if tag.len() == 0 {
        assert(tag + rest =~= rest);
    } else {
        assert((tag + rest)[0] == tag[0]);
        assert((tag + rest).drop_first() =~= tag.drop_first() + rest);
        assert forall|i: int| 0 <= i < tag.drop_first().len() implies is_tag_char(
            #[trigger] tag.drop_first()[i],
        ) by {
            assert(tag.drop_first()[i] == tag[i + 1]);
        }
        lemma_tag_len_of(tag.drop_first(), rest);
    }
}

/// Text that carries no fence marker of its own is left as it is, trimmed.
proof fn lemma_unfenced(q: Seq<char>)
    requires
        q == trimmed(q),
        q.len() == 0 || (q[0] != '`' && q.last() != '`'),
    ensures
        json_payload_of(q) == q,
{
    reveal_strlit("```json");
    reveal_strlit("```");
    if q.len() > 0 {
        assert(!starts_with(q, "```json"@)) by {
            if starts_with(q, "```json"@) {
                assert(q.subrange(0, 7)[0] == q[0]);
            }
        }
        assert(!starts_with(q, "```"@)) by {
            if starts_with(q, "```"@) {
                assert(q.subrange(0, 3)[0] == q[0]);
            }
        }
        assert(!ends_with(q, "```"@)) by {
            if ends_with(q, "```"@) {
                assert(q.subrange(q.len() - 3, q.len() as int)[2] == q.last());
            }
        }
    }
    lemma_trimmed_shape(q);
}

/// A reply fenced as a code block, with any language tag or none, and with
/// any whitespace around the fence, yields the same JSON text as the bare
/// payload; this holds for every payload whose trimmed text neither begins
/// nor ends with a backtick.
pub proof fn lemma_fence_is_transparent(
    payload: Seq<char>,
    tag: Seq<char>,
    before: Seq<char>,
    after: Seq<char>,
)
    requires
        trimmed(payload).len() == 0 || (trimmed(payload)[0] != '`' && trimmed(payload).last()
            != '`'),
        forall|i: int| 0 <= i < tag.len() ==> is_tag_char(#[trigger] tag[i]),
        all_ws(before),
        all_ws(after),
    ensures
        json_payload_of(before + fenced(payload, tag) + after) == json_payload_of(payload),
{
    reveal_strlit("```json");
    reveal_strlit("```");
    reveal_strlit("\n");
    let inner = "\n"@ + payload + "\n"@;
    let f = fenced(payload, tag);
    let g = inner + "```"@;
    // The fence is already trimmed.
    assert(f[0] == '`');
    assert(f.last() == '`');
    assert(trimmed(f) == f);
    // Whitespace around the fence goes with the first trim.
    lemma_trim_start_ws_prefix(before, f + after);
    assert(before + f + after =~= before + (f + after));
    lemma_trimmed_ws_suffix(f, after);
    assert(trimmed(before + f + after) == f);
    // The opening marker, with the whole tag or what follows a leading
    // `json` of it, leaves a tag and then the payload's lines.
    assert(f.subrange(0, 3) =~= "```"@);
    assert(starts_with(f, "```"@));
    let rest: Seq<char> = if starts_with(f, "```json"@) {
        tag.subrange(4, tag.len() as int)
    } else {
        tag
    };
    if starts_with(f, "```json"@) {
        if tag.len() < 4 {
            let k: int = 3 + tag.len() as int;
            assert(f[k] == '\n');
            assert(f.subrange(0, 7)[k] == "```json"@[k]);
        }
        assert(f.subrange(7, f.len() as int) =~= rest + g);
    } else {
        assert(f.subrange(3, f.len() as int) =~= rest + g);
    }
    assert forall|i: int| 0 <= i < rest.len() implies is_tag_char(#[trigger] rest[i]) by {
        if starts_with(f, "```json"@) {
            assert(rest[i] == tag[i + 4]);
        }
    }
    let h = rest + g;
    assert(h[0] != '`') by {
        if rest.len() > 0 {
            assert(h[0] == rest[0]);
        } else {
            assert(h[0] == g[0]);
        }
    }
    assert(!starts_with(h, "```json"@)) by {
        if starts_with(h, "```json"@) {
            assert(h.subrange(0, 7)[0] == h[0]);
        }
    }
    assert(!starts_with(h, "```"@)) by {
        if starts_with(h, "```"@) {
            assert(h.subrange(0, 3)[0] == h[0]);
        }
    }
    assert(strip_prefixes(h, "```json"@) == h);
    assert(strip_prefixes(h, "```"@) == h);
    if starts_with(f, "```json"@) {
        assert(strip_prefixes(f, "```json"@) == strip_prefixes(h, "```json"@));
    } else {
        assert(strip_prefixes(f, "```json"@) == f);
        assert(strip_prefixes(f, "```"@) == strip_prefixes(h, "```"@));
    }
    assert(strip_prefixes(strip_prefixes(f, "```json"@), "```"@) == h);
    assert(g[0] == '\n');
    lemma_tag_then_break(rest, g);
    assert(without_opening(f) == g);
    // The trailing marker.
    assert(g.subrange(g.len() - 3, g.len() as int) =~= "```"@);
    assert(g.subrange(0, g.len() - 3) =~= inner);
    assert(inner.last() == '\n');
    assert(!ends_with(inner, "```"@)) by {
        if ends_with(inner, "```"@) {
            assert(inner.subrange(inner.len() - 3, inner.len() as int)[2] == inner.last());
        }
    }
    assert(strip_suffixes(inner, "```"@) == inner);
    assert(ends_with(g, "```"@));
    assert(strip_suffixes(g, "```"@) == strip_suffixes(inner, "```"@));
    // What is left trims to the trimmed payload.
    assert(all_ws("\n"@));
    lemma_trim_start_ws_prefix("\n"@, payload + "\n"@);
    assert(inner =~= "\n"@ + (payload + "\n"@));
    lemma_trimmed_ws_suffix(payload, "\n"@);
    assert(trimmed(inner) == trimmed(payload));
    // The bare payload.
    lemma_trimmed_shape(payload);
    lemma_unfenced(trimmed(payload));
}

} // verus!
