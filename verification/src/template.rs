//! Inject templates: the text a profile types into the focused field, with
//! the placeholders `{text}` (the transcript) and `{filename}` (the name of
//! the saved recording).
use vstd::prelude::*;

use crate::config::{biograph_profile, default_profile, plain_profile};
use crate::text::chars_of;

verus! {

broadcast use vstd::string::group_string_axioms;

/// The transcript placeholder, `{text}`.
pub open spec fn text_tag() -> Seq<char> {
    seq!['{', 't', 'e', 'x', 't', '}']
}

/// The recording-name placeholder, `{filename}`.
pub open spec fn filename_tag() -> Seq<char> {
    seq!['{', 'f', 'i', 'l', 'e', 'n', 'a', 'm', 'e', '}']
}

/// Whether `s` begins with `prefix`.
pub open spec fn starts_with(s: Seq<char>, prefix: Seq<char>) -> bool {
    prefix.len() <= s.len() && s.subrange(0, prefix.len() as int) == prefix
}

/// The template `t` with each placeholder replaced, in one left-to-right
/// pass: `{text}` by `text` and `{filename}` by `filename`. Text that is
/// substituted in is not scanned again, and every other character of the
/// template is kept as it stands.
pub open spec fn render(t: Seq<char>, text: Seq<char>, filename: Seq<char>) -> Seq<char>
    decreases t.len(),
{
    if t.len() == 0 {
        Seq::empty()
    } else if starts_with(t, text_tag()) {
        text + render(t.skip(6), text, filename)
    } else if starts_with(t, filename_tag()) {
        filename + render(t.skip(10), text, filename)
    } else {
        seq![t[0]] + render(t.drop_first(), text, filename)
    }
}

/// Whether `tag` occurs in `v` at position `i`.
fn tag_at(v: &Vec<char>, i: usize, tag: &Vec<char>) -> (b: bool)
    requires
        i <= v@.len(),
    ensures
        b == starts_with(v@.skip(i as int), tag@),
{
    let n = v.len();
    let k = tag.len();
    if k > n - i {
        return false;
    }
    let mut j: usize = 0;
    while j < k
        invariant
            n == v@.len(),
            k == tag@.len(),
            i + k <= n,
            j <= k,
            forall|m: int| 0 <= m < j ==> v@[i + m] == tag@[m],
        decreases k - j,
    {
        if v[i + j] != tag[j] {
            assert(v@.skip(i as int).subrange(0, k as int)[j as int] != tag@[j as int]);
            return false;
        }
        j = j + 1;
    }
    assert(v@.skip(i as int).subrange(0, k as int) =~= tag@);
    true
}

/// Fills in `template`: each `{text}` becomes `text` and each `{filename}`
/// becomes `filename`, scanning the template once from left to right.
pub fn render_template(template: &str, text: &str, filename: &str) -> (out: String)
    ensures
        out@ == render(template@, text@, filename@),
{
    let v = chars_of(template);
    let n = v.len();
    let text_tag_v: Vec<char> = vec!['{', 't', 'e', 'x', 't', '}'];
    let file_tag_v: Vec<char> = vec!['{', 'f', 'i', 'l', 'e', 'n', 'a', 'm', 'e', '}'];
    assert(text_tag_v@ =~= text_tag());
    assert(file_tag_v@ =~= filename_tag());
    let ghost t = template@;
    let ghost x = text@;
    let ghost f = filename@;
    let mut out = String::new();
    let mut start: usize = 0;
    let mut i: usize = 0;
    assert(t.skip(0) =~= t);
    assert(t.subrange(0, 0) =~= Seq::<char>::empty());
    while i < n
        invariant
            v@ == t,
            t == template@,
            x == text@,
            f == filename@,
            n == t.len(),
            text_tag_v@ == text_tag(),
            file_tag_v@ == filename_tag(),
            start <= i <= n,
            render(t, x, f) == out@ + t.subrange(start as int, i as int) + render(
                t.skip(i as int),
                x,
                f,
            ),
        decreases n - i,
    {
        let ghost rest = t.skip(i as int);
        if tag_at(&v, i, &text_tag_v) {
            assert(rest.skip(6) =~= t.skip(i + 6));
            let lit = template.substring_char(start, i);
            out.append(lit);
            out.append(text);
            i = i + 6;
            start = i;
            assert(t.subrange(start as int, i as int) =~= Seq::<char>::empty());
        } else if tag_at(&v, i, &file_tag_v) {
            assert(rest.skip(10) =~= t.skip(i + 10));
            let lit = template.substring_char(start, i);
            out.append(lit);
            out.append(filename);
            i = i + 10;
            start = i;
            assert(t.subrange(start as int, i as int) =~= Seq::<char>::empty());
        } else {
            assert(rest.drop_first() =~= t.skip(i + 1));
            assert(t.subrange(start as int, i as int) + seq![t[i as int]] =~= t.subrange(
                start as int,
                i + 1,
            ));
            i = i + 1;
        }
    }
    let lit = template.substring_char(start, n);
    out.append(lit);
    assert(t.skip(n as int) =~= Seq::<char>::empty());
    assert(out@ =~= render(t, x, f));
    out
}


/// A piece of template text without `{` passes through unchanged, whatever
/// follows it.
pub proof fn lemma_render_literal(s: Seq<char>, r: Seq<char>, text: Seq<char>, filename: Seq<char>)
    requires
        forall|i: int| 0 <= i < s.len() ==> s[i] != '{',
    ensures
        render(s + r, text, filename) == s + render(r, text, filename),
    decreases s.len(),
{
    if s.len() > 0 {
        let sr = s + r;
        assert(sr[0] == s[0]);
        assert(!starts_with(sr, text_tag())) by {
            if starts_with(sr, text_tag()) {
                assert(sr.subrange(0, 6)[0] == sr[0]);
            }
        }
        assert(!starts_with(sr, filename_tag())) by {
            if starts_with(sr, filename_tag()) {
                assert(sr.subrange(0, 10)[0] == sr[0]);
            }
        }
        assert(sr.drop_first() =~= s.drop_first() + r);
        lemma_render_literal(s.drop_first(), r, text, filename);
        assert(seq![s[0]] + s.drop_first() =~= s);
        assert(seq![s[0]] + (s.drop_first() + render(r, text, filename)) =~= s + render(
            r,
            text,
            filename,
        ));
    }
}

/// A `{text}` placeholder at the front is replaced by the transcript.
pub proof fn lemma_render_text_tag(r: Seq<char>, text: Seq<char>, filename: Seq<char>)
    ensures
        render(text_tag() + r, text, filename) == text + render(r, text, filename),
{
    let t = text_tag() + r;
    assert(t.subrange(0, 6) =~= text_tag());
    assert(t.skip(6) =~= r);
}

/// A `{filename}` placeholder at the front is replaced by the file name.
pub proof fn lemma_render_filename_tag(r: Seq<char>, text: Seq<char>, filename: Seq<char>)
    ensures
        render(filename_tag() + r, text, filename) == filename + render(r, text, filename),
{
    let t = filename_tag() + r;
    assert(t.subrange(0, 6) != text_tag()) by {
        assert(t.subrange(0, 6)[1] != text_tag()[1]);
    }
    assert(t.subrange(0, 10) =~= filename_tag());
    assert(t.skip(10) =~= r);
}

/// A template without placeholders (indeed without any `{`) is typed
/// exactly as written.
pub proof fn law_template_without_placeholders(t: Seq<char>, text: Seq<char>, filename: Seq<char>)
    requires
        forall|i: int| 0 <= i < t.len() ==> t[i] != '{',
    ensures
        render(t, text, filename) == t,
{
    lemma_render_literal(t, Seq::empty(), text, filename);
    assert(t + Seq::<char>::empty() =~= t);
    assert(render(Seq::<char>::empty(), text, filename) == Seq::<char>::empty());
}

/// The plain profile (and the default profile) types exactly the
/// transcript, whatever the recording is called.
pub proof fn law_plain_profile_types_transcript(text: Seq<char>, filename: Seq<char>)
    ensures
        render(plain_profile().template, text, filename) == text,
        render(default_profile().template, text, filename) == text,
{
    reveal_strlit("{text}");
    assert("{text}"@ =~= text_tag() + Seq::<char>::empty());
    lemma_render_text_tag(Seq::empty(), text, filename);
    assert(render(Seq::<char>::empty(), text, filename) == Seq::<char>::empty());
    assert(text + Seq::<char>::empty() =~= text);
}

/// The biograph profile types the transcript, two spaces, `/bio:voice `
/// and the recording's file name: `"<text>  /bio:voice <filename>"`.
pub proof fn law_biograph_profile_line(text: Seq<char>, filename: Seq<char>)
    ensures
        render(biograph_profile().template, text, filename) == text + "  /bio:voice "@
            + filename,
{
    reveal_strlit("{text}  /bio:voice {filename}");
    reveal_strlit("  /bio:voice ");
    let mid: Seq<char> = "  /bio:voice "@;
    assert("{text}  /bio:voice {filename}"@ =~= text_tag() + (mid + (filename_tag()
        + Seq::<char>::empty())));
    lemma_render_text_tag(mid + (filename_tag() + Seq::<char>::empty()), text, filename);
    lemma_render_literal(mid, filename_tag() + Seq::<char>::empty(), text, filename);
    lemma_render_filename_tag(Seq::empty(), text, filename);
    assert(render(Seq::<char>::empty(), text, filename) == Seq::<char>::empty());
    assert(text + (mid + (filename + Seq::<char>::empty())) =~= text + mid + filename);
}

} // verus!
