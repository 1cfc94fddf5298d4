//! File names: where they end and what they say of the file.

use vstd::prelude::*;
use vstd::string::*;

use crate::text;
use crate::text::split_at_char;

verus! {

/// What follows the last dot of a file name. A dot in front alone is part of the name.
pub open spec fn extension(name: Seq<char>) -> Option<Seq<char>> {
    let parts = text::split(name, '.');
    if parts.len() == 1 || (parts.len() == 2 && parts[0].len() == 0) {
        None
    } else {
        Some(parts.last())
    }
}

/// The file name without its extension and the dot before that.
pub open spec fn stem(name: Seq<char>) -> Seq<char> {
    match extension(name) {
        Some(e) => name.take(name.len() - e.len() - 1),
        None => name,
    }
}

/// What follows the last separator ends the text, and holds no separator.
pub proof fn lemma_last_part_ends_the_text(s: Seq<char>, sep: char)
    ensures
        text::split(s, sep).len() > 0,
        text::split(s, sep).last().len() <= s.len(),
        s.skip(s.len() - text::split(s, sep).last().len()) == text::split(s, sep).last(),
        text::split(s, sep).len() > 1 ==> {
            &&& text::split(s, sep).last().len() < s.len()
            &&& s[s.len() - text::split(s, sep).last().len() - 1] == sep
        },
        text::split(s, sep).len() == 1 ==> text::split(s, sep).last() == s,
        !text::split(s, sep).last().contains(sep),
    decreases s.len(),
{
    if s.len() > 0 {
        let before = s.drop_last();
        lemma_last_part_ends_the_text(before, sep);
        let last = text::split(before, sep).last();
        let now = text::split(s, sep).last();
        if s.last() == sep {
            assert(s.skip(s.len() as int) =~= now);
        } else {
            assert(now =~= last.push(s.last()));
            assert(s.skip(s.len() - now.len()) =~= before.skip(before.len() - last.len()).push(
                s.last(),
            ));
            assert forall|i: int| 0 <= i < now.len() implies now[i] != sep by {
                if i < last.len() {
                    assert(last.contains(last[i]));
                }
            }
        }
    } else {
        assert(s.skip(0) =~= text::split(s, sep).last());
    }
}

/// What follows the last dot of a file name, if that is an extension.
pub fn file_extension(name: &str) -> (r: Option<&str>)
    ensures
        match r {
            Some(e) => extension(name@) == Some(e@),
            None => extension(name@) is None,
        },
{
    let parts = split_at_char(name, '.');
    assert(text::views(parts@).len() == parts@.len());
    assert(text::views(parts@)[0] == parts@[0]@);
    let n: usize = parts.len();
    if n == 1 || (n == 2 && parts[0].is_empty()) {
        return None;
    }
    assert(text::views(parts@).last() == parts@[n - 1]@);
    Some(parts[n - 1])
}

/// The file name without its extension.
pub fn file_stem(name: &str) -> (r: &str)
    ensures
        r@ == stem(name@),
{
    proof {
        lemma_last_part_ends_the_text(name@, '.');
    }
    match file_extension(name) {
        Some(e) => {
            let n: usize = name.unicode_len();
            let k: usize = e.unicode_len();
            assert(name@.subrange(0, n - k - 1) =~= name@.take(n - k - 1));
            name.substring_char(0, n - k - 1)
        },
        None => name,
    }
}

/// A file name with an extension is its stem, a dot, and the extension, which holds no dot.
pub proof fn lemma_stem_and_extension(name: Seq<char>)
    ensures
        match extension(name) {
            Some(e) => name == stem(name).push('.') + e && !e.contains('.'),
            None => name == stem(name),
        },
{
    lemma_last_part_ends_the_text(name, '.');
    if let Some(e) = extension(name) {
        assert(name =~= stem(name).push('.') + name.skip(name.len() - e.len()));
    }
}

proof fn lemma_split_concat(a: Seq<char>, b: Seq<char>, sep: char)
    ensures
        text::split(a, sep).len() > 0,
        text::split(b, sep).len() > 0,
        text::split(a + b, sep) == text::split(a, sep).drop_last().push(
            text::split(a, sep).last() + text::split(b, sep)[0],
        ) + text::split(b, sep).skip(1),
    decreases b.len(),
{
    lemma_last_part_ends_the_text(a, sep);
    lemma_last_part_ends_the_text(b, sep);
    let pa = text::split(a, sep);
    let pb = text::split(b, sep);
    let all = text::split(a + b, sep);
    if b.len() == 0 {
        assert(a + b =~= a);
        assert(pa.last() + pb[0] =~= pa.last());
        assert(all =~= pa.drop_last().push(pa.last() + pb[0]) + pb.skip(1));
    } else {
        let c = b.drop_last();
        let pc = text::split(c, sep);
        lemma_split_concat(a, c, sep);
        lemma_last_part_ends_the_text(c, sep);
        assert((a + b).drop_last() =~= a + c);
        let before = text::split(a + c, sep);
        assert(before == pa.drop_last().push(pa.last() + pc[0]) + pc.skip(1));
        if b.last() == sep {
            assert(pb[0] == pc[0]);
            assert(all =~= pa.drop_last().push(pa.last() + pb[0]) + pb.skip(1));
        } else if pc.len() == 1 {
            assert(pb =~= seq![pc[0].push(b.last())]);
            assert(before.last() == pa.last() + pc[0]);
            assert(before.last().push(b.last()) =~= pa.last() + pb[0]);
            assert(all =~= pa.drop_last().push(pa.last() + pb[0]) + pb.skip(1));
        } else {
            assert(pb[0] == pc[0]);
            assert(before.last() == pc.last());
            assert(all =~= pa.drop_last().push(pa.last() + pb[0]) + pb.skip(1));
        }
    }
}

/// A file name keeps its extension when something is put in front of it, and its stem then ends
/// as before.
pub proof fn lemma_extension_goes_by_the_end(front: Seq<char>, name: Seq<char>)
    requires
        extension(name) is Some,
    ensures
        extension(front + name) == extension(name),
        stem(front + name) == front + stem(name),
{
    lemma_split_concat(front, name, '.');
    lemma_last_part_ends_the_text(name, '.');
    let pf = text::split(front, '.');
    let pn = text::split(name, '.');
    let all = text::split(front + name, '.');
    assert(all.last() == pn.last());
    if all.len() == 2 && all[0].len() == 0 {
        assert(pf.len() == 1);
        assert(all[0] == pf[0] + pn[0]);
        assert(pn[0].len() == 0);
    }
    assert(stem(front + name) =~= front + stem(name));
}

/// A file name has an extension exactly if it holds a dot behind its first character. What stands
/// behind the last such dot is the extension, and what stands before it the stem.
pub proof fn lemma_when_there_is_an_extension(name: Seq<char>)
    ensures
        extension(name) is Some <==> exists|i: int| 0 < i < name.len() && #[trigger] name[i] == '.',
{
    if name.contains('.') {
        lemma_first_dot(name);
        let k = choose|k: int|
            0 <= k < name.len() && #[trigger] name[k] == '.' && !name.take(k).contains('.');
        let a = name.take(k);
        let b = name.skip(k + 1);
        assert(name =~= a + seq!['.'] + b);
        text::lemma_unsplit(a, '.');
        text::lemma_split_at_separator(a, b, '.');
        let parts = text::split(name, '.');
        assert(parts =~= seq![a] + text::split(b, '.'));
        if b.contains('.') {
            let i = choose|i: int| 0 <= i < b.len() && b[i] == '.';
            assert(name[k + 1 + i] == '.');
            lemma_more_parts(b);
        } else {
            text::lemma_unsplit(b, '.');
            if k == 0 {
                assert forall|i: int| 0 < i < name.len() implies #[trigger] name[i] != '.' by {
                    assert(b[i - 1] == name[i]);
                    assert(b.contains(b[i - 1]));
                }
            }
        }
    } else {
        text::lemma_unsplit(name, '.');
        assert forall|i: int| 0 < i < name.len() implies #[trigger] name[i] != '.' by {
            assert(name.contains(name[i]));
        }
    }
}

proof fn lemma_first_dot(name: Seq<char>)
    requires
        name.contains('.'),
    ensures
        exists|k: int|
            0 <= k < name.len() && #[trigger] name[k] == '.' && !name.take(k).contains('.'),
    decreases name.len(),
{
    let rest = name.drop_last();
    if rest.contains('.') {
        lemma_first_dot(rest);
        let k = choose|k: int|
            0 <= k < rest.len() && #[trigger] rest[k] == '.' && !rest.take(k).contains('.');
        assert(name[k] == '.');
        assert(rest.take(k) =~= name.take(k));
    } else {
        let i = choose|i: int| 0 <= i < name.len() && name[i] == '.';
        if i < name.len() - 1 {
            assert(rest[i] == '.');
        }
        assert(name.take(name.len() - 1) =~= rest);
        assert(name[name.len() - 1] == '.');
    }
}

proof fn lemma_more_parts(s: Seq<char>)
    requires
        s.contains('.'),
    ensures
        text::split(s, '.').len() > 1,
{
    lemma_first_dot(s);
    let k = choose|k: int| 0 <= k < s.len() && #[trigger] s[k] == '.' && !s.take(k).contains('.');
    assert(s =~= s.take(k) + seq!['.'] + s.skip(k + 1));
    text::lemma_unsplit(s.take(k), '.');
    text::lemma_split_at_separator(s.take(k), s.skip(k + 1), '.');
}

/// A stem with a dot and an ending behind it has that ending as its extension, where the stem is
/// not empty and the ending holds no dot.
pub proof fn lemma_ending_is_the_extension(stem_part: Seq<char>, ending: Seq<char>)
    requires
        stem_part.len() > 0,
        !ending.contains('.'),
    ensures
        extension(stem_part + seq!['.'] + ending) == Some(ending),
        stem(stem_part + seq!['.'] + ending) == stem_part,
{
    let name = stem_part + seq!['.'] + ending;
    text::lemma_unsplit(ending, '.');
    text::lemma_split_at_separator(stem_part, ending, '.');
    let parts = text::split(name, '.');
    assert(parts.last() == ending);
    assert(name[stem_part.len() as int] == '.');
    lemma_when_there_is_an_extension(name);
    assert(stem(name) =~= stem_part);
}

} // verus!
