//! Window class names, compared without turning them into strings.

use vstd::prelude::*;

use crate::window_layer::probe::WindowClass;

verus! {

/// The UTF-16 code units of one character.
pub open spec fn utf16_units(c: char) -> Seq<u16> {
    let v = c as u32;
    if v < 0x1_0000 {
        seq![v as u16]
    } else {
        seq![(0xD800 + (v - 0x1_0000) / 0x400) as u16, (0xDC00 + (v - 0x1_0000) % 0x400) as u16]
    }
}

/// The UTF-16 code units of a text.
pub open spec fn utf16(s: Seq<char>) -> Seq<u16>
    decreases s.len(),
{
    if s.len() == 0 {
        Seq::empty()
    } else {
        utf16(s.drop_last()) + utf16_units(s.last())
    }
}

/// Compares the UTF-16 name of a window's class with an expected name.
///
/// This runs for every mouse event, on the thread that all input of the system goes through, so
/// it allocates nothing.
pub fn is_class_name(class: &[u16], expected: &str) -> (r: bool)
    ensures
        r == (class@ == utf16(expected@)),
{
    let ghost all = expected@;
    let mut k: usize = 0;
    for c in it: expected.chars()
        invariant
            it.seq() == all,
            all == expected@,
            k <= class@.len(),
            k == utf16(all.take(it.index() as int)).len(),
            utf16(all.take(it.index() as int)) =~= class@.take(k as int),
    {
        let ghost i = it.index() as int;
        let ghost done = all.take(i);
        let ghost next = all.take(i + 1);
        proof {
            assert(next.drop_last() =~= done);
            assert(next.last() == c);
            lemma_utf16_prefix(all, i + 1);
        }
        let v: u32 = c as u32;
        if v < 0x1_0000 {
            if k >= class.len() || class[k] != v as u16 {
                proof {
                    assert(utf16(next)[k as int] == v as u16);
                    assert(utf16(all)[k as int] == utf16(next)[k as int]);
                }
                return false;
            }
            k += 1;
        } else {
            let high: u16 = (0xD800 + (v - 0x1_0000) / 0x400) as u16;
            let low: u16 = (0xDC00 + (v - 0x1_0000) % 0x400) as u16;
            if k >= class.len() || class.len() - k < 2 || class[k] != high || class[k + 1] != low {
                proof {
                    assert(utf16(next)[k as int] == high && utf16(next)[k + 1] == low);
                    assert(utf16(all)[k as int] == utf16(next)[k as int]);
                    assert(utf16(all)[k + 1] == utf16(next)[k + 1]);
                }
                return false;
            }
            k += 2;
        }
    }
    assert(all.take(all.len() as int) =~= all);
    assert(class@.take(class@.len() as int) =~= class@);
    k == class.len()
}

proof fn lemma_utf16_prefix(s: Seq<char>, n: int)
    requires
        0 <= n <= s.len(),
    ensures
        utf16(s.take(n)).len() <= utf16(s).len(),
        utf16(s.take(n)) =~= utf16(s).take(utf16(s.take(n)).len() as int),
    decreases s.len(),
{
    if n == s.len() {
        assert(s.take(n) =~= s);
    } else {
        lemma_utf16_prefix(s.drop_last(), n);
        assert(s.drop_last().take(n) =~= s.take(n));
    }
}

/// Against an ASCII name the comparison is equality, code unit by character.
pub proof fn lemma_ascii_class_name_is_compared_exactly(class: Seq<u16>, expected: Seq<char>)
    requires
        vstd::utf8::is_ascii_chars(expected),
    ensures
        class == utf16(expected) <==> {
            &&& class.len() == expected.len()
            &&& forall|i: int| 0 <= i < class.len() ==> class[i] == #[trigger] expected[i] as u16
        },
{
    lemma_ascii_utf16(expected);
    if class.len() == expected.len() && forall|i: int|
        0 <= i < class.len() ==> class[i] == #[trigger] expected[i] as u16 {
        assert forall|i: int| 0 <= i < class.len() implies class[i] == utf16(expected)[i] by {
            assert(utf16(expected)[i] == expected[i] as u16);
        }
        assert(class =~= utf16(expected));
    }
}

proof fn lemma_ascii_utf16(s: Seq<char>)
    requires
        vstd::utf8::is_ascii_chars(s),
    ensures
        utf16(s).len() == s.len(),
        forall|i: int| 0 <= i < s.len() ==> utf16(s)[i] == #[trigger] s[i] as u16,
    decreases s.len(),
{
    if s.len() > 0 {
        assert forall|i: int| 0 <= i < s.drop_last().len() implies 0
            <= #[trigger] s.drop_last()[i] as nat <= 127 by {
            assert(s.drop_last()[i] == s[i]);
        }
        lemma_ascii_utf16(s.drop_last());
        assert forall|i: int| 0 <= i < s.len() implies utf16(s)[i] == #[trigger] s[i] as u16 by {
            if i < s.len() - 1 {
                assert(s.drop_last()[i] == s[i]);
            }
        }
    }
}

/// Tells apart the classes that the desktop is recognised by.
pub fn classify(class: &[u16]) -> (r: WindowClass)
    ensures
        r == if class@ == utf16("XamlExplorerHostIslandWindow"@) {
            WindowClass::XamlIsland
        } else if class@ == utf16("Windows.UI.Core.CoreWindow"@) {
            WindowClass::CoreWindow
        } else if class@ == utf16("Chrome_RenderWidgetHostHWND"@) {
            WindowClass::RenderWidget
        } else {
            WindowClass::Other
        },
{
    if is_class_name(class, "XamlExplorerHostIslandWindow") {
        WindowClass::XamlIsland
    } else if is_class_name(class, "Windows.UI.Core.CoreWindow") {
        WindowClass::CoreWindow
    } else if is_class_name(class, "Chrome_RenderWidgetHostHWND") {
        WindowClass::RenderWidget
    } else {
        WindowClass::Other
    }
}

} // verus!
