//! The fixed texts of the bot and the labels of the ten offered values.
//!
//! Every user-visible string is produced here, with a specification-level
//! twin, so that the flow logic can state exactly which text goes out on
//! which branch.

use vstd::prelude::*;
use vstd::string::StringExecFns;

verus! {

/// The label offered for value `n`: its decimal spelling, `"1"` .. `"10"`.
pub open spec fn spec_label(n: int) -> Seq<char> {
    if n == 1 {
        "1"@
    } else if n == 2 {
        "2"@
    } else if n == 3 {
        "3"@
    } else if n == 4 {
        "4"@
    } else if n == 5 {
        "5"@
    } else if n == 6 {
        "6"@
    } else if n == 7 {
        "7"@
    } else if n == 8 {
        "8"@
    } else if n == 9 {
        "9"@
    } else {
        "10"@
    }
}

/// The decimal label of `n`, as an owned string.
pub fn label(n: u8) -> (r: String)
    requires
        1 <= n <= 10,
    ensures
        r@ == spec_label(n as int),
{
    if n == 1 {
        String::from_str("1")
    } else if n == 2 {
        String::from_str("2")
    } else if n == 3 {
        String::from_str("3")
    } else if n == 4 {
        String::from_str("4")
    } else if n == 5 {
        String::from_str("5")
    } else if n == 6 {
        String::from_str("6")
    } else if n == 7 {
        String::from_str("7")
    } else if n == 8 {
        String::from_str("8")
    } else if n == 9 {
        String::from_str("9")
    } else {
        String::from_str("10")
    }
}

/// Text standing before the chosen value in the confirmation message
/// (Japanese for "You chose **").
pub open spec fn confirm_prefix() -> Seq<char> {
    "\u{3042}\u{306A}\u{305F}\u{306F} **"@
}

/// Text standing after the chosen value in the confirmation message
/// (Japanese for "**!", closing the bold marks around the value).
pub open spec fn confirm_suffix() -> Seq<char> {
    "** \u{3092}\u{9078}\u{3073}\u{307E}\u{3057}\u{305F}\u{FF01}"@
}

/// The confirmation message sent for a chosen value `v`.
pub open spec fn confirm_spec(v: Seq<char>) -> Seq<char> {
    confirm_prefix() + v + confirm_suffix()
}

/// Builds the direct-message confirmation for the chosen value.
pub fn confirmation_text(v: &String) -> (r: String)
    ensures
        r@ == confirm_spec(v@),
{
    let mut s = String::from_str("\u{3042}\u{306A}\u{305F}\u{306F} **");
    s.append(v.as_str());
    s.append("** \u{3092}\u{9078}\u{3073}\u{307E}\u{3057}\u{305F}\u{FF01}");
    s
}

/// Whether `c` is a decimal digit.
pub open spec fn is_digit_char(c: char) -> bool {
    '0' <= c && c <= '9'
}

/// The digit characters of `s`, in order: what a reader takes as the
/// numeric content of a message.
pub open spec fn digit_content(s: Seq<char>) -> Seq<char>
    decreases s.len(),
{
    if s.len() == 0 {
        Seq::empty()
    } else if is_digit_char(s[0]) {
        seq![s[0]] + digit_content(s.drop_first())
    } else {
        digit_content(s.drop_first())
    }
}

/// The digit content of a concatenation is the concatenation of the
/// digit contents.
pub proof fn lemma_digit_content_add(a: Seq<char>, b: Seq<char>)
    ensures
        digit_content(a + b) == digit_content(a) + digit_content(b),
    decreases a.len(),
{
    if a.len() == 0 {
        assert(a + b =~= b);
        assert(digit_content(a) + digit_content(b) =~= digit_content(b));
    } else {
        assert((a + b).drop_first() =~= a.drop_first() + b);
        assert((a + b)[0] == a[0]);
        lemma_digit_content_add(a.drop_first(), b);
        if is_digit_char(a[0]) {
            assert(seq![a[0]] + (digit_content(a.drop_first()) + digit_content(b)) =~= (
            seq![a[0]] + digit_content(a.drop_first())) + digit_content(b));
        }
    }
}

/// A sequence without digit characters has empty digit content.
pub proof fn lemma_digit_content_none(s: Seq<char>)
    requires
        forall|i: int| 0 <= i < s.len() ==> !is_digit_char(s[i]),
    ensures
        digit_content(s) == Seq::<char>::empty(),
    decreases s.len(),
{
    if s.len() > 0 {
        lemma_digit_content_none(s.drop_first());
    }
}

/// A sequence of digit characters is its own digit content.
pub proof fn lemma_digit_content_all(s: Seq<char>)
    requires
        forall|i: int| 0 <= i < s.len() ==> is_digit_char(s[i]),
    ensures
        digit_content(s) == s,
    decreases s.len(),
{
    if s.len() > 0 {
        lemma_digit_content_all(s.drop_first());
        assert(seq![s[0]] + s.drop_first() =~= s);
    }
}

/// Law: distinct offered values have distinct labels, so a message that
/// carries one label cannot be read as carrying another.
pub proof fn lemma_labels_injective(n: int, m: int)
    requires
        1 <= n <= 10,
        1 <= m <= 10,
        n != m,
    ensures
        spec_label(n) != spec_label(m),
{
    reveal_strlit("1");
    reveal_strlit("2");
    reveal_strlit("3");
    reveal_strlit("4");
    reveal_strlit("5");
    reveal_strlit("6");
    reveal_strlit("7");
    reveal_strlit("8");
    reveal_strlit("9");
    reveal_strlit("10");
    if spec_label(n) == spec_label(m) {
        assert(spec_label(n).len() == spec_label(m).len());
        assert(spec_label(n)[0] == spec_label(m)[0]);
        assert(false);
    }
}

/// Law: the confirmation for an offered value contains exactly that
/// value and no other offered value: its digit characters, read in
/// order, are exactly the value's label.
pub proof fn lemma_confirmation_digits(n: int)
    requires
        1 <= n <= 10,
    ensures
        digit_content(confirm_spec(spec_label(n))) == spec_label(n),
{
    reveal_strlit("\u{3042}\u{306A}\u{305F}\u{306F} **");
    reveal_strlit("** \u{3092}\u{9078}\u{3073}\u{307E}\u{3057}\u{305F}\u{FF01}");
    reveal_strlit("1");
    reveal_strlit("2");
    reveal_strlit("3");
    reveal_strlit("4");
    reveal_strlit("5");
    reveal_strlit("6");
    reveal_strlit("7");
    reveal_strlit("8");
    reveal_strlit("9");
    reveal_strlit("10");
    lemma_digit_content_add(confirm_prefix(), spec_label(n) + confirm_suffix());
    lemma_digit_content_add(spec_label(n), confirm_suffix());
    assert(confirm_spec(spec_label(n)) =~= confirm_prefix() + (spec_label(n)
        + confirm_suffix()));
    assert(forall|i: int|
        0 <= i < confirm_prefix().len() ==> !is_digit_char(confirm_prefix()[i]));
    assert(forall|i: int|
        0 <= i < confirm_suffix().len() ==> !is_digit_char(confirm_suffix()[i]));
    assert(forall|i: int|
        0 <= i < spec_label(n).len() ==> is_digit_char(spec_label(n)[i]));
    lemma_digit_content_none(confirm_prefix());
    lemma_digit_content_none(confirm_suffix());
    lemma_digit_content_all(spec_label(n));
}

} // verus!
