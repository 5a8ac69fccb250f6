//! The tray menu: which command a menu item id stands for.

use vstd::prelude::*;
use crate::text::{str_equals, has_prefix_at};

verus! {

/// What a click on a tray-menu item asks for.
#[derive(Clone, Copy, Debug, PartialEq, Eq, Structural)]
pub enum MenuCommand {
    /// Show the main panel.
    Show,
    /// Hide the window to the tray.
    Hide,
    /// Ask the page to import its configuration.
    ImportData,
    /// Ask the page to export its configuration.
    ExportData,
    /// Flip whether the program starts with the system.
    Autostart,
    /// Leave the program.
    Quit,
    /// Set the widget's opacity to this many percent.
    Opacity(u8),
    /// An id that asks for nothing.
    Nothing,
}

pub open spec fn is_digit(c: char) -> bool {
    '0' <= c && c <= '9'
}

pub open spec fn all_digits(s: Seq<char>) -> bool {
    forall|i: int| 0 <= i < s.len() ==> is_digit(#[trigger] s[i])
}

/// The number a string of decimal digits stands for.
pub open spec fn digits_value(s: Seq<char>) -> int
    decreases s.len(),
{
    if s.len() == 0 {
        0
    } else {
        digits_value(s.drop_last()) * 10 + (s.last() as int - '0' as int)
    }
}

/// A byte written in decimal: an optional `+`, then one or more decimal
/// digits (leading zeros allowed) whose value is at most 255.
pub open spec fn parse_u8_spec(s: Seq<char>) -> Option<u8> {
    let d = if s.len() > 0 && s[0] == '+' { s.subrange(1, s.len() as int) } else { s };
    if d.len() > 0 && all_digits(d) && digits_value(d) <= 255 {
        Some(digits_value(d) as u8)
    } else {
        None
    }
}

/// `s` with every leading repetition of `p` removed; `s` itself when `p` is
/// empty.
pub open spec fn strip_prefixes(s: Seq<char>, p: Seq<char>) -> Seq<char>
    decreases s.len(),
{
    if p.len() > 0 && p.len() <= s.len() && s.subrange(0, p.len() as int) == p {
        strip_prefixes(s.subrange(p.len() as int, s.len() as int), p)
    } else {
        s
    }
}

/// The prefix of the ids of the opacity items.
pub open spec fn opacity_prefix() -> Seq<char> {
    "opacity:"@
}

/// The command a menu item id stands for. An id that starts with the opacity
/// prefix names an opacity by the byte that follows all leading copies of
/// the prefix; when none follows, the id asks for nothing.
pub open spec fn menu_command_spec(id: Seq<char>) -> MenuCommand {
    if id == "show"@ {
        MenuCommand::Show
    } else if id == "hide"@ {
        MenuCommand::Hide
    } else if id == "import-data"@ {
        MenuCommand::ImportData
    } else if id == "export-data"@ {
        MenuCommand::ExportData
    } else if id == "autostart"@ {
        MenuCommand::Autostart
    } else if id == "quit"@ {
        MenuCommand::Quit
    } else if opacity_prefix().len() <= id.len() && id.subrange(0, opacity_prefix().len() as int)
        == opacity_prefix() {
        match parse_u8_spec(strip_prefixes(id, opacity_prefix())) {
            Some(n) => MenuCommand::Opacity(n),
            None => MenuCommand::Nothing,
        }
    } else {
        MenuCommand::Nothing
    }
}

proof fn lemma_digits_value_nonneg(s: Seq<char>)
    requires
        all_digits(s),
    ensures
        digits_value(s) >= 0,
    decreases s.len(),
{
    if s.len() > 0 {
        assert(all_digits(s.drop_last()));
        lemma_digits_value_nonneg(s.drop_last());
        assert(is_digit(s[s.len() - 1]));
    }
}

/// The byte that `s` from index `from` on writes in decimal, as
/// `parse_u8_spec` reads it.
pub fn parse_u8_from(s: &str, from: usize) -> (r: Option<u8>)
    requires
        from <= s@.len(),
    ensures
        r == parse_u8_spec(s@.subrange(from as int, s@.len() as int)),
{
    let n: usize = s.unicode_len();
    let ghost t = s@.subrange(from as int, n as int);
    let mut start = from;
    if from < n && s.get_char(from) == '+' {
        start = from + 1;
    }
    let ghost d = s@.subrange(start as int, n as int);
    assert(d =~= (if t.len() > 0 && t[0] == '+' { t.subrange(1, t.len() as int) } else { t }));
    if start == n {
        return None;
    }
    assert(parse_u8_spec(t) == (if d.len() > 0 && all_digits(d) && digits_value(d) <= 255 {
        Some(digits_value(d) as u8)
    } else {
        None
    }));
    // acc is the value of the digits read so far, capped at 256.
    let mut acc: u32 = 0;
    let mut i: usize = start;
    while i < n
        invariant
            n == s@.len(),
            start <= i <= n,
            start < n,
            d == s@.subrange(start as int, n as int),
            parse_u8_spec(s@.subrange(from as int, n as int)) == (if all_digits(d) && digits_value(d)
                <= 255 {
                Some(digits_value(d) as u8)
            } else {
                None
            }),
            all_digits(s@.subrange(start as int, i as int)),
            acc <= 256,
            acc == (if digits_value(s@.subrange(start as int, i as int)) >= 256 { 256 } else {
                digits_value(s@.subrange(start as int, i as int))
            }),
        decreases n - i,
    {
        let c = s.get_char(i);
        let ghost pre = s@.subrange(start as int, i as int);
        let ghost post = s@.subrange(start as int, i + 1);
        assert(post.drop_last() =~= pre);
        if c < '0' || c > '9' {
            assert(d[i - start] == c);
            assert(!all_digits(d));
            return None;
        }
        proof {
            lemma_digits_value_nonneg(pre);
            assert forall|j: int| 0 <= j < post.len() implies is_digit(#[trigger] post[j]) by {
                if j < pre.len() {
                    assert(post[j] == pre[j]);
                }
            }
        }
        let digit: u32 = (c as u32) - ('0' as u32);
        let next: u32 = acc * 10 + digit;
        if next >= 256 {
            acc = 256;
        } else {
            acc = next;
        }
        i = i + 1;
    }
    assert(s@.subrange(start as int, n as int) =~= d);
    if acc <= 255 {
        Some(acc as u8)
    } else {
        None
    }
}

/// The command that the tray-menu item `id` stands for.
pub fn parse_menu_id(id: &str) -> (r: MenuCommand)
    ensures
        r == menu_command_spec(id@),
{
    if str_equals(id, "show") {
        MenuCommand::Show
    } else if str_equals(id, "hide") {
        MenuCommand::Hide
    } else if str_equals(id, "import-data") {
        MenuCommand::ImportData
    } else if str_equals(id, "export-data") {
        MenuCommand::ExportData
    } else if str_equals(id, "autostart") {
        MenuCommand::Autostart
    } else if str_equals(id, "quit") {
        MenuCommand::Quit
    } else if has_prefix_at(id, 0, "opacity:") {
        let prefix = "opacity:";
        let plen: usize = prefix.unicode_len();
        let n: usize = id.unicode_len();
        proof {
            reveal_strlit("opacity:");
        }
        let mut i: usize = 0;
        assert(id@.subrange(0, n as int) =~= id@);
        while has_prefix_at(id, i, prefix)
            invariant
                n == id@.len(),
                plen == 8,
                prefix@ == opacity_prefix(),
                opacity_prefix().len() == 8,
                i <= n,
                strip_prefixes(id@, opacity_prefix()) == strip_prefixes(
                    id@.subrange(i as int, n as int),
                    opacity_prefix(),
                ),
            decreases n - i,
        {
            let ghost rest = id@.subrange(i as int, n as int);
            assert(rest.subrange(0, 8) =~= id@.subrange(i as int, i + 8));
            assert(rest.subrange(8, rest.len() as int) =~= id@.subrange(i + 8, n as int));
            i = i + plen;
        }
        let ghost rest = id@.subrange(i as int, n as int);
        assert(!(8 <= rest.len() && rest.subrange(0, 8) == opacity_prefix())) by {
            if 8 <= rest.len() {
                assert(rest.subrange(0, 8) =~= id@.subrange(i as int, i + 8));
            }
        }
        match parse_u8_from(id, i) {
            Some(v) => MenuCommand::Opacity(v),
            None => MenuCommand::Nothing,
        }
    } else {
        MenuCommand::Nothing
    }
}

} // verus!
