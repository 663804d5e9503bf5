//! Short texts about files.
use vstd::prelude::*;
use crate::numbers::{fixed, fixed_text, law_fixed};
use crate::text::{chars_of, decimal, decimal_text, glue, glue3, slice_text};

verus! {

/// A name of at most `max` characters: a longer one ends in an ellipsis, which
/// takes the place of a character.
pub open spec fn truncated(name: Seq<char>, max: int) -> Seq<char> {
    if name.len() <= max {
        name
    } else if max <= 0 {
        "…"@
    } else {
        name.take(max - 1) + "…"@
    }
}

/// The name, shortened to that many characters.
pub fn truncate_name(name: &str, max: usize) -> (r: String)
    ensures
        r@ == truncated(name@, max as int),
{
    let c = chars_of(name);
    if c.len() <= max {
        return name.to_owned();
    }
    let keep: usize = if max > 0 {
        max - 1
    } else {
        0
    };
    let t = slice_text(&c, 0, keep);
    assert(t@ =~= name@.take(keep as int));
    let r = glue(t.as_str(), "…");
    assert(max == 0 ==> r@ =~= "…"@);
    r
}

/// A shortened name is no longer than it may be, unless it may not be even one
/// character long, and begins as the name does.
pub proof fn law_truncated(name: Seq<char>, max: int)
    requires
        max >= 1,
    ensures
        truncated(name, max).len() <= max,
        name.len() <= max ==> truncated(name, max) == name,
        name.len() > max ==> truncated(name, max).len() == max && truncated(name, max).take(
            max - 1,
        ) == name.take(max - 1),
{
    reveal_strlit("…");
    if name.len() > max {
        assert(truncated(name, max).take(max - 1) =~= name.take(max - 1));
    }
}

/// A size in the largest unit that it reaches.
pub open spec fn size_words(bytes: u64) -> Seq<char> {
    "Размер: "@ + if bytes >= 0x4000_0000 {
        fixed(bytes, 0x4000_0000, 1) + " ГБ"@
    } else if bytes >= 0x10_0000 {
        fixed(bytes, 0x10_0000, 1) + " МБ"@
    } else if bytes >= 0x400 {
        fixed(bytes, 0x400, 0) + " КБ"@
    } else {
        decimal(bytes as nat) + " Б"@
    }
}

/// A file's size in words.
pub fn format_file_size(bytes: u64) -> (r: String)
    ensures
        r@ == size_words(bytes),
{
    let (number, unit) = if bytes >= 0x4000_0000 {
        (fixed_text(bytes, 0x4000_0000, 1), " ГБ")
    } else if bytes >= 0x10_0000 {
        (fixed_text(bytes, 0x10_0000, 1), " МБ")
    } else if bytes >= 0x400 {
        (fixed_text(bytes, 0x400, 0), " КБ")
    } else {
        (decimal_text(bytes), " Б")
    };
    let r = glue3("Размер: ", number.as_str(), unit);
    assert(r@ =~= size_words(bytes));
    r
}

/// Whole days from one time to another, none where the first is later.
pub open spec fn days_between(secs: u64, now: u64) -> nat {
    if secs >= now {
        0
    } else {
        (now - secs) as nat / 86_400
    }
}

/// How long ago, in words.
pub open spec fn ago(days: nat) -> Seq<char> {
    if days == 0 {
        "сегодня"@
    } else if days == 1 {
        "вчера"@
    } else {
        decimal(days) + " дн. назад"@
    }
}

/// When a file was changed, in words.
pub fn format_file_mtime(secs: u64, now: u64) -> (r: String)
    ensures
        r@ == "Изменён: "@ + ago(days_between(secs, now)),
{
    let days: u64 = now.saturating_sub(secs) / 86_400;
    assert(days == days_between(secs, now));
    let rel = if days == 0 {
        "сегодня".to_owned()
    } else if days == 1 {
        "вчера".to_owned()
    } else {
        let n = decimal_text(days);
        glue(n.as_str(), " дн. назад")
    };
    glue("Изменён: ", rel.as_str())
}

/// A size is told in bytes, whole kilobytes, or tenths of mega- and gigabytes.
pub proof fn law_size_words(n: u64, k: nat)
    ensures
        n < 1024 ==> size_words(n) == "Размер: "@ + (decimal(n as nat) + " Б"@),
        1 <= k < 1024 ==> size_words((k * 0x400) as u64) == "Размер: "@ + (decimal(k) + " КБ"@),
        1 <= k < 1024 ==> size_words((k * 0x10_0000) as u64) == "Размер: "@ + (decimal(k) + "."@
            + "0"@ + " МБ"@),
        1 <= k < 1024 ==> size_words((k * 0x4000_0000) as u64) == "Размер: "@ + (decimal(k) + "."@
            + "0"@ + " ГБ"@),
{
    if 1 <= k < 1024 {
        law_fixed(k, 0x400);
        law_fixed(k, 0x10_0000);
        law_fixed(k, 0x4000_0000);
    }
}

} // verus!
