//! The address bar: what the text in it means.
use vstd::prelude::*;
use vstd::utf8::{encode_utf8, is_ascii_chars, is_ascii_chars_encode_utf8};
use crate::paths::{is_parent, parent};
use crate::text::{
    ascii_lower, chars_of, eq_ignore_case, glue, is_blank, lower, opt_view, slice_text, text_at,
    trim, trimmed,
};

verus! {

/// The value of a hexadecimal digit.
pub open spec fn hex_value(b: u8) -> Option<int> {
    if 48 <= b <= 57 {
        Some(b - 48)
    } else if 97 <= b <= 102 {
        Some(b - 97 + 10)
    } else if 65 <= b <= 70 {
        Some(b - 65 + 10)
    } else {
        None
    }
}

fn hex_digit(b: u8) -> (r: Option<u8>)
    ensures
        match hex_value(b) {
            Some(v) => r == Some(v as u8) && 0 <= v < 16,
            None => r is None,
        },
{
    if 48 <= b && b <= 57 {
        Some(b - 48)
    } else if 97 <= b && b <= 102 {
        Some(b - 97 + 10)
    } else if 65 <= b && b <= 70 {
        Some(b - 65 + 10)
    } else {
        None
    }
}

/// Whether a percent sign with two digits stands at a place.
pub open spec fn escape_at(bytes: Seq<u8>, i: int) -> bool {
    &&& 0 <= i
    &&& i + 2 < bytes.len()
    &&& bytes[i] == 37
    &&& hex_value(bytes[i + 1]) is Some
    &&& hex_value(bytes[i + 2]) is Some
}

/// The character of a byte: the one with that number.
pub open spec fn byte_char(b: int) -> char {
    b as char
}

/// What the bytes from `i` on decode to: each escape is one character, and so
/// is every other byte.
pub open spec fn decoded_from(bytes: Seq<u8>, i: int) -> Seq<char>
    decreases bytes.len() - i,
{
    if i < 0 || i >= bytes.len() {
        Seq::empty()
    } else if escape_at(bytes, i) {
        seq![
            byte_char(
                hex_value(bytes[i + 1])->Some_0 * 16 + hex_value(bytes[i + 2])->Some_0,
            ),
        ] + decoded_from(bytes, i + 3)
    } else {
        seq![byte_char(bytes[i] as int)] + decoded_from(bytes, i + 1)
    }
}

/// A text with its percent escapes decoded, byte by byte.
pub open spec fn percent_decoded(s: Seq<char>) -> Seq<char> {
    decoded_from(encode_utf8(s), 0)
}

/// The text with its percent escapes decoded, byte by byte.
pub fn percent_decode_path(s: &str) -> (r: String)
    ensures
        r@ == percent_decoded(s@),
{
    let b = s.as_bytes();
    let n: usize = b.len();
    let mut out = String::new();
    let mut i: usize = 0;
    while i < n
        invariant
            i <= n,
            n == b.len(),
            b@ == encode_utf8(s@),
            out@ + decoded_from(b@, i as int) == percent_decoded(s@),
        decreases n - i,
    {
        let ghost before = out@;
        if b[i] == 37 && n - i > 2 {
            if let (Some(hi), Some(lo)) = (hex_digit(b[i + 1]), hex_digit(b[i + 2])) {
                let v: u8 = hi * 16 + lo;
                out.push(v as char);
                assert(out@ + decoded_from(b@, i + 3) =~= before + decoded_from(b@, i as int));
                i += 3;
                continue ;
            }
        }
        out.push(b[i] as char);
        assert(out@ + decoded_from(b@, i + 1) =~= before + decoded_from(b@, i as int));
        i += 1;
    }
    assert(out@ =~= percent_decoded(s@));
    out
}

/// A text between two quotes of one kind is what is between them, without
/// spaces.
pub open spec fn unquoted(s: Seq<char>) -> Seq<char> {
    if s.len() >= 2 && s[0] == s.last() && (s[0] == '"' || s[0] == '\'') {
        trimmed(s.subrange(1, s.len() - 1))
    } else {
        s
    }
}

fn unquote(s: String) -> (r: String)
    ensures
        r@ == unquoted(s@),
{
    let c = chars_of(s.as_str());
    let n: usize = c.len();
    if n >= 2 && c[0] == c[n - 1] && (c[0] == '"' || c[0] == '\'') {
        let inner = slice_text(&c, 1, n - 1);
        trim(inner.as_str())
    } else {
        s
    }
}

pub open spec fn begins_with(s: Seq<char>, prefix: Seq<char>) -> bool {
    s.len() >= prefix.len() && s.subrange(0, prefix.len() as int) == prefix
}

fn starts(s: &Vec<char>, prefix: &str) -> (r: bool)
    ensures
        r == begins_with(s@, prefix@),
{
    let p = chars_of(prefix);
    text_at(s, 0, &p)
}

/// The text with `\` for every `/`, where the system writes paths so.
pub open spec fn native_separators(s: Seq<char>, windows: bool) -> Seq<char> {
    if windows {
        s.map_values(
            |c: char|
                if c == '/' {
                    '\\'
                } else {
                    c
                },
        )
    } else {
        s
    }
}

fn to_native(s: String, windows: bool) -> (r: String)
    ensures
        r@ == native_separators(s@, windows),
{
    if !windows {
        return s;
    }
    let c = chars_of(s.as_str());
    let n: usize = c.len();
    let mut out = String::new();
    let mut i: usize = 0;
    while i < n
        invariant
            i <= n,
            n == c.len(),
            c@ == s@,
            windows,
            out@ == native_separators(s@, windows).take(i as int),
        decreases n - i,
    {
        out.push(
            if c[i] == '/' {
                '\\'
            } else {
                c[i]
            },
        );
        i += 1;
        assert(out@ =~= native_separators(s@, windows).take(i as int));
    }
    assert(native_separators(s@, windows).take(n as int) =~= native_separators(s@, windows));
    out
}

/// A text that is the address of a local file, as a path.
pub open spec fn unaddressed(s: Seq<char>, windows: bool) -> Seq<char> {
    if begins_with(lower(s), "file:///"@) {
        native_separators(percent_decoded(s.skip(8)), windows)
    } else if begins_with(lower(s), "file://"@) {
        let d = percent_decoded(s.skip(7));
        native_separators(
            if begins_with(d, "localhost/"@) {
                d.skip(10)
            } else {
                d
            },
            windows,
        )
    } else {
        s
    }
}

fn unaddress(s: String, windows: bool) -> (r: String)
    ensures
        r@ == unaddressed(s@, windows),
{
    proof {
        reveal_strlit("file:///");
        reveal_strlit("file://");
        reveal_strlit("localhost/");
    }
    let low_text = ascii_lower(s.as_str());
    let low = chars_of(low_text.as_str());
    let c = chars_of(s.as_str());
    let n: usize = c.len();
    assert(low.len() == n);
    if starts(&low, "file:///") {
        let rest = slice_text(&c, 8, n);
        assert(rest@ =~= s@.skip(8));
        let d = percent_decode_path(rest.as_str());
        to_native(d, windows)
    } else if starts(&low, "file://") {
        let rest = slice_text(&c, 7, n);
        assert(rest@ =~= s@.skip(7));
        let d = percent_decode_path(rest.as_str());
        let dc = chars_of(d.as_str());
        if starts(&dc, "localhost/") {
            let tail = slice_text(&dc, 10, dc.len());
            assert(tail@ =~= d@.skip(10));
            to_native(tail, windows)
        } else {
            to_native(d, windows)
        }
    } else {
        s
    }
}

pub open spec fn is_slash(c: char) -> bool {
    c == '/' || c == '\\'
}

/// A text without the slashes it ends with.
pub open spec fn without_slashes(s: Seq<char>) -> Seq<char>
    decreases s.len(),
{
    if s.len() > 0 && is_slash(s.last()) {
        without_slashes(s.drop_last())
    } else {
        s
    }
}

fn drop_slashes(s: &str) -> (r: String)
    ensures
        r@ == without_slashes(s@),
{
    let c = chars_of(s);
    let mut n: usize = c.len();
    assert(c@.subrange(0, n as int) =~= c@);
    while n > 0 && (c[n - 1] == '/' || c[n - 1] == '\\')
        invariant
            n <= c.len(),
            without_slashes(c@) == without_slashes(c@.subrange(0, n as int)),
        decreases n,
    {
        assert(c@.subrange(0, n as int).drop_last() =~= c@.subrange(0, n - 1));
        n -= 1;
    }
    assert(n > 0 ==> c@.subrange(0, n as int).last() == c@[n - 1]);
    slice_text(&c, 0, n)
}

/// Whether a text is a drive letter with its colon.
pub open spec fn is_drive(s: Seq<char>) -> bool {
    s.len() == 2 && s[0] < '\u{80}' && s[1] == ':'
}

/// Whether a text is a drive, or the top folder of one.
pub open spec fn is_drive_root(s: Seq<char>) -> bool {
    is_drive(s) || s.len() == 3 && is_drive(s.take(2)) && is_slash(s[2])
}

/// A path as it is used: without slashes at its end, but for the top folder of
/// a drive, which has one.
pub open spec fn settled(s: Seq<char>, windows: bool) -> Seq<char> {
    let t = if windows && is_drive_root(s) {
        s
    } else {
        without_slashes(s)
    };
    if windows && is_drive(t) {
        t.push('\\')
    } else {
        t
    }
}

fn settle(s: String, windows: bool) -> (r: String)
    ensures
        r@ == settled(s@, windows),
{
    let c = chars_of(s.as_str());
    let n: usize = c.len();
    let root: bool = windows && (n == 2 || n == 3) && c[0] < '\u{80}' && c[1] == ':' && (n == 2
        || c[2] == '/' || c[2] == '\\');
    assert(root == (windows && is_drive_root(s@))) by {
        if n == 3 {
            assert(s@.take(2)[0] == s@[0] && s@.take(2)[1] == s@[1]);
        }
    }
    let mut t = if root {
        s
    } else {
        drop_slashes(s.as_str())
    };
    let d = chars_of(t.as_str());
    if windows && d.len() == 2 && d[0] < '\u{80}' && d[1] == ':' {
        t.push('\\');
    }
    t
}

/// The path that a text in the address bar means.
pub open spec fn normalized(raw: Seq<char>, windows: bool) -> Seq<char> {
    settled(unaddressed(unquoted(trimmed(raw)), windows), windows)
}

/// The path that a text in the address bar means.
pub fn normalize_address_bar(raw: &str, windows: bool) -> (r: String)
    ensures
        r@ == normalized(raw@, windows),
{
    let t = trim(raw);
    let u = unquote(t);
    let p = unaddress(u, windows);
    settle(p, windows)
}

/// What is at a path.
#[derive(Clone, Copy, Debug, PartialEq, Eq, Structural)]
pub enum PathKind {
    Nothing,
    File,
    Folder,
}

/// What a text in the address bar points to.
pub enum AddressTarget {
    Gallery,
    /// A path; what is there is to be found out.
    Place(String),
}

/// What the address bar asks for.
pub enum AddressBarAction {
    Gallery,
    Dir(String),
    /// A file: its folder is shown and the file is opened or selected.
    File(String),
}

/// Takes the text of the address bar for the gallery or for a path.
pub fn address_target(raw: &str, windows: bool) -> (r: Result<AddressTarget, String>)
    ensures
        ({
            let t = normalized(raw@, windows);
            if t.len() == 0 {
                r matches Result::Err(e) && e@ == "Пустой путь"@
            } else if lower(t) == lower("gallery"@) {
                r matches Result::Ok(AddressTarget::Gallery)
            } else {
                r matches Result::Ok(AddressTarget::Place(p)) && p@ == t
            }
        }),
{
    let t = normalize_address_bar(raw, windows);
    if is_blank(t.as_str()) {
        return Result::Err("Пустой путь".to_owned());
    }
    if eq_ignore_case(t.as_str(), "gallery") {
        return Result::Ok(AddressTarget::Gallery);
    }
    Result::Ok(AddressTarget::Place(t))
}

/// Whether that is what a path asks for, by what is there: a folder or a file
/// itself, else the folder that the path would be in.
pub open spec fn asks_for(
    path: Seq<char>,
    kind: PathKind,
    parent: Option<Seq<char>>,
    parent_is_dir: bool,
    r: Result<AddressBarAction, String>,
) -> bool {
    match kind {
        PathKind::Folder => r matches Result::Ok(AddressBarAction::Dir(p)) && p@ == path,
        PathKind::File => r matches Result::Ok(AddressBarAction::File(p)) && p@ == path,
        PathKind::Nothing => match parent {
            Some(d) if parent_is_dir && d.len() > 0 => r matches Result::Ok(
                AddressBarAction::Dir(p),
            ) && p@ == d,
            _ => r matches Result::Err(e) && e@ == "Папка не найдена: "@ + path,
        },
    }
}

/// What a path asks for. `parent_is_dir` tells whether the folder that it would
/// be in is there.
pub fn place_action(path: String, kind: PathKind, parent_is_dir: bool) -> (r: Result<
    AddressBarAction,
    String,
>)
    ensures
        exists|d: Option<Seq<char>>| #[trigger]
            is_parent(path@, d) && asks_for(path@, kind, d, parent_is_dir, r),
{
    let above = parent(path.as_str());
    let ghost known = is_parent(path@, opt_view(above));
    action_under(path, kind, above, parent_is_dir)
}

/// What a path asks for, where the folder that it would be in is given.
pub fn action_under(path: String, kind: PathKind, parent: Option<String>, parent_is_dir: bool) -> (r:
    Result<AddressBarAction, String>)
    ensures
        asks_for(path@, kind, opt_view(parent), parent_is_dir, r),
{
    match kind {
        PathKind::Folder => Result::Ok(AddressBarAction::Dir(path)),
        PathKind::File => Result::Ok(AddressBarAction::File(path)),
        PathKind::Nothing => {
            match parent {
                Some(d) => {
                    if parent_is_dir && !is_blank(d.as_str()) {
                        return Result::Ok(AddressBarAction::Dir(d));
                    }
                },
                None => {},
            }
            Result::Err(glue("Папка не найдена: ", path.as_str()))
        },
    }
}

proof fn lemma_plain_decoded(bytes: Seq<u8>, i: int)
    requires
        0 <= i <= bytes.len(),
        forall|j: int| 0 <= j < bytes.len() ==> bytes[j] != 37,
    ensures
        decoded_from(bytes, i).len() == bytes.len() - i,
        forall|k: int|
            0 <= k < bytes.len() - i ==> #[trigger] decoded_from(bytes, i)[k] == byte_char(
                bytes[i + k] as int,
            ),
    decreases bytes.len() - i,
{
    if i < bytes.len() {
        lemma_plain_decoded(bytes, i + 1);
        let rest = decoded_from(bytes, i + 1);
        assert forall|k: int| 0 <= k < bytes.len() - i implies #[trigger] decoded_from(bytes, i)[k]
            == byte_char(bytes[i + k] as int) by {
            if k > 0 {
                assert(decoded_from(bytes, i)[k] == rest[k - 1]);
            }
        }
    }
}

/// A text of ASCII characters without a percent sign decodes to itself.
pub proof fn law_plain_text_decodes_to_itself(s: Seq<char>)
    requires
        is_ascii_chars(s),
        !s.contains('%'),
    ensures
        percent_decoded(s) == s,
{
    is_ascii_chars_encode_utf8(s);
    let b = encode_utf8(s);
    assert forall|j: int| 0 <= j < b.len() implies b[j] != 37 by {
        assert(s[j] != '%') by {
            assert(s.contains(s[j]));
        }
        assert(b[j] == s[j] as u8);
    }
    lemma_plain_decoded(b, 0);
    assert(percent_decoded(s) =~= s);
}

/// A path that is settled stays as it is.
pub proof fn law_settled_twice(s: Seq<char>, windows: bool)
    ensures
        settled(settled(s, windows), windows) == settled(s, windows),
{
    lemma_no_slash_left(s);
    let t = if windows && is_drive_root(s) {
        s
    } else {
        without_slashes(s)
    };
    if windows && is_drive(t) {
        let r = t.push('\\');
        assert(r.take(2) =~= t);
        assert(is_drive_root(r));
        assert(!is_drive(r));
    }
}

proof fn lemma_no_slash_left(s: Seq<char>)
    ensures
        without_slashes(s).len() > 0 ==> !is_slash(without_slashes(s).last()),
        without_slashes(without_slashes(s)) == without_slashes(s),
    decreases s.len(),
{
    if s.len() > 0 && is_slash(s.last()) {
        lemma_no_slash_left(s.drop_last());
    }
}

} // verus!
