use vstd::prelude::*;

verus! {

/// Bytes that URL encoding keeps as they are: ASCII letters, digits and `-`, `.`, `_`, `~`.
pub open spec fn url_safe_byte(b: u8) -> bool {
    ||| (48 <= b <= 57)
    ||| (65 <= b <= 90)
    ||| (97 <= b <= 122)
    ||| b == 45
    ||| b == 46
    ||| b == 95
    ||| b == 126
}

/// The upper-case hexadecimal digit for a value below sixteen.
pub open spec fn upper_hex_digit(d: u8) -> char {
    if d < 10 {
        ((48 + d) as u32) as char
    } else {
        ((55 + d) as u32) as char
    }
}

/// Percent-encoding of bytes: safe bytes stay, every other byte becomes `%` and two
/// upper-case hexadecimal digits.
pub open spec fn percent_encode(bytes: Seq<u8>) -> Seq<char>
    decreases bytes.len(),
{
    if bytes.len() == 0 {
        Seq::empty()
    } else {
        let b = bytes[0];
        let head: Seq<char> = if url_safe_byte(b) {
            seq![(b as u32) as char]
        } else {
            seq!['%', upper_hex_digit(b / 16), upper_hex_digit(b % 16)]
        };
        head + percent_encode(bytes.drop_first())
    }
}

/// `urlencoding::encode`: percent-encodes every byte of the UTF-8 text except ASCII letters,
/// digits and `-`, `.`, `_`, `~`. The contract states that, as the crate's documentation and
/// source give it.
#[verifier::external_body]
pub fn url_encode(s: &str) -> (r: String)
    ensures
        r@ == percent_encode(vstd::utf8::encode_utf8(s@)),
{
    urlencoding::encode(s).into_owned()
}

/// `String`'s `FromIterator<char>`: the string that the characters spell, in their order.
#[verifier::external_body]
pub fn chars_to_string(v: &Vec<char>) -> (s: String)
    ensures
        s@ == v@,
{
    v.iter().collect()
}

/// The extension of a file name, as the documentation of `Path::extension` gives it:
/// none for `.` and `..`, none without an embedded `.`, none when the only `.` starts the name;
/// otherwise what follows the last `.`.
pub open spec fn plain_name_extension(name: Seq<char>) -> Option<Seq<char>> {
    if name == seq!['.', '.'] {
        None
    } else if exists|i: int| 0 < i < name.len() && name[i] == '.' {
        let i = choose|i: int|
            0 < i < name.len() && name[i] == '.' && forall|j: int|
                i < j < name.len() ==> name[j] != '.';
        Some(name.subrange(i + 1, name.len() as int))
    } else {
        None
    }
}

/// Whether every platform splits the path alike: it holds no backslash and no `:`, and does
/// not start with `//`. Only such text can carry a Windows prefix or a Windows separator.
pub open spec fn is_path_independent(name: Seq<char>) -> bool {
    &&& !name.contains('\\')
    &&& !name.contains(':')
    &&& !(name.len() >= 2 && name[0] == '/' && name[1] == '/')
}

/// The components of a path that `Path::components` gives besides its root: the pieces
/// between `/` separators, with the empty ones and `.` left out.
pub open spec fn path_pieces(name: Seq<char>) -> Seq<Seq<char>> {
    crate::text::split_pieces(name, '/').filter(|p: Seq<char>| p.len() > 0 && p != seq!['.'])
}

/// The file name of a path, as `Path::file_name` gives it: its last component, none when there
/// is none or the path ends in `..`.
pub open spec fn path_file_name(name: Seq<char>) -> Option<Seq<char>> {
    let pieces = path_pieces(name);
    if pieces.len() == 0 || pieces.last() == seq!['.', '.'] {
        None
    } else {
        Some(pieces.last())
    }
}

/// The extension of a path, as the documentation of `Path::extension` gives it: that of its
/// file name, none without one.
pub open spec fn path_extension_of(name: Seq<char>) -> Option<Seq<char>> {
    match path_file_name(name) {
        Some(f) => plain_name_extension(f),
        None => None,
    }
}

/// `Path::new(name).extension()` read back as text. Where every platform splits the path alike
/// (`is_path_independent`), the result is the extension of the path's last component, as the
/// documentation of `Path`, `Path::file_name` and `Path::extension` gives it. For other text
/// (a backslash, a `:`, a leading `//`) it depends on the platform's separators and prefixes
/// and is left open.
#[verifier::external_body]
pub fn file_extension(name: &str) -> (r: Option<String>)
    ensures
        is_path_independent(name@) ==> path_extension_of(name@) == match r {
            Some(e) => Some(e@),
            None => None,
        },
{
    std::path::Path::new(name).extension().and_then(|e| e.to_str()).map(|e| e.to_string())
}

} // verus!
