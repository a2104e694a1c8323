use vstd::prelude::*;
use vstd::string::*;

verus! {

/// What `char::is_alphanumeric` says of a character.
pub uninterp spec fn alphanumeric_of(c: char) -> bool;

/// An ASCII letter or digit.
pub open spec fn ascii_alphanumeric(c: char) -> bool {
    ('a' <= c && c <= 'z') || ('A' <= c && c <= 'Z') || ('0' <= c && c <= '9')
}

/// A character allowed in a server name: a letter or digit in Unicode's
/// sense, `-` or `_`.
pub open spec fn name_char(c: char) -> bool {
    if (c as u32) < 128 {
        ascii_alphanumeric(c) || c == '-' || c == '_'
    } else {
        alphanumeric_of(c)
    }
}

/// A server name: not empty, and made of letters, digits, `-` and `_` only.
pub open spec fn valid_name(s: Seq<char>) -> bool {
    s.len() > 0 && forall|i: int| 0 <= i < s.len() ==> name_char(#[trigger] s[i])
}

/// The container that runs server `name`.
pub open spec fn container_name_of(name: Seq<char>) -> Seq<char> {
    "mc-"@ + name
}

/// The data directory of server `name` under the base directory `base`.
pub open spec fn data_path_of(base: Seq<char>, name: Seq<char>) -> Seq<char> {
    base + "/"@ + name
}

/// Relies on `char::is_alphanumeric`: alphabetic or numeric in Unicode's
/// sense, which on ASCII characters means the letters and the digits.
#[verifier::external_body]
fn char_is_alphanumeric(c: char) -> (r: bool)
    ensures
        r == alphanumeric_of(c),
        (c as u32) < 128 ==> (r == ascii_alphanumeric(c)),
{
    c.is_alphanumeric()
}

/// Whether `name` may name a server.
pub fn is_valid_server_name(name: &str) -> (r: bool)
    ensures
        r == valid_name(name@),
{
    let n = name.unicode_len();
    if n == 0 {
        return false;
    }
    let mut i: usize = 0;
    while i < n
        invariant
            n == name@.len(),
            i <= n,
            forall|j: int| 0 <= j < i ==> name_char(#[trigger] name@[j]),
        decreases n - i,
    {
        let c = name.get_char(i);
        let ok = char_is_alphanumeric(c) || c == '-' || c == '_';
        assert(ok == name_char(c));
        if !ok {
            assert(!name_char(name@[i as int]));
            return false;
        }
        i = i + 1;
    }
    true
}

/// The name of the container that runs server `name`.
pub fn container_name(name: &str) -> (r: String)
    ensures
        r@ == container_name_of(name@),
{
    let s = String::from_str("mc-");
    proof {
        reveal_strlit("mc-");
    }
    s.concat(name)
}

/// The data directory of server `name` under the base directory `base`.
pub fn data_path_for(base: &str, name: &str) -> (r: String)
    ensures
        r@ == data_path_of(base@, name@),
{
    let s = String::from_str(base);
    let s = s.concat("/");
    s.concat(name)
}

} // verus!
