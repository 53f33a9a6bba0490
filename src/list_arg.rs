//! The list-valued option: a single token such as `['a','b']`, read as the
//! value of the TOML key `args`.
//!
//! The token is framed here into a one-line TOML document; the document is
//! read by a TOML reader, and a failure of that reader is turned into the
//! option's error message here.
use vstd::prelude::*;

verus! {

/// The key under which the list is read.
pub open spec fn list_key() -> Seq<char> {
    "args="@
}

/// The hint appended to every error of the list-valued option.
pub open spec fn format_hint() -> Seq<char> {
    "\n  Expected format: ['arg0', 'arg1', ... ]"@
}

/// The document read for the token `token`: the token itself when it
/// already starts with the key, else the key followed by the token.
pub open spec fn framed(token: Seq<char>) -> Seq<char> {
    if list_key().is_prefix_of(token) {
        token
    } else {
        list_key() + token
    }
}

fn starts_with_key(token: &str) -> (r: bool)
    ensures
        r == list_key().is_prefix_of(token@),
{
    let key = "args=";
    proof {
        reveal_strlit("args=");
    }
    let n = token.unicode_len();
    if n < 5 {
        return false;
    }
    let mut i: usize = 0;
    while i < 5
        invariant
            i <= 5,
            n == token@.len(),
            n >= 5,
            key@ == list_key(),
            key@.len() == 5,
            forall|j: int| 0 <= j < i ==> key@[j] == token@[j],
        decreases 5 - i,
    {
        if key.get_char(i) != token.get_char(i) {
            return false;
        }
        i += 1;
    }
    assert(key@ =~= token@.subrange(0, 5));
    true
}

/// Frames the token of the list-valued option into the TOML document that
/// is read for it.
pub fn frame_list_token(token: &str) -> (r: String)
    ensures
        r@ == framed(token@),
{
    if starts_with_key(token) {
        String::from_str(token)
    } else {
        let mut doc = String::from_str("args=");
        doc.append(token);
        doc
    }
}

/// The error message of the list-valued option for the reader's message
/// `message`: the message followed by the expected format.
pub fn with_format_hint(message: &str) -> (r: String)
    ensures
        r@ == message@ + format_hint(),
{
    let mut out = String::from_str(message);
    out.append("\n  Expected format: ['arg0', 'arg1', ... ]");
    out
}

/// The value of the list-valued option, given what the TOML reader made of
/// the framed document: the list it read, or its error message followed by
/// the expected format.
pub fn list_argument(read: Result<Vec<String>, String>) -> (r: Result<Vec<String>, String>)
    ensures
        read is Ok ==> r == read,
        read matches Err(e) ==> r matches Err(m) && m@ == e@ + format_hint(),
{
    match read {
        Ok(v) => Ok(v),
        Err(e) => Err(with_format_hint(e.as_str())),
    }
}

} // verus!
