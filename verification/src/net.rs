//! Server addresses as the user types them.

use vstd::prelude::*;
use vstd::string::*;

use crate::text::{
    chars_of, eq_ignoring_ascii_case, is_whitespace, opt_text, same_ignoring_ascii_case,
    string_between, trim, trimmed, whitespace,
};

verus! {

/// Why a typed address is not one.
#[derive(Debug, Clone, Copy, PartialEq, Eq, Structural)]
pub enum HostError {
    /// Neither `http://` nor `https://` in front.
    Scheme,
    /// Nothing behind the scheme.
    Empty,
    /// White space inside.
    Space,
}

impl HostError {
    /// The error in words.
    pub open spec fn text(self) -> Seq<char> {
        match self {
            HostError::Scheme => "host must start with http:// or https://"@,
            HostError::Empty => "host has no name"@,
            HostError::Space => "host must not contain spaces"@,
        }
    }

    /// The error in words.
    pub fn message(&self) -> (message: String)
        ensures
            message@ == self.text(),
    {
        match self {
            HostError::Scheme => "host must start with http:// or https://".to_owned(),
            HostError::Empty => "host has no name".to_owned(),
            HostError::Space => "host must not contain spaces".to_owned(),
        }
    }
}

/// Whether a text starts with a prefix, up to the case of ASCII letters.
pub open spec fn starts_with(text: Seq<char>, prefix: Seq<char>) -> bool {
    text.len() >= prefix.len() && same_ignoring_ascii_case(text.take(prefix.len() as int), prefix)
}

/// A text without the slashes at its end.
pub open spec fn without_slashes(text: Seq<char>) -> Seq<char>
    decreases text.len(),
{
    if text.len() > 0 && text.last() == '/' {
        without_slashes(text.drop_last())
    } else {
        text
    }
}

/// The length of the scheme in front of an address, if it is one of the two.
pub open spec fn scheme_length(text: Seq<char>) -> Option<int> {
    if starts_with(text, "https://"@) {
        Some(8)
    } else if starts_with(text, "http://"@) {
        Some(7)
    } else {
        None
    }
}

/// What a typed address stands for: the address without white space around it
/// and without slashes at its end, or the reason why it is none.
pub open spec fn normalized(text: Seq<char>) -> Result<Seq<char>, HostError> {
    let host = trimmed(text);
    match scheme_length(host) {
        None => Err(HostError::Scheme),
        Some(n) => if exists|i: int| 0 <= i < host.len() && whitespace(#[trigger] host[i]) {
            Err(HostError::Space)
        } else if without_slashes(host.skip(n)).len() == 0 {
            Err(HostError::Empty)
        } else {
            Ok(host.take(n) + without_slashes(host.skip(n)))
        },
    }
}

/// Whether a typed address asks for an unencrypted connection.
pub open spec fn plain(text: Seq<char>) -> bool {
    starts_with(trimmed(text), "http://"@)
}

/// What is wrong with a typed address, once something is typed.
pub open spec fn problem(text: Seq<char>) -> Option<Seq<char>> {
    if text.len() == 0 {
        None
    } else {
        match normalized(text) {
            Ok(_) => None,
            Err(err) => Some(err.text()),
        }
    }
}

/// A normalized address is left alone by normalizing it again.
pub proof fn law_normalizing_twice_changes_nothing(text: Seq<char>)
    requires
        normalized(text) is Ok,
    ensures
        normalized(normalized(text)->Ok_0) == normalized(text),
{
    let host = trimmed(text);
    let n = scheme_length(host)->0;
    let rest = without_slashes(host.skip(n));
    let done = host.take(n) + rest;
    lemma_without_slashes(host.skip(n));
    reveal_strlit("https://");
    reveal_strlit("http://");
    assert forall|i: int| 0 <= i < done.len() implies done[i] == #[trigger] host[i] by {
        if i >= n {
            assert(done[i] == rest[i - n]);
            assert(rest[i - n] == host.skip(n)[i - n]);
        }
    }
    assert forall|i: int| 0 <= i < done.len() implies !whitespace(#[trigger] done[i]) by {
        assert(!whitespace(host[i]));
    }
    assert(!whitespace(done[0]) && !whitespace(done[done.len() - 1]));
    assert(done.take(8) =~= host.take(8) || done.len() < 8);
    assert(done.take(7) =~= host.take(7));
    if n == 7 {
        assert(!starts_with(host, "https://"@));
        if done.len() >= 8 {
            assert(done.take(8) =~= host.take(8));
        }
    } else {
        assert(done.take(8) =~= host.take(8));
    }
    assert(scheme_length(done) == Some(n));
    assert(done.skip(n) =~= rest);
    assert(done.take(n) =~= host.take(n));
    lemma_without_slashes_done(rest);
}

proof fn lemma_without_slashes(text: Seq<char>)
    ensures
        without_slashes(text).len() <= text.len(),
        without_slashes(text) == text.take(without_slashes(text).len() as int),
        without_slashes(text).len() > 0 ==> without_slashes(text).last() != '/',
    decreases text.len(),
{
    if text.len() > 0 && text.last() == '/' {
        lemma_without_slashes(text.drop_last());
        let k = without_slashes(text).len() as int;
        assert(text.drop_last().take(k) =~= text.take(k));
    } else {
        assert(text.take(text.len() as int) =~= text);
    }
}

proof fn lemma_without_slashes_done(text: Seq<char>)
    requires
        text.len() > 0,
        text.last() != '/',
    ensures
        without_slashes(text) == text,
{
}

/// Whether the characters start with a prefix, up to the case of ASCII letters.
fn has_prefix(chars: &Vec<char>, prefix: &str, len: usize) -> (answer: bool)
    requires
        len == prefix@.len(),
    ensures
        answer == starts_with(chars@, prefix@),
{
    if chars.len() < len {
        return false;
    }
    let head: String = string_between(chars, 0, len);
    assert(head@ =~= chars@.take(len as int));
    eq_ignoring_ascii_case(head.as_str(), prefix)
}

/// Bring a typed address into the form that requests are built on.
pub fn normalize_host(text: &str) -> (host: Result<String, HostError>)
    ensures
        match host {
            Ok(host) => normalized(text@) == Ok::<Seq<char>, HostError>(host@),
            Err(err) => normalized(text@) == Err::<Seq<char>, HostError>(err),
        },
{
    proof {
        reveal_strlit("https://");
        reveal_strlit("http://");
    }
    let host: String = trim(text);
    let chars: Vec<char> = chars_of(host.as_str());
    let scheme: usize = if has_prefix(&chars, "https://", 8) {
        8
    } else if has_prefix(&chars, "http://", 7) {
        7
    } else {
        return Err(HostError::Scheme);
    };
    let mut i: usize = 0;
    while i < chars.len()
        invariant
            i <= chars@.len(),
            chars@ == host@,
            host@ == trimmed(text@),
            scheme_length(host@) == Some(scheme as int),
            forall|j: int| 0 <= j < i ==> !whitespace(#[trigger] host@[j]),
        decreases chars@.len() - i,
    {
        if is_whitespace(chars[i]) {
            assert(whitespace(host@[i as int]));
            return Err(HostError::Space);
        }
        i += 1;
    }
    let mut end: usize = chars.len();
    let ghost rest = host@.skip(scheme as int);
    assert(chars@.subrange(scheme as int, end as int) =~= rest);
    while end > scheme && chars[end - 1] == '/'
        invariant
            scheme <= end <= chars@.len(),
            without_slashes(chars@.subrange(scheme as int, end as int)) == without_slashes(rest),
        decreases end,
    {
        let ghost here = chars@.subrange(scheme as int, end as int);
        assert(here.last() == chars@[end - 1]);
        assert(here.drop_last() =~= chars@.subrange(scheme as int, end - 1));
        end -= 1;
    }
    let ghost here = chars@.subrange(scheme as int, end as int);
    assert(end > scheme ==> here.last() == chars@[end - 1]);
    assert(without_slashes(here) == here);
    if end == scheme {
        return Err(HostError::Empty);
    }
    let done: String = string_between(&chars, 0, end);
    assert(done@ =~= host@.take(scheme as int) + here);
    Ok(done)
}

/// What is wrong with a typed address, once something is typed.
pub fn host_problem(text: &str) -> (message: Option<String>)
    ensures
        opt_text(message) == problem(text@),
{
    if text.is_empty() {
        return None;
    }
    match normalize_host(text) {
        Ok(_) => None,
        Err(err) => Some(err.message()),
    }
}

/// The notice after a connect over plain http. The forms warn about it too, but
/// an automatic connect never shows a form.
pub const PLAIN_HTTP_NOTICE: &'static str = "connected over plain http://; traffic is unencrypted";

/// Whether a typed address asks for an unencrypted connection.
pub fn is_plain_http(text: &str) -> (answer: bool)
    ensures
        answer == plain(text@),
{
    proof {
        reveal_strlit("http://");
    }
    let host: String = trim(text);
    let chars: Vec<char> = chars_of(host.as_str());
    has_prefix(&chars, "http://", 7)
}

/// A host is kept as typed but for the blanks around it and the slashes at its
/// end; it needs a scheme, a name and no blank inside.
pub proof fn law_hosts_are_kept_as_typed(text: Seq<char>)
    ensures
        match normalized(text) {
            Ok(host) => {
                &&& exists|slashes: Seq<char>| #[trigger]
                    (host + slashes) == trimmed(text) && forall|i: int|
                        0 <= i < slashes.len() ==> slashes[i] == '/'
                &&& host.last() != '/'
                &&& starts_with(host, "https://"@) || starts_with(host, "http://"@)
                &&& forall|i: int| 0 <= i < host.len() ==> !whitespace(#[trigger] host[i])
            },
            Err(HostError::Scheme) => !starts_with(trimmed(text), "https://"@) && !starts_with(
                trimmed(text),
                "http://"@,
            ),
            Err(HostError::Space) => exists|i: int|
                0 <= i < trimmed(text).len() && whitespace(#[trigger] trimmed(text)[i]),
            Err(HostError::Empty) => true,
        },
        problem(text) is None <==> text.len() == 0 || normalized(text) is Ok,
{
    reveal_strlit("https://");
    reveal_strlit("http://");
    let whole = trimmed(text);
    if scheme_length(whole) is Some {
        let n = scheme_length(whole)->0;
        let tail = whole.skip(n);
        lemma_without_slashes(tail);
        lemma_only_slashes_are_cut(tail);
        if normalized(text) is Ok {
            let host = normalized(text)->Ok_0;
            let left = without_slashes(tail);
            let slashes = tail.skip(left.len() as int);
            assert(host + slashes =~= whole) by {
                assert(left + slashes =~= tail);
                assert(whole.take(n) + tail =~= whole);
            }
            assert(host.take(n) =~= whole.take(n));
            assert(host.last() == left.last());
            assert forall|i: int| 0 <= i < host.len() implies !whitespace(#[trigger] host[i]) by {
                assert(host[i] == whole[i]);
            }
        }
    }
}

proof fn lemma_only_slashes_are_cut(text: Seq<char>)
    ensures
        forall|i: int| without_slashes(text).len() <= i < text.len() ==> text[i] == '/',
    decreases text.len(),
{
    if text.len() > 0 && text.last() == '/' {
        lemma_only_slashes_are_cut(text.drop_last());
        assert forall|i: int| without_slashes(text).len() <= i < text.len() implies text[i]
            == '/' by {
            if i < text.len() - 1 {
                assert(text.drop_last()[i] == text[i]);
            }
        }
    }
}

} // verus!
