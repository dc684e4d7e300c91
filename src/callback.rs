use vstd::prelude::*;

use crate::error::{CallbackFault, ServiceError};

verus! {

/// Whether `s` parses as an absolute URL.
pub uninterp spec fn parses_as_url(s: Seq<char>) -> bool;

/// The decoded name/value pairs of the query of URL `s`, in order.
pub uninterp spec fn url_query_pairs(s: Seq<char>) -> Seq<(Seq<char>, Seq<char>)>;

/// Relies on `url::Url::parse`: whether it accepts `s`.
#[verifier::external_body]
pub(crate) fn url_parses(s: &str) -> (r: bool)
    ensures
        r == parses_as_url(s@),
{
    url::Url::parse(s).is_ok()
}

/// Relies on `url::Url::parse` followed by `Url::query_pairs`: the decoded
/// query pairs of `s`, if it parses.
#[verifier::external_body]
fn query_pairs(s: &str) -> (r: Option<Vec<(String, String)>>)
    ensures
        r is Some <==> parses_as_url(s@),
        r matches Some(v) ==> v@.map_values(|p: (String, String)| (p.0@, p.1@))
            == url_query_pairs(s@),
{
    let url = url::Url::parse(s).ok()?;
    Some(url.query_pairs().map(|(k, v)| (k.into_owned(), v.into_owned())).collect())
}

/// The separators between the words of an HTTP request line.
pub open spec fn is_space(c: char) -> bool {
    c == ' ' || c == '\t' || c == '\r' || c == '\n' || c == '\x0b' || c == '\x0c'
}

/// The first position at or after `i` that holds no separator.
pub open spec fn skip_spaces(s: Seq<char>, i: int) -> int
    decreases s.len() - i,
{
    if i < 0 || i >= s.len() || !is_space(s[i]) {
        i
    } else {
        skip_spaces(s, i + 1)
    }
}

/// The first position at or after `i` that holds a separator.
pub open spec fn skip_word(s: Seq<char>, i: int) -> int
    decreases s.len() - i,
{
    if i < 0 || i >= s.len() || is_space(s[i]) {
        i
    } else {
        skip_word(s, i + 1)
    }
}

/// The second word of a request line (`GET /?code=.. HTTP/1.1`), the
/// request target.
pub open spec fn request_target_of(line: Seq<char>) -> Option<Seq<char>> {
    let a = skip_spaces(line, 0);
    let b = skip_word(line, a);
    let c = skip_spaces(line, b);
    let d = skip_word(line, c);
    if c < d {
        Some(line.subrange(c, d))
    } else {
        None
    }
}

/// The value of the first pair named `key`.
pub open spec fn first_value(pairs: Seq<(Seq<char>, Seq<char>)>, key: Seq<char>, i: int) -> Option<Seq<char>>
    decreases pairs.len() - i,
{
    if i < 0 || i >= pairs.len() {
        None
    } else if pairs[i].0 == key {
        Some(pairs[i].1)
    } else {
        first_value(pairs, key, i + 1)
    }
}

/// The URL that a request target denotes on the local listener.
pub open spec fn callback_url_of(target: Seq<char>) -> Seq<char> {
    "http://localhost"@ + target
}

/// What a redirect request line carries: the authorization code and the
/// state, each the first query parameter of that name.
pub open spec fn callback_of(line: Seq<char>) -> Result<(Seq<char>, Seq<char>), CallbackFault> {
    match request_target_of(line) {
        None => Err(CallbackFault::MissingTarget),
        Some(target) => {
            let url = callback_url_of(target);
            if !parses_as_url(url) {
                Err(CallbackFault::InvalidUrl)
            } else {
                let pairs = url_query_pairs(url);
                match first_value(pairs, "code"@, 0) {
                    None => Err(CallbackFault::MissingCode),
                    Some(code) => match first_value(pairs, "state"@, 0) {
                        None => Err(CallbackFault::MissingState),
                        Some(state) => Ok((code, state)),
                    },
                }
            }
        },
    }
}

fn skip(line: &str, n: usize, start: usize, spaces: bool) -> (r: usize)
    requires
        n == line@.len(),
        start <= n,
    ensures
        r as int == (if spaces {
            skip_spaces(line@, start as int)
        } else {
            skip_word(line@, start as int)
        }),
        start <= r <= n,
    decreases n - start,
{
    if start == n {
        return start;
    }
    let c = line.get_char(start);
    let sep = c == ' ' || c == '\t' || c == '\r' || c == '\n' || c == '\x0b' || c == '\x0c';
    if sep != spaces {
        start
    } else {
        skip(line, n, start + 1, spaces)
    }
}

/// The request target of a request line, if it has one.
pub fn request_target(line: &str) -> (r: Option<String>)
    ensures
        match request_target_of(line@) {
            Some(t) => r matches Some(s) && s@ == t,
            None => r is None,
        },
{
    let n = line.unicode_len();
    let a = skip(line, n, 0, true);
    let b = skip(line, n, a, false);
    let c = skip(line, n, b, true);
    let d = skip(line, n, c, false);
    if c < d {
        Some(String::from_str(line.substring_char(c, d)))
    } else {
        None
    }
}

fn find_value(pairs: &Vec<(String, String)>, key: &String) -> (r: Option<String>)
    ensures
        match first_value(pairs@.map_values(|p: (String, String)| (p.0@, p.1@)), key@, 0) {
            Some(v) => r matches Some(s) && s@ == v,
            None => r is None,
        },
{
    let ghost view = pairs@.map_values(|p: (String, String)| (p.0@, p.1@));
    let mut i: usize = 0;
    while i < pairs.len()
        invariant
            i <= pairs.len(),
            view == pairs@.map_values(|p: (String, String)| (p.0@, p.1@)),
            first_value(view, key@, 0) == first_value(view, key@, i as int),
        decreases pairs.len() - i,
    {
        if pairs[i].0 == *key {
            return Some(pairs[i].1.clone());
        }
        i = i + 1;
    }
    None
}

/// The code and the state that a redirect request line carries, or what is
/// wrong with it.
pub fn parse_callback(line: &str) -> (r: Result<(String, String), ServiceError>)
    ensures
        match callback_of(line@) {
            Ok((code, state)) => r matches Ok((c, s)) && c@ == code && s@ == state,
            Err(f) => r == Err::<(String, String), ServiceError>(ServiceError::MalformedCallback(f)),
        },
{
    let target = match request_target(line) {
        Some(t) => t,
        None => {
            return Err(ServiceError::MalformedCallback(CallbackFault::MissingTarget));
        },
    };
    let mut url = String::from_str("http://localhost");
    url.append(target.as_str());
    let pairs = match query_pairs(url.as_str()) {
        Some(p) => p,
        None => {
            return Err(ServiceError::MalformedCallback(CallbackFault::InvalidUrl));
        },
    };
    let code = match find_value(&pairs, &String::from_str("code")) {
        Some(c) => c,
        None => {
            return Err(ServiceError::MalformedCallback(CallbackFault::MissingCode));
        },
    };
    let state = match find_value(&pairs, &String::from_str("state")) {
        Some(s) => s,
        None => {
            return Err(ServiceError::MalformedCallback(CallbackFault::MissingState));
        },
    };
    Ok((code, state))
}

} // verus!
