//! Routes: what a button press asks for, and the text that a button carries for it.

use vstd::prelude::*;
use crate::error::Error;
use crate::text::{decimal, from_decimal, is_digit, lemma_decimal_chars, lemma_decimal_round_trip, parsed_i32, same, to_decimal};

verus! {

/// What a button press asks for.
#[derive(Clone, Copy, Debug, PartialEq, Eq, Structural)]
pub enum Route {
    /// Show the chapters of a work.
    ViewWork(i32),
    /// Show a chapter.
    ViewChapter(i32),
    /// Start adding a work.
    AddWork,
    /// Start adding a chapter to a work.
    AddChapter(i32),
    /// Delete a work.
    DeleteWork(i32),
}

/// The length of the longest prefix of `s` that holds no colon.
pub open spec fn cut(s: Seq<char>) -> int
    decreases s.len(),
{
    if s.len() == 0 || s[0] == ':' {
        0
    } else {
        1 + cut(s.skip(1))
    }
}

/// The route tag of a payload: what stands before its first colon.
pub open spec fn payload_tag(payload: Seq<char>) -> Seq<char> {
    payload.take(cut(payload))
}

/// The argument of a payload: the integer written between its first colon and
/// the next one (or the end); `None` where there is no colon or no integer there.
pub open spec fn payload_arg(payload: Seq<char>) -> Option<i32> {
    if cut(payload) < payload.len() {
        let rest = payload.skip(cut(payload) + 1);
        parsed_i32(rest.take(cut(rest)))
    } else {
        None
    }
}

impl Route {
    /// The tag that names the kind of route.
    pub open spec fn tag(self) -> Seq<char> {
        match self {
            Route::ViewWork(_) => "view-work"@,
            Route::ViewChapter(_) => "view-chapter"@,
            Route::AddWork => "add-work"@,
            Route::AddChapter(_) => "add-chapter"@,
            Route::DeleteWork(_) => "delete-work"@,
        }
    }

    /// The identifier that the route carries, if it carries one.
    pub open spec fn arg(self) -> Option<i32> {
        match self {
            Route::ViewWork(id) => Some(id),
            Route::ViewChapter(id) => Some(id),
            Route::AddWork => None,
            Route::AddChapter(id) => Some(id),
            Route::DeleteWork(id) => Some(id),
        }
    }

    /// The payload that a button carries for the route: the tag, and after a
    /// colon the identifier in decimal where the route has one.
    pub open spec fn token(self) -> Seq<char> {
        match self.arg() {
            Some(id) => self.tag() + seq![':'] + decimal(id as int),
            None => self.tag(),
        }
    }

    /// The route that a tag and an argument name: a routing error where the
    /// tag is unknown or a needed argument is missing.
    pub open spec fn resolved(tag: Seq<char>, arg: Option<i32>) -> Result<Route, Error> {
        if tag == "add-work"@ {
            Ok(Route::AddWork)
        } else if arg is None {
            Err(Error::Routing)
        } else if tag == "view-work"@ {
            Ok(Route::ViewWork(arg->0))
        } else if tag == "view-chapter"@ {
            Ok(Route::ViewChapter(arg->0))
        } else if tag == "add-chapter"@ {
            Ok(Route::AddChapter(arg->0))
        } else if tag == "delete-work"@ {
            Ok(Route::DeleteWork(arg->0))
        } else {
            Err(Error::Routing)
        }
    }

    /// Finds the route that a tag and an argument name.
    pub fn resolve(tag: &str, arg: Option<i32>) -> (r: Result<Route, Error>)
        ensures
            r == Route::resolved(tag@, arg),
    {
        if same(tag, "add-work") {
            return Ok(Route::AddWork);
        }
        match arg {
            None => Err(Error::Routing),
            Some(id) => {
                if same(tag, "view-work") {
                    Ok(Route::ViewWork(id))
                } else if same(tag, "view-chapter") {
                    Ok(Route::ViewChapter(id))
                } else if same(tag, "add-chapter") {
                    Ok(Route::AddChapter(id))
                } else if same(tag, "delete-work") {
                    Ok(Route::DeleteWork(id))
                } else {
                    Err(Error::Routing)
                }
            },
        }
    }

    /// Writes the payload that a button carries for the route.
    pub fn payload(&self) -> (r: String)
        ensures
            r@ == self.token(),
    {
        match self {
            Route::ViewWork(id) => with_arg("view-work", *id),
            Route::ViewChapter(id) => with_arg("view-chapter", *id),
            Route::AddWork => String::from_str("add-work"),
            Route::AddChapter(id) => with_arg("add-chapter", *id),
            Route::DeleteWork(id) => with_arg("delete-work", *id),
        }
    }
}

fn with_arg(tag: &str, id: i32) -> (r: String)
    ensures
        r@ == tag@ + seq![':'] + decimal(id as int),
{
    let mut r = String::from_str(tag);
    r.append(":");
    let number = to_decimal(id);
    r.append(number.as_str());
    proof {
        reveal_strlit(":");
        assert(":"@ =~= seq![':']);
    }
    r
}

/// Where the first `i` characters hold no colon and a colon or the end
/// follows, the prefix without a colon has length `i`.
pub proof fn lemma_cut(s: Seq<char>, i: int)
    requires
        0 <= i <= s.len(),
        forall|j: int| 0 <= j < i ==> s[j] != ':',
        i == s.len() || s[i] == ':',
    ensures
        cut(s) == i,
    decreases i,
{
    if i > 0 {
        let rest = s.skip(1);
        assert forall|j: int| 0 <= j < i - 1 implies rest[j] != ':' by {
            assert(rest[j] == s[j + 1]);
        }
        lemma_cut(rest, i - 1);
    }
}

/// The position of the first colon at or after `from`, or the length of the text.
fn find_colon(s: &str, from: usize) -> (r: usize)
    requires
        from <= s@.len(),
    ensures
        from <= r <= s@.len(),
        r - from == cut(s@.skip(from as int)),
{
    let len = s.unicode_len();
    let mut i: usize = from;
    while i < len && s.get_char(i) != ':'
        invariant
            from <= i <= len,
            len == s@.len(),
            forall|j: int| from <= j < i ==> s@[j] != ':',
        decreases len - i,
    {
        i += 1;
    }
    proof {
        let rest = s@.skip(from as int);
        assert forall|j: int| 0 <= j < i - from implies rest[j] != ':' by {
            assert(rest[j] == s@[j + from]);
        }
        if i < len {
            assert(rest[i - from] == s@[i as int]);
        }
        lemma_cut(rest, i - from);
    }
    i
}

/// Splits the payload of a button press into its route tag and its argument.
pub fn split_payload(payload: &str) -> (r: (String, Option<i32>))
    ensures
        r.0@ == payload_tag(payload@),
        r.1 == payload_arg(payload@),
{
    let len = payload.unicode_len();
    let end = find_colon(payload, 0);
    proof {
        assert(payload@.skip(0) =~= payload@);
        assert(end == cut(payload@));
    }
    let head = payload.substring_char(0, end);
    let tag = String::from_str(head);
    proof {
        assert(payload@.subrange(0, end as int) =~= payload@.take(end as int));
    }
    if end == len {
        return (tag, None);
    }
    let next = find_colon(payload, end + 1);
    let text = payload.substring_char(end + 1, next);
    let ghost rest = payload@.skip(end + 1);
    proof {
        assert(next - (end + 1) == cut(rest));
        assert(payload@.subrange(end + 1, next as int) =~= rest.take(cut(rest)));
    }
    let arg = from_decimal(text);
    (tag, arg)
}

/// No tag of a route holds a colon, and no two kinds of route share a tag.
proof fn lemma_tags(route: Route)
    ensures
        forall|j: int| 0 <= j < route.tag().len() ==> route.tag()[j] != ':',
        Route::resolved(route.tag(), route.arg()) == Ok::<Route, Error>(route),
{
    reveal_strlit("view-work");
    reveal_strlit("view-chapter");
    reveal_strlit("add-work");
    reveal_strlit("add-chapter");
    reveal_strlit("delete-work");
    assert("view-work"@.len() == 9);
    assert("view-chapter"@.len() == 12);
    assert("add-work"@.len() == 8);
    assert("add-chapter"@.len() == 11);
    assert("delete-work"@.len() == 11);
    assert("add-chapter"@[0] == 'a');
    assert("delete-work"@[0] == 'd');
    assert("add-chapter"@ != "delete-work"@);
}

/// The payload that is written for a route reads back as that route: every
/// button that is made for a route leads to it.
pub proof fn lemma_route_round_trip(route: Route)
    ensures
        Route::resolved(payload_tag(route.token()), payload_arg(route.token())) == Ok::<
            Route,
            Error,
        >(route),
{
    lemma_tags(route);
    let tag = route.tag();
    let token = route.token();
    match route.arg() {
        Some(id) => {
            let number = decimal(id as int);
            lemma_decimal_chars(id as int);
            lemma_decimal_round_trip(id);
            assert forall|j: int| 0 <= j < tag.len() implies token[j] != ':' by {
                assert(token[j] == tag[j]);
            }
            assert(token[tag.len() as int] == ':');
            lemma_cut(token, tag.len() as int);
            assert(token.take(tag.len() as int) =~= tag);
            let rest = token.skip(tag.len() as int + 1);
            assert(rest =~= number);
            assert forall|j: int| 0 <= j < number.len() implies number[j] != ':' by {
                assert(is_digit(number[j]) || number[j] == '-');
            }
            lemma_cut(number, number.len() as int);
            assert(number.take(number.len() as int) =~= number);
        },
        None => {
            lemma_cut(token, token.len() as int);
            assert(token.take(token.len() as int) =~= token);
        },
    }
}

} // verus!
