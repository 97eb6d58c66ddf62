//! Responses that two peers send each other: named headers and a body, all
//! of them JSON.

use vstd::prelude::*;

verus! {

/// A JSON value. A number is kept in the text form in which it was written.
#[derive(Debug, PartialEq)]
pub enum JsonValue {
    Null,
    Bool(bool),
    Number(String),
    String(String),
    Array(Vec<JsonValue>),
    Object(Vec<(String, JsonValue)>),
}

/// One header: its value, and the parameters that go with it.
#[derive(Debug, PartialEq)]
pub struct Header {
    pub value: JsonValue,
    pub parameters: Vec<(String, JsonValue)>,
}

/// A response: headers by name, and a body.
#[derive(Debug, PartialEq)]
pub struct Response {
    headers: Vec<(String, Header)>,
    body: JsonValue,
}

/// Whether the header named `key` stands at `index` among `headers`.
pub open spec fn named_at(headers: Seq<(String, Header)>, key: Seq<char>, index: int) -> bool {
    0 <= index < headers.len() && headers[index].0@ == key
}

/// Whether no two of `headers` have the same name.
pub open spec fn distinct_names(headers: Seq<(String, Header)>) -> bool {
    forall|i: int, j: int|
        0 <= i < j < headers.len() ==> (#[trigger] headers[i]).0@ != (#[trigger] headers[j]).0@
}

/// The header named `key` among `headers`, if there is one.
pub open spec fn header_named(headers: Seq<(String, Header)>, key: Seq<char>) -> Option<Header> {
    if exists|index: int| named_at(headers, key, index) {
        Some(headers[choose|index: int| named_at(headers, key, index)].1)
    } else {
        None
    }
}

impl JsonValue {
    /// Whether this is the null value.
    pub fn is_null(&self) -> (r: bool)
        ensures
            r == (self is Null),
    {
        match self {
            JsonValue::Null => true,
            _ => false,
        }
    }
}

impl Header {
    /// A header with this value and no parameters.
    pub fn with_value(value: JsonValue) -> (r: Header)
        ensures
            r.value == value,
            r.parameters@.len() == 0,
    {
        Header { value, parameters: Vec::new() }
    }
}

impl Response {
    /// No two headers of a response have the same name.
    #[verifier::type_invariant]
    spec fn sound(self) -> bool {
        distinct_names(self.headers@)
    }

    /// The headers of the response, in the order in which they were set.
    pub closed spec fn spec_headers(self) -> Seq<(String, Header)> {
        self.headers@
    }

    /// The body of the response, in specifications.
    pub closed spec fn spec_body(self) -> JsonValue {
        self.body
    }

    /// The header named `key`, in specifications.
    pub open spec fn spec_header(self, key: Seq<char>) -> Option<Header> {
        header_named(self.spec_headers(), key)
    }

    /// Where the header named `key` stands.
    fn find(&self, key: &str) -> (r: Option<usize>)
        ensures
            r is None ==> forall|index: int| !named_at(self.spec_headers(), key@, index),
            r matches Some(index) ==> named_at(self.spec_headers(), key@, index as int),
    {
        let wanted = key.to_string();
        let mut i: usize = 0;
        while i < self.headers.len()
            invariant
                i <= self.headers@.len(),
                wanted@ == key@,
                forall|index: int| 0 <= index < i ==> !named_at(self.headers@, key@, index),
            decreases self.headers@.len() - i,
        {
            if self.headers[i].0 == wanted {
                return Some(i);
            }
            i += 1;
        }
        None
    }

    /// A response without headers, with a null body.
    pub fn empty() -> (r: Response)
        ensures
            r.spec_headers().len() == 0,
            r.spec_body() == JsonValue::Null,
            forall|key: Seq<char>| r.spec_header(key) is None,
    {
        Response { headers: Vec::new(), body: JsonValue::Null }
    }

    /// The response with the header named `key` set to `header`, in place of
    /// an earlier header of that name. The other headers and the body stay.
    pub fn with_header(self, key: &str, header: Header) -> (r: Response)
        ensures
            r.spec_header(key@) == Some(header),
            forall|other: Seq<char>|
                other != key@ ==> r.spec_header(other) == self.spec_header(other),
            r.spec_body() == self.spec_body(),
    {
        proof {
            use_type_invariant(&self);
        }
        let ghost before = self.headers@;
        assert(self.spec_headers() == before);
        let found = self.find(key);
        let Response { headers, body } = self;
        let mut headers = headers;
        let ghost kept = before;
        match found {
            Some(index) => {
                let _ = headers.remove(index);
                proof {
                    kept = before.remove(index as int);
                    lemma_remove_keeps_others(before, index as int);
                }
            },
            None => {},
        }
        assert(headers@ == kept);
        assert(distinct_names(kept));
        assert(forall|index: int| !named_at(kept, key@, index));
        headers.push((key.to_string(), header));
        let ghost after = headers@;
        proof {
            lemma_push_sets_one(kept, after, key@, header);
            assert forall|other: Seq<char>| other != key@ implies header_named(after, other)
                == header_named(before, other) by {
                lemma_push_sets_one(kept, after, key@, header);
                if found is Some {
                    lemma_remove_keeps_others(before, found.unwrap() as int);
                }
            }
        }
        Response { headers, body }
    }

    /// The response with `body` in place of its body. The headers stay.
    pub fn with_body(self, body: JsonValue) -> (r: Response)
        ensures
            r.spec_body() == body,
            r.spec_headers() == self.spec_headers(),
    {
        proof {
            use_type_invariant(&self);
        }
        let Response { headers, body: _ } = self;
        Response { headers, body }
    }

    /// The headers, in the order in which they were set, and the body.
    pub fn into_parts(self) -> (r: (Vec<(String, Header)>, JsonValue))
        ensures
            r.0@ == self.spec_headers(),
            r.1 == self.spec_body(),
            distinct_names(r.0@),
    {
        proof {
            use_type_invariant(&self);
        }
        let Response { headers, body } = self;
        (headers, body)
    }

    /// The body of the response.
    pub fn body(&self) -> (r: &JsonValue)
        ensures
            *r == self.spec_body(),
    {
        &self.body
    }

    /// The header named `key`, if the response has one.
    pub fn header(&self, key: &str) -> (r: Option<&Header>)
        ensures
            match r {
                Some(header) => Some(*header),
                None => None,
            } == self.spec_header(key@),
    {
        proof {
            use_type_invariant(self);
        }
        assert(self.spec_headers() == self.headers@);
        match self.find(key) {
            Some(index) => {
                proof {
                    lemma_name_is_found_once(self.headers@, key@, index as int);
                }
                Some(&self.headers[index].1)
            },
            None => None,
        }
    }

    /// Takes the header named `key` out of the response, if it has one. The
    /// other headers and the body stay.
    pub fn take_header(&mut self, key: &str) -> (r: Option<Header>)
        ensures
            r == old(self).spec_header(key@),
            final(self).spec_header(key@) is None,
            forall|other: Seq<char>|
                other != key@ ==> final(self).spec_header(other) == old(self).spec_header(other),
            final(self).spec_body() == old(self).spec_body(),
    {
        proof {
            use_type_invariant(&*self);
        }
        let ghost before = self.headers@;
        assert(self.spec_headers() == before);
        match self.find(key) {
            Some(index) => {
                proof {
                    lemma_name_is_found_once(before, key@, index as int);
                    lemma_remove_keeps_others(before, index as int);
                }
                let mut headers: Vec<(String, Header)> = Vec::new();
                core::mem::swap(&mut self.headers, &mut headers);
                let (_, header) = headers.remove(index);
                self.headers = headers;
                Some(header)
            },
            None => None,
        }
    }
}

/// Among headers with distinct names, a name is found at one place only.
proof fn lemma_name_is_found_once(headers: Seq<(String, Header)>, key: Seq<char>, index: int)
    requires
        distinct_names(headers),
        named_at(headers, key, index),
    ensures
        header_named(headers, key) == Some(headers[index].1),
{
    let chosen = choose|i: int| named_at(headers, key, i);
    if chosen < index {
        assert(headers[chosen].0@ != headers[index].0@);
    } else if chosen > index {
        assert(headers[index].0@ != headers[chosen].0@);
    }
}

/// Taking a header out leaves the names distinct, drops that name, and keeps
/// every other header.
proof fn lemma_remove_keeps_others(headers: Seq<(String, Header)>, index: int)
    requires
        distinct_names(headers),
        0 <= index < headers.len(),
    ensures
        distinct_names(headers.remove(index)),
        forall|i: int| !named_at(headers.remove(index), headers[index].0@, i),
        forall|other: Seq<char>|
            other != headers[index].0@ ==> header_named(headers.remove(index), other)
                == header_named(headers, other),
{
    let after = headers.remove(index);
    assert forall|i: int| 0 <= i < after.len() implies after[i] == headers[if i < index {
        i
    } else {
        i + 1
    }] by {}
    assert forall|i: int, j: int| 0 <= i < j < after.len() implies (#[trigger] after[i]).0@ != (
    #[trigger] after[j]).0@ by {
        let from_i = if i < index {
            i
        } else {
            i + 1
        };
        let from_j = if j < index {
            j
        } else {
            j + 1
        };
        assert(after[i] == headers[from_i]);
        assert(after[j] == headers[from_j]);
        assert(headers[from_i].0@ != headers[from_j].0@);
    }
    assert forall|i: int| !named_at(after, headers[index].0@, i) by {
        if 0 <= i < after.len() {
            let from_i = if i < index {
                i
            } else {
                i + 1
            };
            assert(after[i] == headers[from_i]);
            if from_i < index {
                assert(headers[from_i].0@ != headers[index].0@);
            } else {
                assert(headers[index].0@ != headers[from_i].0@);
            }
        }
    }
    assert forall|other: Seq<char>| other != headers[index].0@ implies header_named(after, other)
        == header_named(headers, other) by {
        if exists|i: int| named_at(headers, other, i) {
            let at = choose|i: int| named_at(headers, other, i);
            let moved = if at < index {
                at
            } else {
                at - 1
            };
            assert(after[moved] == headers[at]);
            assert(named_at(after, other, moved));
            lemma_name_is_found_once(after, other, moved);
            lemma_name_is_found_once(headers, other, at);
        } else {
            assert forall|i: int| !named_at(after, other, i) by {
                if 0 <= i < after.len() {
                    let from_i = if i < index {
                        i
                    } else {
                        i + 1
                    };
                    assert(after[i] == headers[from_i]);
                    assert(!named_at(headers, other, from_i));
                }
            }
        }
    }
}

/// Adding a header under a name that is not yet there sets that name, keeps
/// the names distinct, and keeps every other header.
proof fn lemma_push_sets_one(
    kept: Seq<(String, Header)>,
    after: Seq<(String, Header)>,
    key: Seq<char>,
    header: Header,
)
    requires
        distinct_names(kept),
        forall|index: int| !named_at(kept, key, index),
        after.len() == kept.len() + 1,
        forall|i: int| 0 <= i < kept.len() ==> after[i] == kept[i],
        after[kept.len() as int].0@ == key,
        after[kept.len() as int].1 == header,
    ensures
        distinct_names(after),
        header_named(after, key) == Some(header),
        forall|other: Seq<char>| other != key ==> header_named(after, other) == header_named(
            kept,
            other,
        ),
{
    let last = kept.len() as int;
    assert forall|i: int, j: int| 0 <= i < j < after.len() implies (#[trigger] after[i]).0@ != (
    #[trigger] after[j]).0@ by {
        if j == last {
            assert(!named_at(kept, key, i));
        } else {
            assert(kept[i].0@ != kept[j].0@);
        }
    }
    assert(named_at(after, key, last));
    lemma_name_is_found_once(after, key, last);
    assert forall|other: Seq<char>| other != key implies header_named(after, other)
        == header_named(kept, other) by {
        if exists|i: int| named_at(kept, other, i) {
            let at = choose|i: int| named_at(kept, other, i);
            assert(named_at(after, other, at));
            lemma_name_is_found_once(after, other, at);
            lemma_name_is_found_once(kept, other, at);
        } else {
            assert forall|i: int| !named_at(after, other, i) by {
                if 0 <= i < last {
                    assert(!named_at(kept, other, i));
                }
            }
        }
    }
}

} // verus!
