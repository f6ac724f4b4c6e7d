//! The request/response data model that flows through the policy chain.
//!
//! A request owns a method, a URL (modeled as the part before the query and
//! the query string itself), an ordered header list, and a body.  A typed,
//! request-scoped context travels beside the request so that cross-cutting
//! data (a caller-supplied correlation id) reaches policies without widening
//! every signature.

use vstd::prelude::*;

verus! {

/// HTTP request method.
#[derive(Clone, Copy, Debug, PartialEq, Eq, Structural)]
pub enum Method {
    Get,
    Head,
    Post,
    Put,
    Delete,
    Patch,
}

/// A URL, split into the part before the query string and the query string.
///
/// The policy chain reads and rewrites only the query string, so that is the
/// part the model keeps as a value of its own; `base` carries scheme,
/// authority and path verbatim and never contains a `?`.
#[derive(Debug)]
pub struct Url {
    /// Scheme, authority and path, without a trailing `?`.
    pub base: String,
    /// The query string, without its leading `?`; empty when absent.
    pub query: String,
}

impl Clone for Url {
    /// A copy with the same two parts.
    fn clone(&self) -> (r: Url)
        ensures
            r.base@ == self.base@,
            r.query@ == self.query@,
    {
        Url { base: self.base.clone(), query: self.query.clone() }
    }
}

impl Url {
    /// A URL from its two parts.
    pub fn from_parts(base: String, query: String) -> (r: Url)
        ensures
            r.base@ == base@,
            r.query@ == query@,
    {
        Url { base, query }
    }

    /// The query string; empty when the URL has none.
    pub fn query(&self) -> (r: &String)
        ensures
            r@ == self.query@,
    {
        &self.query
    }

    /// Replaces the query string, leaving the rest of the URL unchanged.
    pub fn set_query(&mut self, query: String)
        ensures
            final(self).base@ == old(self).base@,
            final(self).query@ == query@,
    {
        self.query = query;
    }
}


/// The header entries as a sequence of (name, value) character sequences.
pub open spec fn headers_model(entries: Seq<(String, String)>) -> Seq<(Seq<char>, Seq<char>)> {
    entries.map_values(|e: (String, String)| (e.0@, e.1@))
}

/// The entries that do not carry the given name, in order.
pub open spec fn headers_without(hs: Seq<(Seq<char>, Seq<char>)>, name: Seq<char>) -> Seq<
    (Seq<char>, Seq<char>),
>
    decreases hs.len(),
{
    if hs.len() == 0 {
        Seq::empty()
    } else if hs[0].0 == name {
        headers_without(hs.skip(1), name)
    } else {
        seq![hs[0]] + headers_without(hs.skip(1), name)
    }
}

/// The header list after setting a name to a value: every entry under that
/// name is replaced by a single entry at the end of the list.
pub open spec fn headers_with(
    hs: Seq<(Seq<char>, Seq<char>)>,
    name: Seq<char>,
    value: Seq<char>,
) -> Seq<(Seq<char>, Seq<char>)> {
    headers_without(hs, name).push((name, value))
}

/// The value of the first entry under a name, if any.
pub open spec fn headers_lookup(hs: Seq<(Seq<char>, Seq<char>)>, name: Seq<char>) -> Option<
    Seq<char>,
>
    decreases hs.len(),
{
    if hs.len() == 0 {
        None
    } else if hs[0].0 == name {
        Some(hs[0].1)
    } else {
        headers_lookup(hs.skip(1), name)
    }
}

/// How many entries carry a name.
pub open spec fn headers_count(hs: Seq<(Seq<char>, Seq<char>)>, name: Seq<char>) -> nat
    decreases hs.len(),
{
    if hs.len() == 0 {
        0
    } else {
        (if hs[0].0 == name {
            1nat
        } else {
            0nat
        }) + headers_count(hs.skip(1), name)
    }
}

/// No entry left after purging a name still carries it.
pub proof fn lemma_without_absent(hs: Seq<(Seq<char>, Seq<char>)>, name: Seq<char>)
    ensures
        forall|j: int|
            0 <= j < headers_without(hs, name).len() ==> (#[trigger] headers_without(hs, name)[j]).0
                != name,
    decreases hs.len(),
{
    if hs.len() > 0 {
        lemma_without_absent(hs.skip(1), name);
        let rest = headers_without(hs.skip(1), name);
        let whole = headers_without(hs, name);
        if hs[0].0 != name {
            assert(whole == seq![hs[0]] + rest);
            assert forall|j: int| 0 <= j < whole.len() implies (#[trigger] whole[j]).0
                != name by {
                if j == 0 {
                    assert(whole[0] == hs[0]);
                } else {
                    assert(whole[j] == rest[j - 1]);
                }
            }
        } else {
            assert(whole == rest);
            assert forall|j: int| 0 <= j < whole.len() implies (#[trigger] whole[j]).0
                != name by {
                assert(whole[j] == rest[j]);
            }
        }
    }
}

/// Looking a name up in a list that does not carry it finds nothing.
pub proof fn lemma_lookup_absent(hs: Seq<(Seq<char>, Seq<char>)>, name: Seq<char>)
    requires
        forall|j: int| 0 <= j < hs.len() ==> (#[trigger] hs[j]).0 != name,
    ensures
        headers_lookup(hs, name) is None,
    decreases hs.len(),
{
    if hs.len() > 0 {
        lemma_lookup_absent(hs.skip(1), name);
    }
}

/// Appending one entry to any list: a lookup finds the old value first, the
/// appended one only when nothing preceded it.
pub proof fn lemma_lookup_push(
    hs: Seq<(Seq<char>, Seq<char>)>,
    entry: (Seq<char>, Seq<char>),
    name: Seq<char>,
)
    ensures
        headers_lookup(hs.push(entry), name) == if headers_lookup(hs, name) is Some {
            headers_lookup(hs, name)
        } else if entry.0 == name {
            Some(entry.1)
        } else {
            None
        },
    decreases hs.len(),
{
    let empty = Seq::<(Seq<char>, Seq<char>)>::empty();
    if hs.len() == 0 {
        assert(hs.push(entry)[0] == entry);
        assert(hs.push(entry).skip(1) =~= empty);
        assert(headers_lookup(empty, name) is None);
        assert(headers_lookup(hs, name) is None);
        assert(headers_lookup(hs.push(entry).skip(1), name) is None);
    } else {
        assert(hs.push(entry)[0] == hs[0]);
        assert(hs.push(entry).skip(1) =~= hs.skip(1).push(entry));
        lemma_lookup_push(hs.skip(1), entry, name);
        assert(headers_lookup(hs.push(entry).skip(1), name) == headers_lookup(
            hs.skip(1).push(entry),
            name,
        ));
    }
}

/// Appending one entry raises the count of exactly its own name by one.
pub proof fn lemma_count_push(
    hs: Seq<(Seq<char>, Seq<char>)>,
    entry: (Seq<char>, Seq<char>),
    name: Seq<char>,
)
    ensures
        headers_count(hs.push(entry), name) == headers_count(hs, name) + if entry.0 == name {
            1int
        } else {
            0int
        },
    decreases hs.len(),
{
    if hs.len() == 0 {
        assert(hs.push(entry)[0] == entry);
        assert(hs.push(entry).skip(1) =~= Seq::<(Seq<char>, Seq<char>)>::empty());
        assert(headers_count(Seq::<(Seq<char>, Seq<char>)>::empty(), name) == 0);
        assert(headers_count(hs, name) == 0);
    } else {
        assert(hs.push(entry)[0] == hs[0]);
        assert(hs.push(entry).skip(1) =~= hs.skip(1).push(entry));
        lemma_count_push(hs.skip(1), entry, name);
        assert(headers_count(hs.skip(1).push(entry), name) == headers_count(hs.skip(1), name)
            + if entry.0 == name {
            1int
        } else {
            0int
        });
    }
}

/// Purging a name does not change what a lookup under another name finds.
pub proof fn lemma_without_lookup(
    hs: Seq<(Seq<char>, Seq<char>)>,
    name: Seq<char>,
    other: Seq<char>,
)
    requires
        other != name,
    ensures
        headers_lookup(headers_without(hs, name), other) == headers_lookup(hs, other),
    decreases hs.len(),
{
    if hs.len() > 0 {
        lemma_without_lookup(hs.skip(1), name, other);
        if hs[0].0 != name {
            let rest = headers_without(hs.skip(1), name);
            let whole = seq![hs[0]] + rest;
            assert(whole[0] == hs[0]);
            assert(whole.skip(1) =~= rest);
        }
    }
}

/// Purging a name zeroes its own count and leaves every other count alone.
pub proof fn lemma_without_count(
    hs: Seq<(Seq<char>, Seq<char>)>,
    name: Seq<char>,
    other: Seq<char>,
)
    ensures
        headers_count(headers_without(hs, name), name) == 0,
        other != name ==> headers_count(headers_without(hs, name), other) == headers_count(
            hs,
            other,
        ),
    decreases hs.len(),
{
    if hs.len() > 0 {
        lemma_without_count(hs.skip(1), name, other);
        if hs[0].0 != name {
            let rest = headers_without(hs.skip(1), name);
            let whole = seq![hs[0]] + rest;
            assert(whole[0] == hs[0]);
            assert(whole.skip(1) =~= rest);
        }
    }
}

/// After setting a name, exactly one entry carries it, and its value is the
/// one set.
pub proof fn lemma_headers_with(
    hs: Seq<(Seq<char>, Seq<char>)>,
    name: Seq<char>,
    value: Seq<char>,
)
    ensures
        headers_lookup(headers_with(hs, name, value), name) == Some(value),
        headers_count(headers_with(hs, name, value), name) == 1,
{
    lemma_without_absent(hs, name);
    lemma_lookup_absent(headers_without(hs, name), name);
    lemma_lookup_push(headers_without(hs, name), (name, value), name);
    lemma_without_count(hs, name, name);
    lemma_count_push(headers_without(hs, name), (name, value), name);
}

/// Setting one name leaves both lookup and count of any other name unchanged.
pub proof fn lemma_headers_with_frame(
    hs: Seq<(Seq<char>, Seq<char>)>,
    name: Seq<char>,
    value: Seq<char>,
    other: Seq<char>,
)
    requires
        other != name,
    ensures
        headers_lookup(headers_with(hs, name, value), other) == headers_lookup(hs, other),
        headers_count(headers_with(hs, name, value), other) == headers_count(hs, other),
{
    lemma_without_lookup(hs, name, other);
    lemma_lookup_push(headers_without(hs, name), (name, value), other);
    lemma_without_count(hs, name, other);
    lemma_count_push(headers_without(hs, name), (name, value), other);
}

/// Purging a name from a list extended at the end purges the extension too.
pub proof fn lemma_without_push(
    hs: Seq<(Seq<char>, Seq<char>)>,
    entry: (Seq<char>, Seq<char>),
    name: Seq<char>,
)
    ensures
        headers_without(hs.push(entry), name) == if entry.0 == name {
            headers_without(hs, name)
        } else {
            headers_without(hs, name).push(entry)
        },
    decreases hs.len(),
{
    let empty = Seq::<(Seq<char>, Seq<char>)>::empty();
    if hs.len() == 0 {
        assert(hs.push(entry)[0] == entry);
        assert(hs.push(entry).skip(1) =~= empty);
        assert(headers_without(empty, name) == empty);
        assert(headers_without(hs, name) == empty);
        assert(headers_without(hs.push(entry).skip(1), name) == empty);
        if entry.0 != name {
            assert(headers_without(hs.push(entry), name) == seq![entry] + empty);
            assert(seq![entry] + empty =~= empty.push(entry));
        }
    } else {
        assert(hs.push(entry)[0] == hs[0]);
        assert(hs.push(entry).skip(1) =~= hs.skip(1).push(entry));
        lemma_without_push(hs.skip(1), entry, name);
        assert(headers_without(hs.push(entry).skip(1), name) == headers_without(
            hs.skip(1).push(entry),
            name,
        ));
        if hs[0].0 != name {
            if entry.0 == name {
                assert(headers_without(hs.push(entry), name) == seq![hs[0]] + headers_without(
                    hs.skip(1),
                    name,
                ));
            } else {
                assert(headers_without(hs.push(entry), name) == seq![hs[0]] + headers_without(
                    hs.skip(1),
                    name,
                ).push(entry));
                assert(seq![hs[0]] + headers_without(hs.skip(1), name).push(entry) =~= (seq![hs[0]]
                    + headers_without(hs.skip(1), name)).push(entry));
            }
        }
    }
}

/// An ordered list of header entries; setting a name replaces every entry
/// under it.
#[derive(Debug)]
pub struct Headers {
    /// The entries in order.
    pub entries: Vec<(String, String)>,
}

impl Clone for Headers {
    /// A copy with the same abstract header list.
    fn clone(&self) -> (r: Headers)
        ensures
            r.model() == self.model(),
    {
        let mut out: Vec<(String, String)> = Vec::new();
        let mut i: usize = 0;
        while i < self.entries.len()
            invariant
                i <= self.entries.len(),
                headers_model(out@) =~= headers_model(self.entries@.take(i as int)),
            decreases self.entries.len() - i,
        {
            let name = self.entries[i].0.clone();
            let value = self.entries[i].1.clone();
            let ghost prev = out@;
            out.push((name, value));
            proof {
                assert(out@ == prev.push((name, value)));
                assert(headers_model(prev).len() == prev.len());
                assert(prev.len() == i);
                let lhs = headers_model(out@);
                let rhs = headers_model(self.entries@.take(i + 1));
                assert(self.entries@.take(i + 1).len() == i + 1);
                assert(lhs.len() == rhs.len());
                assert forall|j: int| 0 <= j < lhs.len() implies lhs[j] == rhs[j] by {
                    assert(rhs[j] == (self.entries@.take(i + 1)[j].0@, self.entries@.take(
                        i + 1,
                    )[j].1@));
                    if j < i {
                        assert(out@[j] == prev[j]);
                        assert(lhs[j] == headers_model(prev)[j]);
                        assert(headers_model(prev)[j] == headers_model(
                            self.entries@.take(i as int),
                        )[j]);
                        assert(self.entries@.take(i as int)[j] == self.entries@.take(i + 1)[j]);
                    } else {
                        assert(out@[j] == (name, value));
                        assert(self.entries@.take(i + 1)[j] == self.entries@[i as int]);
                    }
                }
                assert(lhs =~= rhs);
            }
            i += 1;
        }
        proof {
            assert(self.entries@.take(self.entries@.len() as int) =~= self.entries@);
        }
        Headers { entries: out }
    }
}

impl Headers {
    /// The abstract header list.
    pub open spec fn model(&self) -> Seq<(Seq<char>, Seq<char>)> {
        headers_model(self.entries@)
    }

    /// An empty header list.
    pub fn new() -> (r: Headers)
        ensures
            r.model() =~= Seq::<(Seq<char>, Seq<char>)>::empty(),
    {
        Headers { entries: Vec::new() }
    }

    /// Sets a name to a value, replacing every entry under that name.
    pub fn set(&mut self, name: String, value: String)
        ensures
            final(self).model() == headers_with(old(self).model(), name@, value@),
    {
        let mut out: Vec<(String, String)> = Vec::new();
        let mut i: usize = 0;
        while i < self.entries.len()
            invariant
                i <= self.entries.len(),
                headers_model(out@) == headers_without(
                    headers_model(self.entries@.take(i as int)),
                    name@,
                ),
            decreases self.entries.len() - i,
        {
            let ghost elem = (self.entries@[i as int].0@, self.entries@[i as int].1@);
            proof {
                assert(headers_model(self.entries@.take(i + 1)) =~= headers_model(
                    self.entries@.take(i as int),
                ).push(elem));
                lemma_without_push(headers_model(self.entries@.take(i as int)), elem, name@);
            }
            let differs = !(self.entries[i].0 == name);
            if differs {
                let ename = self.entries[i].0.clone();
                let evalue = self.entries[i].1.clone();
                out.push((ename, evalue));
                proof {
                    assert(headers_model(out@) =~= headers_model(out@.drop_last()).push(elem));
                }
            }
            i += 1;
        }
        proof {
            assert(self.entries@.take(self.entries@.len() as int) =~= self.entries@);
        }
        out.push((name, value));
        proof {
            assert(headers_model(out@) =~= headers_model(out@.drop_last()).push((name@, value@)));
        }
        self.entries = out;
    }

    /// The value of the first entry under a name.
    pub fn get(&self, name: &String) -> (r: Option<&String>)
        ensures
            match r {
                Some(v) => headers_lookup(self.model(), name@) == Some(v@),
                None => headers_lookup(self.model(), name@) is None,
            },
    {
        let mut i: usize = 0;
        while i < self.entries.len()
            invariant
                i <= self.entries.len(),
                forall|j: int| 0 <= j < i ==> (#[trigger] self.model()[j]).0 != name@,
            decreases self.entries.len() - i,
        {
            if self.entries[i].0 == *name {
                proof {
                    lemma_lookup_found(self.model(), name@, i as int);
                }
                return Some(&self.entries[i].1);
            }
            i += 1;
        }
        proof {
            lemma_lookup_absent(self.model(), name@);
        }
        None
    }

    /// How many entries the list holds.
    pub fn len(&self) -> (r: usize)
        ensures
            r == self.model().len(),
    {
        self.entries.len()
    }
}

/// When every entry before position `i` misses the name and position `i`
/// hits it, the lookup returns that entry's value.
pub proof fn lemma_lookup_found(hs: Seq<(Seq<char>, Seq<char>)>, name: Seq<char>, i: int)
    requires
        0 <= i < hs.len(),
        forall|j: int| 0 <= j < i ==> (#[trigger] hs[j]).0 != name,
        hs[i].0 == name,
    ensures
        headers_lookup(hs, name) == Some(hs[i].1),
    decreases i,
{
    if i > 0 {
        assert(hs.skip(1)[i - 1] == hs[i]);
        assert(forall|j: int| 0 <= j < i - 1 ==> (#[trigger] hs.skip(1)[j]).0 != name);
        lemma_lookup_found(hs.skip(1), name, i - 1);
    }
}

/// A request: everything a policy may inspect or rewrite on the way down.
#[derive(Debug)]
pub struct Request {
    /// The request method.
    pub method: Method,
    /// The request URL.
    pub url: Url,
    /// The header list.
    pub headers: Headers,
    /// The request body.
    pub body: Vec<u8>,
}

impl Clone for Request {
    /// A copy with the same method, URL parts, header list and body.
    fn clone(&self) -> (r: Request)
        ensures
            r.method == self.method,
            r.url.base@ == self.url.base@,
            r.url.query@ == self.url.query@,
            r.headers.model() == self.headers.model(),
            r.body@ == self.body@,
    {
        let mut body: Vec<u8> = Vec::new();
        let mut i: usize = 0;
        while i < self.body.len()
            invariant
                i <= self.body.len(),
                body@ =~= self.body@.take(i as int),
            decreases self.body.len() - i,
        {
            body.push(self.body[i]);
            proof {
                assert(body@ =~= self.body@.take(i + 1));
            }
            i += 1;
        }
        proof {
            assert(self.body@.take(self.body@.len() as int) =~= self.body@);
        }
        Request {
            method: self.method,
            url: self.url.clone(),
            headers: self.headers.clone(),
            body,
        }
    }
}

impl Request {
    /// A new request with no headers and an empty body.
    pub fn new(url: Url, method: Method) -> (r: Request)
        ensures
            r.method == method,
            r.url.base@ == url.base@,
            r.url.query@ == url.query@,
            r.headers.model() =~= Seq::<(Seq<char>, Seq<char>)>::empty(),
            r.body@ =~= Seq::<u8>::empty(),
    {
        Request { method, url, headers: Headers::new(), body: Vec::new() }
    }

    /// Sets a header, replacing any entry under the same name.
    pub fn insert_header(&mut self, name: String, value: String)
        ensures
            final(self).headers.model() == headers_with(old(self).headers.model(), name@, value@),
            final(self).method == old(self).method,
            final(self).url == old(self).url,
            final(self).body == old(self).body,
    {
        self.headers.set(name, value);
    }

    /// Replaces the body.
    pub fn set_body(&mut self, body: Vec<u8>)
        ensures
            final(self).body@ == body@,
            final(self).method == old(self).method,
            final(self).url == old(self).url,
            final(self).headers == old(self).headers,
    {
        self.body = body;
    }

    /// Replaces the query string of the request URL in place.
    pub fn set_url_query(&mut self, query: String)
        ensures
            final(self).url.base@ == old(self).url.base@,
            final(self).url.query@ == query@,
            final(self).method == old(self).method,
            final(self).headers == old(self).headers,
            final(self).body == old(self).body,
    {
        self.url.set_query(query);
    }
}

/// The raw response a transport hands back up the chain.
#[derive(Clone, Debug)]
pub struct RawResponse {
    /// The response status code.
    pub status: u16,
    /// The response headers.
    pub headers: Headers,
    /// The response body, fully materialized.
    pub body: Vec<u8>,
}

impl RawResponse {
    /// A response from its status, headers and body.
    pub fn from_bytes(status: u16, headers: Headers, body: Vec<u8>) -> (r: RawResponse)
        ensures
            r.status == status,
            r.headers == headers,
            r.body@ == body@,
    {
        RawResponse { status, headers, body }
    }

    /// The status code.
    pub fn status(&self) -> (r: u16)
        ensures
            r == self.status,
    {
        self.status
    }
}

/// Whether a status code reports success.
pub open spec fn status_is_success(status: u16) -> bool {
    200 <= status < 300
}

/// Reports whether a status code is in the success range.
pub fn is_success_status(status: u16) -> (r: bool)
    ensures
        r == status_is_success(status),
{
    200 <= status && status < 300
}

/// A caller-supplied correlation id, carried through the context.
#[derive(Clone, Debug)]
pub struct ClientRequestId {
    /// The correlation id value.
    pub value: String,
}

impl ClientRequestId {
    /// Wraps a correlation id value.
    pub fn new(value: String) -> (r: ClientRequestId)
        ensures
            r.value@ == value@,
    {
        ClientRequestId { value }
    }
}

/// The request-scoped side channel: one slot per distinct kind of value.
/// It lives for one logical `send` call and is never persisted.
#[derive(Clone, Debug)]
pub struct Context {
    /// The caller-supplied correlation id, if any.
    pub client_request_id: Option<ClientRequestId>,
}

impl Context {
    /// An empty context.
    pub fn new() -> (r: Context)
        ensures
            r.client_request_id is None,
    {
        Context { client_request_id: None }
    }

    /// Stores a caller-supplied correlation id, replacing any earlier one.
    pub fn insert(&mut self, id: ClientRequestId)
        ensures
            final(self).client_request_id == Some(id),
    {
        self.client_request_id = Some(id);
    }

    /// The caller-supplied correlation id, if any.
    pub fn client_request_id(&self) -> (r: &Option<ClientRequestId>)
        ensures
            r == &self.client_request_id,
    {
        &self.client_request_id
    }
}

} // verus!
