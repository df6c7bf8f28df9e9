//! The signer: from a request body, a secret key and a point in time to the
//! authentication headers of one request.

use vstd::prelude::*;
use vstd::string::*;
use crate::digest::{is_hex_digest, md5_hash, md5_hex};
use crate::request::{serialize_request, BaichuanReq};
use crate::text::{decimal, render_decimal, str_eq};

verus! {

/// The text that is digested: the secret key, the body and the time in
/// decimal, one after the other with nothing between them.
pub open spec fn signature_input(
    secret_key: Seq<char>,
    body: Seq<char>,
    timestamp: int,
) -> Seq<char> {
    secret_key + body + decimal(timestamp)
}

/// The signature of a body under a secret key at a point in time.
pub open spec fn signature_of(
    secret_key: Seq<char>,
    body: Seq<char>,
    timestamp: int,
) -> Seq<char> {
    md5_hex(signature_input(secret_key, body, timestamp))
}

/// Computes the signature of `body` under `secret_key` at `timestamp`
/// (seconds since the epoch).
pub fn compute_signature(secret_key: &str, body: &str, timestamp: i64) -> (r: String)
    ensures
        r@ == signature_of(secret_key@, body@, timestamp as int),
        is_hex_digest(r@),
{
    let mut input = String::from_str(secret_key);
    input.append(body);
    let time = render_decimal(timestamp);
    input.append(time.as_str());
    md5_hash(input.as_str())
}

/// The six header names, in the order in which the signer writes them.
pub open spec fn header_names() -> Seq<Seq<char>> {
    seq![
        "Content-Type"@,
        "Authorization"@,
        "X-BC-Request-Id"@,
        "X-BC-Timestamp"@,
        "X-BC-Signature"@,
        "X-BC-Sign-Algo"@,
    ]
}

/// The headers of a request: each of the six names with its value.
pub open spec fn header_entries(
    api_key: Seq<char>,
    secret_key: Seq<char>,
    body: Seq<char>,
    timestamp: int,
    request_id: Seq<char>,
) -> Seq<(Seq<char>, Seq<char>)> {
    seq![
        ("Content-Type"@, "application/json"@),
        ("Authorization"@, "Bearer "@ + api_key),
        ("X-BC-Request-Id"@, request_id),
        ("X-BC-Timestamp"@, decimal(timestamp)),
        ("X-BC-Signature"@, signature_of(secret_key, body, timestamp)),
        ("X-BC-Sign-Algo"@, "MD5"@),
    ]
}

/// Whether `pairs` are the headers of a request signed at `timestamp`, a
/// number of seconds that fits in 64 bits.
pub open spec fn is_signed_at(
    pairs: Seq<(Seq<char>, Seq<char>)>,
    api_key: Seq<char>,
    secret_key: Seq<char>,
    body: Seq<char>,
    timestamp: int,
    request_id: Seq<char>,
) -> bool {
    &&& i64::MIN <= timestamp <= i64::MAX
    &&& pairs == header_entries(api_key, secret_key, body, timestamp, request_id)
}

/// The value that `pairs` gives to `name`: that of the first pair with this
/// name.
pub open spec fn lookup(pairs: Seq<(Seq<char>, Seq<char>)>, name: Seq<char>) -> Option<Seq<char>>
    decreases pairs.len(),
{
    if pairs.len() == 0 {
        None
    } else if pairs[0].0 == name {
        Some(pairs[0].1)
    } else {
        lookup(pairs.drop_first(), name)
    }
}

/// The six header names differ from each other.
pub proof fn lemma_header_names_distinct()
    ensures
        header_names().len() == 6,
        header_names().no_duplicates(),
{
    reveal_strlit("Content-Type");
    reveal_strlit("Authorization");
    reveal_strlit("X-BC-Request-Id");
    reveal_strlit("X-BC-Timestamp");
    reveal_strlit("X-BC-Signature");
    reveal_strlit("X-BC-Sign-Algo");
    let names = header_names();
    assert(names[0].len() == 12);
    assert(names[1].len() == 13);
    assert(names[2].len() == 15);
    assert(names[3].len() == 14 && names[3][5] == 'T');
    assert(names[4].len() == 14 && names[4][5] == 'S' && names[4][9] == 'a');
    assert(names[5].len() == 14 && names[5][5] == 'S' && names[5][9] == '-');
}

/// Whatever the keys, the body, the time and the identifier are, the headers
/// are six, their names are the six fixed names, each of these names has the
/// value written beside it, and no other name has a value.
pub proof fn lemma_headers_have_fixed_names(
    api_key: Seq<char>,
    secret_key: Seq<char>,
    body: Seq<char>,
    timestamp: int,
    request_id: Seq<char>,
)
    ensures
        ({
            let entries = header_entries(api_key, secret_key, body, timestamp, request_id);
            &&& entries.len() == 6
            &&& entries.map_values(|e: (Seq<char>, Seq<char>)| e.0) == header_names()
            &&& header_names().no_duplicates()
            &&& forall|i: int|
                0 <= i < 6 ==> lookup(entries, #[trigger] header_names()[i]) == Some(entries[i].1)
            &&& forall|name: Seq<char>|
                !header_names().contains(name) ==> (#[trigger] lookup(entries, name)) is None
        }),
{
    let entries = header_entries(api_key, secret_key, body, timestamp, request_id);
    lemma_header_names_distinct();
    assert(entries.map_values(|e: (Seq<char>, Seq<char>)| e.0) =~= header_names());
    let names = header_names();
    let e1 = entries.drop_first();
    let e2 = e1.drop_first();
    let e3 = e2.drop_first();
    let e4 = e3.drop_first();
    let e5 = e4.drop_first();
    assert(e1[0] == entries[1] && e2[0] == entries[2] && e3[0] == entries[3] && e4[0]
        == entries[4] && e5[0] == entries[5]);
    assert forall|i: int| 0 <= i < 6 implies lookup(entries, #[trigger] header_names()[i]) == Some(
        entries[i].1,
    ) by {
        reveal_with_fuel(lookup, 7);
        assert(names[i] == entries[i].0);
        assert(forall|j: int| 0 <= j < i ==> names[j] != names[i]);
    }
    assert forall|name: Seq<char>| !header_names().contains(name) implies (#[trigger] lookup(
        entries,
        name,
    )) is None by {
        reveal_with_fuel(lookup, 7);
        assert(forall|j: int| 0 <= j < 6 ==> names[j] != name);
        assert(names[0] != name && names[1] != name && names[2] != name && names[3] != name
            && names[4] != name && names[5] != name);
        assert(e5.drop_first().len() == 0);
    }
}

/// The signature does not depend on the API key or the request identifier,
/// and equal inputs give equal signatures.
pub proof fn lemma_signature_deterministic(
    secret_key: Seq<char>,
    body: Seq<char>,
    timestamp: int,
    api_key_a: Seq<char>,
    request_id_a: Seq<char>,
    api_key_b: Seq<char>,
    request_id_b: Seq<char>,
)
    ensures
        header_entries(api_key_a, secret_key, body, timestamp, request_id_a)[4].1
            == header_entries(api_key_b, secret_key, body, timestamp, request_id_b)[4].1,
        header_entries(api_key_a, secret_key, body, timestamp, request_id_a)[4].1 == md5_hex(
            secret_key + body + decimal(timestamp),
        ),
{
}

/// The authentication headers of one request: names with their values.
#[derive(Debug, Clone)]
pub struct SignedHeaders {
    entries: Vec<(String, String)>,
}

impl SignedHeaders {
    /// The names and values held, in order.
    pub closed spec fn pairs(&self) -> Seq<(Seq<char>, Seq<char>)> {
        Seq::new(self.entries@.len(), |i: int| (self.entries@[i].0@, self.entries@[i].1@))
    }

    /// The number of headers.
    pub fn len(&self) -> (r: usize)
        ensures
            r == self.pairs().len(),
    {
        self.entries.len()
    }

    /// The name of the header at `index`.
    pub fn name_at(&self, index: usize) -> (r: &String)
        requires
            index < self.pairs().len(),
        ensures
            r@ == self.pairs()[index as int].0,
    {
        &self.entries[index].0
    }

    /// The value of the header at `index`.
    pub fn value_at(&self, index: usize) -> (r: &String)
        requires
            index < self.pairs().len(),
        ensures
            r@ == self.pairs()[index as int].1,
    {
        &self.entries[index].1
    }

    /// The value of the header `name`, if there is such a header.
    pub fn get(&self, name: &str) -> (r: Option<&String>)
        ensures
            match r {
                Some(value) => lookup(self.pairs(), name@) == Some(value@),
                None => lookup(self.pairs(), name@) is None,
            },
    {
        let mut i: usize = 0;
        assert(self.pairs().skip(0) =~= self.pairs());
        while i < self.entries.len()
            invariant
                i <= self.entries.len(),
                lookup(self.pairs(), name@) == lookup(self.pairs().skip(i as int), name@),
            decreases self.entries.len() - i,
        {
            let ghost rest = self.pairs().skip(i as int);
            proof {
                assert(rest[0] == self.pairs()[i as int]);
                assert(rest.drop_first() =~= self.pairs().skip(i + 1));
            }
            if str_eq(self.entries[i].0.as_str(), name) {
                return Some(&self.entries[i].1);
            }
            i = i + 1;
        }
        None
    }
}

/// Calls `chrono::Utc::now` and `timestamp` on the result: the seconds since
/// the epoch on this machine's clock. Nothing is claimed of the number.
#[verifier::external_body]
fn unix_now() -> (r: i64) {
    chrono::Utc::now().timestamp()
}

/// Calls `ulid::Ulid::new` and `to_string` on the result. Trusted: the text
/// has the 26 characters of the canonical encoding. Which characters they are
/// depends on the clock and on chance.
#[verifier::external_body]
fn new_request_id() -> (r: String)
    ensures
        r@.len() == 26,
{
    ulid::Ulid::new().to_string()
}

/// The headers for `body` at the time `timestamp`, under the identifier
/// `request_id`.
pub fn sign_at(
    api_key: &str,
    secret_key: &str,
    body: &str,
    timestamp: i64,
    request_id: &str,
) -> (r: SignedHeaders)
    ensures
        r.pairs() == header_entries(
            api_key@,
            secret_key@,
            body@,
            timestamp as int,
            request_id@,
        ),
{
    let mut authorization = String::from_str("Bearer ");
    authorization.append(api_key);
    let time = render_decimal(timestamp);
    let signature = compute_signature(secret_key, body, timestamp);
    let mut entries: Vec<(String, String)> = Vec::new();
    entries.push((String::from_str("Content-Type"), String::from_str("application/json")));
    entries.push((String::from_str("Authorization"), authorization));
    entries.push((String::from_str("X-BC-Request-Id"), String::from_str(request_id)));
    entries.push((String::from_str("X-BC-Timestamp"), time));
    entries.push((String::from_str("X-BC-Signature"), signature));
    entries.push((String::from_str("X-BC-Sign-Algo"), String::from_str("MD5")));
    let r = SignedHeaders { entries };
    assert(r.pairs() =~= header_entries(
        api_key@,
        secret_key@,
        body@,
        timestamp as int,
        request_id@,
    ));
    r
}

/// Signs `body` now: reads the clock, draws a fresh request identifier, and
/// returns the headers with the identifier.
pub fn sign(api_key: &str, secret_key: &str, body: &str) -> (r: (SignedHeaders, String))
    ensures
        r.1@.len() == 26,
        exists|timestamp: int| #[trigger]
            is_signed_at(r.0.pairs(), api_key@, secret_key@, body@, timestamp, r.1@),
{
    let timestamp = unix_now();
    let request_id = new_request_id();
    let headers = sign_at(api_key, secret_key, body, timestamp, request_id.as_str());
    let r = (headers, request_id);
    assert(is_signed_at(r.0.pairs(), api_key@, secret_key@, body@, timestamp as int, r.1@));
    r
}

/// The headers and the request identifier for `data`, signed now over the
/// canonical text of `data`. It always succeeds.
pub fn generate_header(api_key: &String, secret_key: &String, data: &BaichuanReq) -> (r: Result<
    (SignedHeaders, String),
    String,
>)
    ensures
        r is Ok,
        r.unwrap().1@.len() == 26,
        exists|timestamp: int| #[trigger]
            is_signed_at(
                r.unwrap().0.pairs(),
                api_key@,
                secret_key@,
                data.encoding(),
                timestamp,
                r.unwrap().1@,
            ),
{
    let body = serialize_request(data);
    Ok(sign(api_key.as_str(), secret_key.as_str(), body.as_str()))
}

} // verus!
