//! Signed requests to the exchange: the parameters of a request in the
//! order of their keys, the query text that they make, and the address
//! that carries the query and its signature.

use crate::utils::text::{
    decimal, decimal_text, lemma_order_chains, lemma_order_mirrors, order_bytes, order_of,
    signed_decimal, signed_decimal_text, Order,
};
use vstd::prelude::*;
use vstd::string::{StringExecFns, StringSliceAdditionalSpecFns};
use vstd::utf8::encode_utf8;

verus! {

/// A key and its value, as texts.
pub type Entry = (Seq<char>, Seq<char>);

/// The entries after `value` was stored under `key`: the entry stands
/// after the entries whose keys come before it in the order of their
/// bytes, in place of an entry with the same key, and before the rest.
pub open spec fn with_entry(entries: Seq<Entry>, key: Seq<char>, value: Seq<char>) -> Seq<Entry>
    decreases entries.len(),
{
    if entries.len() == 0 {
        seq![(key, value)]
    } else {
        match order_of(encode_utf8(entries[0].0), encode_utf8(key)) {
            Order::Before => seq![entries[0]] + with_entry(entries.drop_first(), key, value),
            Order::Same => seq![(key, value)] + entries.drop_first(),
            Order::After => seq![(key, value)] + entries,
        }
    }
}

/// The keys grow strictly along the entries, in the order of their bytes.
pub open spec fn in_key_order(entries: Seq<Entry>) -> bool {
    forall|i: int, j: int|
        0 <= i < j < entries.len() ==> order_of(
            encode_utf8(#[trigger] entries[i].0),
            encode_utf8(#[trigger] entries[j].0),
        ) == Order::Before
}

/// One entry as it stands in a query: key, equals sign, value.
pub open spec fn pair_text(entry: Entry) -> Seq<char> {
    entry.0 + seq!['='] + entry.1
}

/// The query that the entries make: their pairs in order, joined by
/// ampersands.
pub open spec fn query_text(entries: Seq<Entry>) -> Seq<char>
    decreases entries.len(),
{
    if entries.len() == 0 {
        Seq::empty()
    } else if entries.len() == 1 {
        pair_text(entries[0])
    } else {
        query_text(entries.drop_last()) + seq!['&'] + pair_text(entries.last())
    }
}

/// The entries of a request: the given parameters, the receive window
/// under the key `recv_window` where one is given, and the time stamp
/// under the key `timestamp`.
pub open spec fn request_entries(
    parameters: Seq<Entry>,
    recv_window: Option<u64>,
    timestamp: i64,
) -> Seq<Entry> {
    let windowed = match recv_window {
        Some(window) => with_entry(parameters, "recv_window"@, decimal(window as nat)),
        None => parameters,
    };
    with_entry(windowed, "timestamp"@, signed_decimal(timestamp as int))
}

/// Storing an entry keeps the keys in order.
pub proof fn law_entries_stay_in_key_order(entries: Seq<Entry>, key: Seq<char>, value: Seq<char>)
    requires
        in_key_order(entries),
    ensures
        in_key_order(with_entry(entries, key, value)),
    decreases entries.len(),
{
    let after = with_entry(entries, key, value);
    if entries.len() > 0 {
        let first = encode_utf8(entries[0].0);
        let rest = entries.drop_first();
        assert forall|i: int, j: int| 0 <= i < j < rest.len() implies order_of(
            encode_utf8(#[trigger] rest[i].0),
            encode_utf8(#[trigger] rest[j].0),
        ) == Order::Before by {
            assert(rest[i] == entries[i + 1] && rest[j] == entries[j + 1]);
        }
        match order_of(first, encode_utf8(key)) {
            Order::Before => {
                law_entries_stay_in_key_order(rest, key, value);
                let tail = with_entry(rest, key, value);
                lemma_keys_of_with_entry(rest, key, value);
                assert forall|i: int, j: int| 0 <= i < j < after.len() implies order_of(
                    encode_utf8(#[trigger] after[i].0),
                    encode_utf8(#[trigger] after[j].0),
                ) == Order::Before by {
                    if i > 0 {
                        assert(after[i] == tail[i - 1] && after[j] == tail[j - 1]);
                    } else {
                        assert(after[j] == tail[j - 1]);
                        if tail[j - 1].0 != key {
                            let k = choose|k: int| 0 <= k < rest.len() && rest[k] == tail[j - 1];
                            assert(rest[k] == entries[k + 1]);
                        }
                    }
                }
            },
            Order::Same => {
                assert forall|i: int, j: int| 0 <= i < j < after.len() implies order_of(
                    encode_utf8(#[trigger] after[i].0),
                    encode_utf8(#[trigger] after[j].0),
                ) == Order::Before by {
                    if i > 0 {
                        assert(after[i] == entries[i] && after[j] == entries[j]);
                    } else {
                        assert(after[j] == entries[j]);
                        crate::utils::text::lemma_same_is_equal(first, encode_utf8(key));
                    }
                }
            },
            Order::After => {
                lemma_order_mirrors(encode_utf8(key), first);
                assert forall|i: int, j: int| 0 <= i < j < after.len() implies order_of(
                    encode_utf8(#[trigger] after[i].0),
                    encode_utf8(#[trigger] after[j].0),
                ) == Order::Before by {
                    if i > 0 {
                        assert(after[i] == entries[i - 1] && after[j] == entries[j - 1]);
                    } else {
                        assert(after[j] == entries[j - 1]);
                        if j > 1 {
                            lemma_order_chains(
                                encode_utf8(key),
                                first,
                                encode_utf8(entries[j - 1].0),
                            );
                        }
                    }
                }
            },
        }
    }
}

/// Every entry after storing is the stored one or one that was there.
proof fn lemma_keys_of_with_entry(entries: Seq<Entry>, key: Seq<char>, value: Seq<char>)
    ensures
        forall|j: int|
            0 <= j < with_entry(entries, key, value).len() ==> (#[trigger] with_entry(
                entries,
                key,
                value,
            )[j]).0 == key || exists|k: int|
                0 <= k < entries.len() && entries[k] == with_entry(entries, key, value)[j],
    decreases entries.len(),
{
    let after = with_entry(entries, key, value);
    if entries.len() > 0 {
        let rest = entries.drop_first();
        match order_of(encode_utf8(entries[0].0), encode_utf8(key)) {
            Order::Before => {
                lemma_keys_of_with_entry(rest, key, value);
                let tail = with_entry(rest, key, value);
                assert forall|j: int| 0 <= j < after.len() implies (#[trigger] after[j]).0 == key
                    || exists|k: int| 0 <= k < entries.len() && entries[k] == after[j] by {
                    if j == 0 {
                        assert(entries[0] == after[0]);
                    } else {
                        assert(after[j] == tail[j - 1]);
                        if tail[j - 1].0 != key {
                            let k = choose|k: int| 0 <= k < rest.len() && rest[k] == tail[j - 1];
                            assert(entries[k + 1] == after[j]);
                        }
                    }
                }
            },
            Order::Same => {
                assert forall|j: int| 0 <= j < after.len() implies (#[trigger] after[j]).0 == key
                    || exists|k: int| 0 <= k < entries.len() && entries[k] == after[j] by {
                    if j > 0 {
                        assert(entries[j] == after[j]);
                    }
                }
            },
            Order::After => {
                assert forall|j: int| 0 <= j < after.len() implies (#[trigger] after[j]).0 == key
                    || exists|k: int| 0 <= k < entries.len() && entries[k] == after[j] by {
                    if j > 0 {
                        assert(entries[j - 1] == after[j]);
                    }
                }
            },
        }
    }
}

/// The parameters of a request, in the order of their keys.
pub struct Parameters {
    entries: Vec<(String, String)>,
}

impl View for Parameters {
    type V = Seq<Entry>;

    closed spec fn view(&self) -> Seq<Entry> {
        entries_of(self.entries@)
    }
}

/// The entries of a list as texts.
pub open spec fn entries_of(list: Seq<(String, String)>) -> Seq<Entry> {
    Seq::new(list.len(), |i: int| (list[i].0@, list[i].1@))
}

impl Parameters {
    #[verifier::type_invariant]
    spec fn keys_in_order(self) -> bool {
        in_key_order(self@)
    }

    pub fn new() -> (r: Parameters)
        ensures
            r@ == Seq::<Entry>::empty(),
            in_key_order(r@),
    {
        let r = Parameters { entries: Vec::new() };
        proof {
            assert(r@ =~= Seq::<Entry>::empty());
        }
        r
    }

    pub fn len(&self) -> (r: usize)
        ensures
            r == self@.len(),
    {
        self.entries.len()
    }

    /// Stores the value under the key; see [`with_entry`]. The keys stay
    /// in the order of their bytes.
    pub fn insert(&mut self, key: String, value: String)
        ensures
            final(self)@ == with_entry(old(self)@, key@, value@),
            in_key_order(old(self)@),
            in_key_order(final(self)@),
    {
        let mut taken = Parameters::new();
        std::mem::swap(self, &mut taken);
        proof {
            use_type_invariant(&taken);
            law_entries_stay_in_key_order(taken@, key@, value@);
        }
        let mut entries = taken.entries;
        Self::store(&mut entries, key, value);
        *self = Parameters { entries };
    }

    /// Stores the value under the key in a list of entries.
    fn store(list: &mut Vec<(String, String)>, key: String, value: String)
        ensures
            entries_of(final(list)@) == with_entry(entries_of(old(list)@), key@, value@),
    {
        let ghost was = entries_of(list@);
        let mut i: usize = 0;
        proof {
            assert(was.take(0) + with_entry(was.skip(0), key@, value@) =~= with_entry(
                was,
                key@,
                value@,
            )) by {
                assert(was.skip(0) =~= was);
            }
        }
        while i < list.len()
            invariant
                i <= list.len(),
                entries_of(list@) == was,
                was == entries_of(old(list)@),
                with_entry(was, key@, value@) == was.take(i as int) + with_entry(
                    was.skip(i as int),
                    key@,
                    value@,
                ),
            decreases list.len() - i,
        {
            let ghost here = was.skip(i as int);
            proof {
                assert(here[0] == was[i as int]);
                assert(here.drop_first() =~= was.skip(i + 1));
                assert(was[i as int].0 == list@[i as int].0@);
            }
            match order_bytes(list[i].0.as_str().as_bytes(), key.as_str().as_bytes()) {
                Order::Before => {
                    proof {
                        assert(was.take(i as int) + (seq![here[0]] + with_entry(
                            here.drop_first(),
                            key@,
                            value@,
                        )) =~= was.take(i + 1) + with_entry(was.skip(i + 1), key@, value@));
                    }
                    i = i + 1;
                },
                Order::Same => {
                    let ghost stored = (key@, value@);
                    proof {
                        assert(with_entry(here, key@, value@) == seq![stored] + here.drop_first());
                    }
                    list.set(i, (key, value));
                    proof {
                        assert(entries_of(list@) =~= was.take(i as int) + (seq![stored]
                            + here.drop_first()));
                    }
                    return ;
                },
                Order::After => {
                    let ghost stored = (key@, value@);
                    proof {
                        assert(with_entry(here, key@, value@) == seq![stored] + here);
                    }
                    list.insert(i, (key, value));
                    proof {
                        assert(entries_of(list@) =~= was.take(i as int) + (seq![stored] + here));
                    }
                    return ;
                },
            }
        }
        list.push((key, value));
        proof {
            assert(was.skip(was.len() as int) =~= Seq::<Entry>::empty());
            assert(entries_of(list@) =~= was.take(was.len() as int) + seq![(key@, value@)]);
        }
    }

    /// The query that the parameters make, key by key in their order;
    /// see [`query_text`].
    pub fn query(&self) -> (r: String)
        ensures
            r@ == query_text(self@),
            in_key_order(self@),
    {
        proof {
            use_type_invariant(self);
        }
        let mut request = String::new();
        let mut i: usize = 0;
        proof {
            assert(self@.take(0) =~= Seq::<Entry>::empty());
        }
        while i < self.entries.len()
            invariant
                i <= self.entries.len(),
                request@ == query_text(self@.take(i as int)),
            decreases self.entries.len() - i,
        {
            proof {
                assert(self@.take(i + 1).drop_last() =~= self@.take(i as int));
                assert(self@.take(i + 1).last() == self@[i as int]);
            }
            let ghost before = request@;
            if i > 0 {
                request.append("&");
            }
            request.append(self.entries[i].0.as_str());
            request.append("=");
            request.append(self.entries[i].1.as_str());
            proof {
                reveal_strlit("&");
                reveal_strlit("=");
                assert("&"@ =~= seq!['&']);
                assert("="@ =~= seq!['=']);
                let pair = pair_text(self@[i as int]);
                if i > 0 {
                    assert(request@ =~= before + seq!['&'] + pair);
                } else {
                    assert(request@ =~= pair);
                }
            }
            i = i + 1;
        }
        proof {
            assert(self@.take(self.entries.len() as int) =~= self@);
        }
        request
    }
}

/// The lowercase hexadecimal digit for a number below sixteen.
pub open spec fn hex_digit(n: int) -> char {
    if n == 0 {
        '0'
    } else if n == 1 {
        '1'
    } else if n == 2 {
        '2'
    } else if n == 3 {
        '3'
    } else if n == 4 {
        '4'
    } else if n == 5 {
        '5'
    } else if n == 6 {
        '6'
    } else if n == 7 {
        '7'
    } else if n == 8 {
        '8'
    } else if n == 9 {
        '9'
    } else if n == 10 {
        'a'
    } else if n == 11 {
        'b'
    } else if n == 12 {
        'c'
    } else if n == 13 {
        'd'
    } else if n == 14 {
        'e'
    } else {
        'f'
    }
}

/// The bytes in lowercase hexadecimal, two digits for each byte, the high
/// one first.
pub open spec fn hex_text(bytes: Seq<u8>) -> Seq<char>
    decreases bytes.len(),
{
    if bytes.len() == 0 {
        Seq::empty()
    } else {
        hex_text(bytes.drop_last()).push(hex_digit((bytes.last() / 16) as int)).push(
            hex_digit((bytes.last() % 16) as int),
        )
    }
}

/// The authentication tag that HMAC with SHA-256 gives a message under a
/// key.
pub uninterp spec fn hmac_sha256_tag(key: Seq<u8>, message: Seq<u8>) -> Seq<u8>;

/// `hmac::digest::InvalidLength`: a key was refused for its length.
#[verifier::external_type_specification]
#[verifier::external_body]
pub struct ExInvalidLength(hmac::digest::InvalidLength);

/// `hmac::Hmac::<sha2::Sha256>::new_from_slice`, `update` and `finalize`:
/// the tag of the message under the key. HMAC takes a key of any length,
/// so the key is always accepted; the contract says so, and names the tag.
#[verifier::external_body]
fn authenticate(key: &[u8], message: &[u8]) -> (r: Result<Vec<u8>, hmac::digest::InvalidLength>)
    ensures
        r is Ok,
        r->Ok_0@ == hmac_sha256_tag(key@, message@),
{
    match <hmac::Hmac<sha2::Sha256> as hmac::Mac>::new_from_slice(key) {
        Ok(mut signed_key) => {
            hmac::Mac::update(&mut signed_key, message);
            Ok(hmac::Mac::finalize(signed_key).into_bytes().to_vec())
        },
        Err(e) => Err(e),
    }
}

/// `hex::encode`: the bytes in lowercase hexadecimal, two digits for each
/// byte.
#[verifier::external_body]
fn hex_encode(bytes: &Vec<u8>) -> (r: String)
    ensures
        r@ == hex_text(bytes@),
{
    hex::encode(bytes)
}

/// What the client of the exchange is configured with.
pub struct BinanceSpotClient {
    pub base_url: String,
    pub api_key: String,
    pub secret_key: String,
    pub user_agent: String,
    pub content_type: String,
}

/// What follows the question mark of a signed address: the query where
/// there is one, then the signature under the key `signature`.
pub open spec fn signed_query(request: Option<Seq<char>>, signature: Seq<char>) -> Seq<char> {
    match request {
        Some(query) => query + "&signature="@ + signature,
        None => "&signature="@ + signature,
    }
}

/// The address of a signed request: the base address, the path of the
/// endpoint, a question mark, and the signed query.
pub open spec fn signed_url(
    base_url: Seq<char>,
    endpoint: Seq<char>,
    request: Option<Seq<char>>,
    signature: Seq<char>,
) -> Seq<char> {
    base_url + endpoint + "?"@ + signed_query(request, signature)
}

/// The text of an optional query.
pub open spec fn text_of(request: Option<String>) -> Option<Seq<char>> {
    match request {
        Some(query) => Some(query@),
        None => None,
    }
}

/// The bytes that are signed: those of the query, none where there is no
/// query.
pub open spec fn signed_bytes(request: Option<String>) -> Seq<u8> {
    match request {
        Some(query) => encode_utf8(query@),
        None => Seq::empty(),
    }
}

impl BinanceSpotClient {
    pub fn new(
        base_url: &str,
        api_key: &str,
        secret_key: &str,
        user_agent: &str,
        content_type: &str,
    ) -> (r: BinanceSpotClient)
        ensures
            r.base_url@ == base_url@,
            r.api_key@ == api_key@,
            r.secret_key@ == secret_key@,
            r.user_agent@ == user_agent@,
            r.content_type@ == content_type@,
    {
        BinanceSpotClient {
            base_url: base_url.to_owned(),
            api_key: api_key.to_owned(),
            secret_key: secret_key.to_owned(),
            user_agent: user_agent.to_owned(),
            content_type: content_type.to_owned(),
        }
    }

    /// The query of a request; see [`request_entries`]. `timestamp` is the
    /// present moment in milliseconds.
    pub fn build_request(parameters: Parameters, recv_window: Option<u64>, timestamp: i64) -> (r:
        Option<String>)
        ensures
            r is Some,
            r->0@ == query_text(request_entries(parameters@, recv_window, timestamp)),
    {
        let mut parameters = parameters;
        match recv_window {
            Some(window) => {
                parameters.insert("recv_window".to_owned(), decimal_text(window));
            },
            None => {},
        }
        parameters.insert("timestamp".to_owned(), signed_decimal_text(timestamp));
        Some(parameters.query())
    }

    /// The address of a request with the given signature; see
    /// [`signed_url`].
    pub fn signed_address(&self, endpoint: &str, request: &Option<String>, signature: &str) -> (r:
        String)
        ensures
            r@ == signed_url(self.base_url@, endpoint@, text_of(*request), signature@),
    {
        let mut url = self.base_url.clone();
        url.append(endpoint);
        url.append("?");
        match request {
            Some(query) => {
                url.append(query.as_str());
            },
            None => {},
        }
        url.append("&signature=");
        url.append(signature);
        proof {
            let body = signed_query(text_of(*request), signature@);
            match request {
                Some(query) => {
                    assert(url@ =~= self.base_url@ + endpoint@ + "?"@ + (query@ + "&signature="@
                        + signature@));
                },
                None => {
                    assert(url@ =~= self.base_url@ + endpoint@ + "?"@ + ("&signature="@
                        + signature@));
                },
            }
        }
        url
    }

    /// The address of a signed request. The signature is the tag of the
    /// query under the secret key, in hexadecimal.
    pub fn sign_request(&self, endpoint: &str, request: Option<String>) -> (r: String)
        ensures
            r@ == signed_url(
                self.base_url@,
                endpoint@,
                text_of(request),
                hex_text(hmac_sha256_tag(encode_utf8(self.secret_key@), signed_bytes(request))),
            ),
    {
        let empty: Vec<u8> = Vec::new();
        let signed = match &request {
            Some(query) => authenticate(
                self.secret_key.as_str().as_bytes(),
                query.as_str().as_bytes(),
            ),
            None => authenticate(self.secret_key.as_str().as_bytes(), empty.as_slice()),
        };
        let signature = match signed {
            Ok(tag) => hex_encode(&tag),
            Err(_) => String::new(),
        };
        self.signed_address(endpoint, &request, signature.as_str())
    }
}

} // verus!
