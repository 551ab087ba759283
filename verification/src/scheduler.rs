//! Messages exchanged with the resource scheduler service.
use vstd::prelude::*;
use vstd::utf8::{decode_utf8, encode_utf8, valid_utf8};
use crate::wire::{
    append_bytes, bytes_field, fields_view, lemma_read_bytes_field, lemma_read_varint_field,
    lemma_varint_len, pow128, read_all_fields, read_fields, varint, varint_field,
    write_bytes_field, write_varint_field, Field, WireField,
};

verus! {

/// The message without fields, used by the `Test` method.
#[derive(Clone, Copy, Debug, PartialEq, Eq, Structural)]
pub struct Empty {}

impl Empty {
    pub fn new() -> (r: Empty)
        ensures
            r == (Empty {}),
    {
        Empty {}
    }
}

/// Asks the scheduler for access to a named resource class.
#[derive(Clone, Debug)]
pub struct AccessResource {
    /// The resource class that is asked for (such as `C2`).
    pub request_resource: String,
    /// A name for this request, unique per caller.
    pub name: String,
}

impl AccessResource {
    /// A request with both fields empty.
    pub fn new() -> (r: AccessResource)
        ensures
            r.request_resource@ == Seq::<char>::empty(),
            r.name@ == Seq::<char>::empty(),
    {
        AccessResource { request_resource: String::new(), name: String::new() }
    }

    pub fn set_request_resource(&mut self, v: String)
        ensures
            final(self).request_resource@ == v@,
            final(self).name@ == old(self).name@,
    {
        self.request_resource = v;
    }

    pub fn set_name(&mut self, v: String)
        ensures
            final(self).name@ == v@,
            final(self).request_resource@ == old(self).request_resource@,
    {
        self.name = v;
    }

    pub fn get_request_resource(&self) -> (r: &str)
        ensures
            r@ == self.request_resource@,
    {
        self.request_resource.as_str()
    }

    pub fn get_name(&self) -> (r: &str)
        ensures
            r@ == self.name@,
    {
        self.name.as_str()
    }
}

/// The token that the scheduler hands out for a granted resource.
#[derive(Clone, Copy, Debug, PartialEq, Eq, Structural)]
pub struct ResourceToken {
    pub token: u64,
}

impl ResourceToken {
    /// The default token (zero).
    pub fn new() -> (r: ResourceToken)
        ensures
            r.token == 0,
    {
        ResourceToken { token: 0 }
    }

    pub fn get_token(&self) -> (r: u64)
        ensures
            r == self.token,
    {
        self.token
    }

    pub fn set_token(&mut self, v: u64)
        ensures
            final(self).token == v,
    {
        self.token = v;
    }
}

/// The scheduler's answer to an `AccessResource` request: a token when access was granted.
#[derive(Clone, Copy, Debug, PartialEq, Eq, Structural)]
pub struct ResourceResult {
    pub token: Option<ResourceToken>,
}

impl ResourceResult {
    /// An answer without a token.
    pub fn new() -> (r: ResourceResult)
        ensures
            r.token is None,
    {
        ResourceResult { token: None }
    }

    pub fn has_token(&self) -> (r: bool)
        ensures
            r == self.token is Some,
    {
        self.token.is_some()
    }

    /// The token, or the default token when the answer holds none.
    pub fn get_token(&self) -> (r: ResourceToken)
        ensures
            r == (match self.token {
                Some(t) => t,
                None => ResourceToken { token: 0 },
            }),
    {
        match self.token {
            Some(t) => t,
            None => ResourceToken { token: 0 },
        }
    }

    pub fn set_token(&mut self, v: ResourceToken)
        ensures
            final(self).token == Some(v),
    {
        self.token = Some(v);
    }
}

/// The scheduler's acknowledgement of `RemoveGuard` and `Ping`.
#[derive(Clone, Copy, Debug, PartialEq, Eq, Structural)]
pub struct ExecResult {}

impl ExecResult {
    pub fn new() -> (r: ExecResult)
        ensures
            r == (ExecResult {}),
    {
        ExecResult {}
    }
}

// ---------------------------------------------------------------- wire encoding
//
// Field layout: `AccessResource` has `request_resource` as string field 1 and `name` as string
// field 2; `ResourceToken` has `token` as uint64 field 1; `ResourceResult` has `token` as message
// field 1; `Empty` and `ExecResult` have no fields. Fields at their default (empty string, zero,
// absent message) are not written.

/// The encoding of an `AccessResource`.
pub open spec fn encode_access_resource(request_resource: Seq<char>, name: Seq<char>) -> Seq<u8> {
    (if request_resource.len() == 0 {
        Seq::empty()
    } else {
        bytes_field(10, encode_utf8(request_resource))
    }) + (if name.len() == 0 {
        Seq::empty()
    } else {
        bytes_field(18, encode_utf8(name))
    })
}

/// The encoding of a `ResourceToken`.
pub open spec fn encode_resource_token(token: u64) -> Seq<u8> {
    if token == 0 {
        Seq::empty()
    } else {
        varint_field(8, token as nat)
    }
}

/// The encoding of a `ResourceResult`.
pub open spec fn encode_resource_result(token: Option<ResourceToken>) -> Seq<u8> {
    match token {
        Some(t) => bytes_field(10, encode_resource_token(t.token)),
        None => Seq::empty(),
    }
}

/// Takes one more field into a partly read `AccessResource`: a string field 1 or 2 sets that
/// field (its payload must be UTF-8), a varint, fixed or group field with number 1 or 2 is an error,
/// any other field is skipped.
pub open spec fn access_resource_field(acc: Option<(Seq<char>, Seq<char>)>, f: WireField) -> Option<
    (Seq<char>, Seq<char>),
> {
    match acc {
        None => None,
        Some((request_resource, name)) => match f {
            WireField::Bytes(n, p) => if n == 1 {
                if valid_utf8(p) {
                    Some((decode_utf8(p), name))
                } else {
                    None
                }
            } else if n == 2 {
                if valid_utf8(p) {
                    Some((request_resource, decode_utf8(p)))
                } else {
                    None
                }
            } else {
                acc
            },
            WireField::Varint(n, _) => if n == 1 || n == 2 {
                None
            } else {
                acc
            },
            WireField::Fixed(n) | WireField::Group(n) => if n == 1 || n == 2 {
                None
            } else {
                acc
            },
        },
    }
}

/// An `AccessResource` read from its fields, in order.
pub open spec fn access_resource_fields(fs: Seq<WireField>) -> Option<(Seq<char>, Seq<char>)>
    decreases fs.len(),
{
    if fs.len() == 0 {
        Some((Seq::empty(), Seq::empty()))
    } else {
        access_resource_field(access_resource_fields(fs.drop_last()), fs.last())
    }
}

/// What bytes decode to as an `AccessResource` (its request resource and name), if anything.
pub open spec fn decode_access_resource(b: Seq<u8>) -> Option<(Seq<char>, Seq<char>)> {
    match read_fields(b) {
        Some(fs) => access_resource_fields(fs),
        None => None,
    }
}

/// Takes one more field into a partly read `ResourceToken`: a varint field 1 sets the token,
/// another wire type for field 1 is an error, any other field is skipped.
pub open spec fn resource_token_field(acc: Option<u64>, f: WireField) -> Option<u64> {
    match acc {
        None => None,
        Some(_) => match f {
            WireField::Varint(n, v) => if n == 1 {
                Some(v)
            } else {
                acc
            },
            WireField::Bytes(n, _) => if n == 1 {
                None
            } else {
                acc
            },
            WireField::Fixed(n) | WireField::Group(n) => if n == 1 {
                None
            } else {
                acc
            },
        },
    }
}

/// A `ResourceToken` read from its fields, in order.
pub open spec fn resource_token_fields(fs: Seq<WireField>) -> Option<u64>
    decreases fs.len(),
{
    if fs.len() == 0 {
        Some(0)
    } else {
        resource_token_field(resource_token_fields(fs.drop_last()), fs.last())
    }
}

/// What bytes decode to as a `ResourceToken` (its token), if anything.
pub open spec fn decode_resource_token(b: Seq<u8>) -> Option<u64> {
    match read_fields(b) {
        Some(fs) => resource_token_fields(fs),
        None => None,
    }
}

/// Takes one more field into a partly read `ResourceResult`: the payloads of every message
/// field 1 are joined (later occurrences merge into earlier ones), another wire type for field 1
/// is an error, any other field is skipped.
pub open spec fn resource_result_field(acc: Option<Option<Seq<u8>>>, f: WireField) -> Option<
    Option<Seq<u8>>,
> {
    match acc {
        None => None,
        Some(joined) => match f {
            WireField::Bytes(n, p) => if n == 1 {
                match joined {
                    Some(q) => Some(Some(q + p)),
                    None => Some(Some(p)),
                }
            } else {
                acc
            },
            WireField::Varint(n, _) => if n == 1 {
                None
            } else {
                acc
            },
            WireField::Fixed(n) | WireField::Group(n) => if n == 1 {
                None
            } else {
                acc
            },
        },
    }
}

/// The joined payloads of a `ResourceResult`'s token field, read from its fields in order.
pub open spec fn resource_result_fields(fs: Seq<WireField>) -> Option<Option<Seq<u8>>>
    decreases fs.len(),
{
    if fs.len() == 0 {
        Some(None)
    } else {
        resource_result_field(resource_result_fields(fs.drop_last()), fs.last())
    }
}

/// What bytes decode to as a `ResourceResult` (its token, if it has one), if anything.
pub open spec fn decode_resource_result(b: Seq<u8>) -> Option<Option<u64>> {
    match read_fields(b) {
        Some(fs) => match resource_result_fields(fs) {
            Some(None) => Some(None),
            Some(Some(p)) => match decode_resource_token(p) {
                Some(t) => Some(Some(t)),
                None => None,
            },
            None => None,
        },
        None => None,
    }
}

/// Calls `std::str::from_utf8`. Claimed, as its documentation gives it: the bytes are accepted
/// exactly when they are valid UTF-8, and the text is the characters they encode.
#[verifier::external_body]
fn utf8_text(b: &[u8]) -> (r: Option<&str>)
    ensures
        (r is Some) == valid_utf8(b@),
        r matches Some(s) ==> s@ == decode_utf8(b@),
{
    std::str::from_utf8(b).ok()
}

impl AccessResource {
    /// The wire encoding of this message.
    pub fn write_to_bytes(&self) -> (out: Vec<u8>)
        ensures
            out@ == encode_access_resource(self.request_resource@, self.name@),
    {
        let mut out: Vec<u8> = Vec::new();
        let rr = self.request_resource.as_str();
        if !rr.is_empty() {
            write_bytes_field(&mut out, 10, rr.as_bytes());
        }
        let name = self.name.as_str();
        if !name.is_empty() {
            write_bytes_field(&mut out, 18, name.as_bytes());
        }
        out
    }

    /// Reads a message from its wire encoding.
    pub fn parse_from_bytes(b: &[u8]) -> (r: Option<AccessResource>)
        ensures
            match decode_access_resource(b@) {
                Some((rr, name)) => r matches Some(m) && m.request_resource@ == rr && m.name@ == name,
                None => r is None,
            },
    {
        let fields = match read_all_fields(b) {
            Some(f) => f,
            None => return None,
        };
        let ghost fs = fields_view(fields@);
        let mut m = AccessResource::new();
        let mut i: usize = 0;
        assert(fs.take(0) =~= Seq::<WireField>::empty());
        while i < fields.len()
            invariant
                i <= fields@.len(),
                fs == fields_view(fields@),
                access_resource_fields(fs.take(i as int)) == Some((m.request_resource@, m.name@)),
                decode_access_resource(b@) == access_resource_fields(fs),
            decreases fields@.len() - i,
        {
            let ghost before = fs.take(i as int);
            assert(fs.take(i + 1).drop_last() =~= before);
            assert(fs.take(i + 1).last() == fields@[i as int]@);
            match &fields[i] {
                Field::Bytes(n, p) => {
                    if *n == 1 || *n == 2 {
                        match utf8_text(p.as_slice()) {
                            Some(t) => {
                                if *n == 1 {
                                    m.set_request_resource(String::from_str(t));
                                } else {
                                    m.set_name(String::from_str(t));
                                }
                            },
                            None => {
                                proof {
                                    lemma_access_fields_fail(fs, i as int);
                                }
                                return None;
                            },
                        }
                    }
                },
                Field::Varint(n, _) => {
                    if *n == 1 || *n == 2 {
                        proof {
                            lemma_access_fields_fail(fs, i as int);
                        }
                        return None;
                    }
                },
                Field::Fixed(n) | Field::Group(n) => {
                    if *n == 1 || *n == 2 {
                        proof {
                            lemma_access_fields_fail(fs, i as int);
                        }
                        return None;
                    }
                },
            }
            i = i + 1;
        }
        assert(fs.take(fields@.len() as int) =~= fs);
        Some(m)
    }
}

proof fn lemma_access_fields_fail(fs: Seq<WireField>, i: int)
    requires
        0 <= i < fs.len(),
        access_resource_field(access_resource_fields(fs.take(i)), fs[i]) is None,
    ensures
        access_resource_fields(fs) is None,
    decreases fs.len(),
{
    if i == fs.len() - 1 {
        assert(fs.drop_last() =~= fs.take(i));
    } else {
        assert(fs.drop_last().take(i) =~= fs.take(i));
        lemma_access_fields_fail(fs.drop_last(), i);
    }
}

fn token_from_fields(fields: &Vec<Field>) -> (r: Option<u64>)
    ensures
        r == resource_token_fields(fields_view(fields@)),
{
    let ghost fs = fields_view(fields@);
    let mut token: u64 = 0;
    let mut i: usize = 0;
    assert(fs.take(0) =~= Seq::<WireField>::empty());
    while i < fields.len()
        invariant
            i <= fields@.len(),
            fs == fields_view(fields@),
            resource_token_fields(fs.take(i as int)) == Some(token),
        decreases fields@.len() - i,
    {
        assert(fs.take(i + 1).drop_last() =~= fs.take(i as int));
        assert(fs.take(i + 1).last() == fields@[i as int]@);
        match &fields[i] {
            Field::Varint(n, v) => {
                if *n == 1 {
                    token = *v;
                }
            },
            Field::Bytes(n, _) => {
                if *n == 1 {
                    proof {
                        lemma_token_fields_fail(fs, i as int);
                    }
                    return None;
                }
            },
            Field::Fixed(n) | Field::Group(n) => {
                if *n == 1 {
                    proof {
                        lemma_token_fields_fail(fs, i as int);
                    }
                    return None;
                }
            },
        }
        i = i + 1;
    }
    assert(fs.take(fields@.len() as int) =~= fs);
    Some(token)
}

proof fn lemma_token_fields_fail(fs: Seq<WireField>, i: int)
    requires
        0 <= i < fs.len(),
        resource_token_field(resource_token_fields(fs.take(i)), fs[i]) is None,
    ensures
        resource_token_fields(fs) is None,
    decreases fs.len(),
{
    if i == fs.len() - 1 {
        assert(fs.drop_last() =~= fs.take(i));
    } else {
        assert(fs.drop_last().take(i) =~= fs.take(i));
        lemma_token_fields_fail(fs.drop_last(), i);
    }
}

impl ResourceToken {
    /// The wire encoding of this message.
    pub fn write_to_bytes(&self) -> (out: Vec<u8>)
        ensures
            out@ == encode_resource_token(self.token),
    {
        let mut out: Vec<u8> = Vec::new();
        if self.token != 0 {
            write_varint_field(&mut out, 8, self.token);
        }
        assert(out@ =~= encode_resource_token(self.token));
        out
    }

    /// Reads a message from its wire encoding.
    pub fn parse_from_bytes(b: &[u8]) -> (r: Option<ResourceToken>)
        ensures
            match decode_resource_token(b@) {
                Some(t) => r == Some(ResourceToken { token: t }),
                None => r is None,
            },
    {
        match read_all_fields(b) {
            Some(fields) => match token_from_fields(&fields) {
                Some(t) => Some(ResourceToken { token: t }),
                None => None,
            },
            None => None,
        }
    }
}

proof fn lemma_result_fields_fail(fs: Seq<WireField>, i: int)
    requires
        0 <= i < fs.len(),
        resource_result_field(resource_result_fields(fs.take(i)), fs[i]) is None,
    ensures
        resource_result_fields(fs) is None,
    decreases fs.len(),
{
    if i == fs.len() - 1 {
        assert(fs.drop_last() =~= fs.take(i));
    } else {
        assert(fs.drop_last().take(i) =~= fs.take(i));
        lemma_result_fields_fail(fs.drop_last(), i);
    }
}

impl ResourceResult {
    /// The wire encoding of this message.
    pub fn write_to_bytes(&self) -> (out: Vec<u8>)
        ensures
            out@ == encode_resource_result(self.token),
    {
        let mut out: Vec<u8> = Vec::new();
        match self.token {
            Some(t) => {
                let inner = t.write_to_bytes();
                write_bytes_field(&mut out, 10, inner.as_slice());
            },
            None => {},
        }
        assert(out@ =~= encode_resource_result(self.token));
        out
    }

    /// Reads a message from its wire encoding.
    pub fn parse_from_bytes(b: &[u8]) -> (r: Option<ResourceResult>)
        ensures
            match decode_resource_result(b@) {
                Some(tok) => r matches Some(m) && tok == (match m.token {
                    Some(t) => Some(t.token),
                    None => None::<u64>,
                }),
                None => r is None,
            },
    {
        let fields = match read_all_fields(b) {
            Some(f) => f,
            None => return None,
        };
        let ghost fs = fields_view(fields@);
        let mut joined: Vec<u8> = Vec::new();
        let mut seen: bool = false;
        let mut i: usize = 0;
        assert(fs.take(0) =~= Seq::<WireField>::empty());
        while i < fields.len()
            invariant
                i <= fields@.len(),
                fs == fields_view(fields@),
                resource_result_fields(fs.take(i as int)) == Some(
                    if seen {
                        Some(joined@)
                    } else {
                        None::<Seq<u8>>
                    },
                ),
                !seen ==> joined@ == Seq::<u8>::empty(),
                read_fields(b@) == Some(fs),
            decreases fields@.len() - i,
        {
            assert(fs.take(i + 1).drop_last() =~= fs.take(i as int));
            assert(fs.take(i + 1).last() == fields@[i as int]@);
            match &fields[i] {
                Field::Bytes(n, p) => {
                    if *n == 1 {
                        append_bytes(&mut joined, p.as_slice());
                        seen = true;
                        assert(Seq::<u8>::empty() + p@ =~= p@);
                    }
                },
                Field::Varint(n, _) => {
                    if *n == 1 {
                        proof {
                            lemma_result_fields_fail(fs, i as int);
                        }
                        return None;
                    }
                },
                Field::Fixed(n) | Field::Group(n) => {
                    if *n == 1 {
                        proof {
                            lemma_result_fields_fail(fs, i as int);
                        }
                        return None;
                    }
                },
            }
            i = i + 1;
        }
        assert(fs.take(fields@.len() as int) =~= fs);
        if !seen {
            return Some(ResourceResult { token: None });
        }
        match ResourceToken::parse_from_bytes(joined.as_slice()) {
            Some(t) => Some(ResourceResult { token: Some(t) }),
            None => None,
        }
    }
}

impl Empty {
    /// The wire encoding of this message: no bytes.
    pub fn write_to_bytes(&self) -> (out: Vec<u8>)
        ensures
            out@ == Seq::<u8>::empty(),
    {
        Vec::new()
    }

    /// Reads a message from its wire encoding; every field is skipped.
    pub fn parse_from_bytes(b: &[u8]) -> (r: Option<Empty>)
        ensures
            (r is Some) == (read_fields(b@) is Some),
    {
        match read_all_fields(b) {
            Some(_) => Some(Empty {}),
            None => None,
        }
    }
}

impl ExecResult {
    /// The wire encoding of this message: no bytes.
    pub fn write_to_bytes(&self) -> (out: Vec<u8>)
        ensures
            out@ == Seq::<u8>::empty(),
    {
        Vec::new()
    }

    /// Reads a message from its wire encoding; every field is skipped.
    pub fn parse_from_bytes(b: &[u8]) -> (r: Option<ExecResult>)
        ensures
            (r is Some) == (read_fields(b@) is Some),
    {
        match read_all_fields(b) {
            Some(_) => Some(ExecResult {}),
            None => None,
        }
    }
}

// ---------------------------------------------------------------- laws of the encoding

/// Decoding the encoding of an `AccessResource` gives its fields back.
pub proof fn lemma_access_resource_roundtrip(request_resource: Seq<char>, name: Seq<char>)
    requires
        encode_utf8(request_resource).len() <= u32::MAX,
        encode_utf8(name).len() <= u32::MAX,
    ensures
        decode_access_resource(encode_access_resource(request_resource, name)) == Some(
            (request_resource, name),
        ),
{
    broadcast use vstd::utf8::encode_utf8_valid_utf8, vstd::utf8::encode_utf8_decode_utf8;

    reveal_with_fuel(read_fields, 3);
    reveal_with_fuel(access_resource_fields, 3);
    let u1 = encode_utf8(request_resource);
    let u2 = encode_utf8(name);
    let e = encode_access_resource(request_resource, name);
    let empty = Seq::<u8>::empty();
    if request_resource.len() == 0 && name.len() == 0 {
        assert(e =~= empty);
    } else if name.len() == 0 {
        assert(e =~= bytes_field(10, u1) + empty);
        lemma_read_bytes_field(10, u1, empty);
        let fs = seq![WireField::Bytes(1, u1)];
        assert(read_fields(e) == Some(fs)) by {
            assert(seq![WireField::Bytes(1, u1)] + Seq::<WireField>::empty() =~= fs);
        }
        assert(fs.drop_last() =~= Seq::<WireField>::empty());
        assert(name =~= Seq::<char>::empty());
    } else if request_resource.len() == 0 {
        assert(e =~= bytes_field(18, u2) + empty);
        lemma_read_bytes_field(18, u2, empty);
        let fs = seq![WireField::Bytes(2, u2)];
        assert(read_fields(e) == Some(fs)) by {
            assert(seq![WireField::Bytes(2, u2)] + Seq::<WireField>::empty() =~= fs);
        }
        assert(fs.drop_last() =~= Seq::<WireField>::empty());
        assert(request_resource =~= Seq::<char>::empty());
    } else {
        let f2 = bytes_field(18, u2);
        assert(e =~= bytes_field(10, u1) + f2);
        lemma_read_bytes_field(10, u1, f2);
        assert(f2 =~= f2 + empty);
        lemma_read_bytes_field(18, u2, empty);
        let fs = seq![WireField::Bytes(1, u1), WireField::Bytes(2, u2)];
        assert(read_fields(f2) == Some(seq![WireField::Bytes(2, u2)])) by {
            assert(seq![WireField::Bytes(2, u2)] + Seq::<WireField>::empty() =~= seq![
                WireField::Bytes(2, u2),
            ]);
        }
        assert(read_fields(e) == Some(fs)) by {
            assert(seq![WireField::Bytes(1, u1)] + seq![WireField::Bytes(2, u2)] =~= fs);
        }
        assert(fs.drop_last() =~= seq![WireField::Bytes(1, u1)]);
        assert(fs.drop_last().drop_last() =~= Seq::<WireField>::empty());
    }
}

/// The messages without fields are encoded as no bytes, which decode again.
pub proof fn lemma_empty_message_roundtrip()
    ensures
        read_fields(Seq::<u8>::empty()) is Some,
{
}

/// Decoding the encoding of a `ResourceToken` gives its token back.
pub proof fn lemma_resource_token_roundtrip(token: u64)
    ensures
        decode_resource_token(encode_resource_token(token)) == Some(token),
{
    reveal_with_fuel(read_fields, 2);
    reveal_with_fuel(resource_token_fields, 2);
    if token != 0 {
        let e = encode_resource_token(token);
        let empty = Seq::<u8>::empty();
        assert(e =~= varint_field(8, token as nat) + empty);
        lemma_read_varint_field(8, token, empty);
        let fs = seq![WireField::Varint(1, token)];
        assert(read_fields(e) == Some(fs)) by {
            assert(seq![WireField::Varint(1, token)] + Seq::<WireField>::empty() =~= fs);
        }
        assert(fs.drop_last() =~= Seq::<WireField>::empty());
    }
}

/// Decoding the encoding of a `ResourceResult` gives its token back.
pub proof fn lemma_resource_result_roundtrip(token: Option<ResourceToken>)
    ensures
        decode_resource_result(encode_resource_result(token)) == Some(
            match token {
                Some(t) => Some(t.token),
                None => None::<u64>,
            },
        ),
{
    reveal_with_fuel(read_fields, 2);
    reveal_with_fuel(resource_result_fields, 2);
    match token {
        Some(t) => {
            let inner = encode_resource_token(t.token);
            let e = encode_resource_result(token);
            let empty = Seq::<u8>::empty();
            reveal_with_fuel(pow128, 11);
            assert(pow128(10) == 1180591620717411303424);
            lemma_varint_len(t.token as nat, 10);
            assert(inner.len() <= 11);
            assert(e =~= bytes_field(10, inner) + empty);
            lemma_read_bytes_field(10, inner, empty);
            let fs = seq![WireField::Bytes(1, inner)];
            assert(read_fields(e) == Some(fs)) by {
                assert(seq![WireField::Bytes(1, inner)] + Seq::<WireField>::empty() =~= fs);
            }
            assert(fs.drop_last() =~= Seq::<WireField>::empty());
            lemma_resource_token_roundtrip(t.token);
        },
        None => {},
    }
}

} // verus!
