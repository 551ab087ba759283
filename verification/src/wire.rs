//! The protobuf wire format, in the parts that the scheduler's messages use: base-128
//! varints, field keys, varint fields and length-delimited fields.
use vstd::prelude::*;

verus! {

/// The varint encoding of `n`: seven bits per byte, least significant group first, the high
/// bit set on every byte but the last.
pub open spec fn varint(n: nat) -> Seq<u8>
    decreases n,
{
    if n < 128 {
        seq![n as u8]
    } else {
        seq![(n % 128 + 128) as u8] + varint(n / 128)
    }
}

/// `128` to the power `k`.
pub open spec fn pow128(k: nat) -> nat
    decreases k,
{
    if k == 0 {
        1
    } else {
        128 * pow128((k - 1) as nat)
    }
}

/// Reads a varint of at most `budget` bytes at the front of `b`: its value and what follows it.
pub open spec fn raw_varint(b: Seq<u8>, budget: nat) -> Option<(nat, Seq<u8>)>
    decreases budget,
{
    if budget == 0 || b.len() == 0 {
        None
    } else if b[0] < 128 {
        Some((b[0] as nat, b.drop_first()))
    } else {
        match raw_varint(b.drop_first(), (budget - 1) as nat) {
            Some((v, rest)) => Some((((b[0] - 128) + 128 * v) as nat, rest)),
            None => None,
        }
    }
}

/// Reads the varint at the front of `b`: its value and what follows it. It fails when the bytes
/// run out before the varint ends and when the varint is longer than ten bytes; bits above the
/// 64th are dropped.
pub open spec fn read_varint(b: Seq<u8>) -> Option<(u64, Seq<u8>)> {
    match raw_varint(b, 10) {
        Some((v, rest)) => Some(((v % 0x1_0000_0000_0000_0000) as u64, rest)),
        None => None,
    }
}

/// One field of a message as it stands on the wire.
pub enum WireField {
    /// A varint field: its number and value.
    Varint(u64, u64),
    /// A length-delimited field: its number and payload.
    Bytes(u64, Seq<u8>),
    /// A fixed-width field (32 or 64 bits): its number; the payload is not kept.
    Fixed(u64),
    /// A group: its number; its fields are skipped.
    Group(u64),
}

/// Reads the key at the front of `b`: the field number, the wire type and what follows. The
/// key is a varint cut to its low 32 bits; a wire type above 5 or a field number 0 is refused.
pub open spec fn read_key(b: Seq<u8>) -> Option<(u64, u64, Seq<u8>)> {
    match read_varint(b) {
        None => None,
        Some((v, rest)) => {
            let t: u64 = v % 0x1_0000_0000;
            let wire_type: u64 = t % 8;
            let number: u64 = t / 8;
            if wire_type <= 5 && number != 0 {
                Some((number, wire_type, rest))
            } else {
                None
            }
        },
    }
}

/// Reads the value of a field of wire type varint (0), 64-bit (1), length-delimited (2) or
/// 32-bit (5) at the front of `b`; other wire types are refused. A length is a varint cut to its
/// low 32 bits.
pub open spec fn read_plain_value(number: u64, wire_type: u64, b: Seq<u8>) -> Option<
    (WireField, Seq<u8>),
> {
    if wire_type == 0 {
        match read_varint(b) {
            Some((v, r)) => Some((WireField::Varint(number, v), r)),
            None => None,
        }
    } else if wire_type == 1 {
        if b.len() >= 8 {
            Some((WireField::Fixed(number), b.skip(8)))
        } else {
            None
        }
    } else if wire_type == 2 {
        match read_varint(b) {
            Some((len64, r)) => {
                let len: u64 = len64 % 0x1_0000_0000;
                if len <= r.len() {
                    Some((WireField::Bytes(number, r.take(len as int)), r.skip(len as int)))
                } else {
                    None
                }
            },
            None => None,
        }
    } else if wire_type == 5 {
        if b.len() >= 4 {
            Some((WireField::Fixed(number), b.skip(4)))
        } else {
            None
        }
    } else {
        None
    }
}

/// Skips the fields of a group that starts at the front of `b`, up to and including the next
/// end-group key: what follows the group. A group nested inside is refused.
pub open spec fn skip_group(b: Seq<u8>) -> Option<Seq<u8>>
    decreases b.len(),
{
    match read_key(b) {
        None => None,
        Some((number, wire_type, rest)) => if wire_type == 4 {
            Some(rest)
        } else if wire_type == 3 {
            None
        } else {
            match read_plain_value(number, wire_type, rest) {
                Some((_, r)) => if r.len() < b.len() {
                    skip_group(r)
                } else {
                    None
                },
                None => None,
            }
        },
    }
}

/// Reads the field at the front of `b`: the field and what follows it. An end-group key that
/// closes no group is refused.
pub open spec fn read_field(b: Seq<u8>) -> Option<(WireField, Seq<u8>)> {
    match read_key(b) {
        None => None,
        Some((number, wire_type, rest)) => if wire_type == 3 {
            match skip_group(rest) {
                Some(r) => Some((WireField::Group(number), r)),
                None => None,
            }
        } else {
            read_plain_value(number, wire_type, rest)
        },
    }
}

/// Reads a whole message body as a sequence of fields, or fails if some field cannot be read.
pub open spec fn read_fields(b: Seq<u8>) -> Option<Seq<WireField>>
    decreases b.len(),
{
    if b.len() == 0 {
        Some(Seq::empty())
    } else {
        match read_field(b) {
            Some((f, rest)) => if rest.len() < b.len() {
                match read_fields(rest) {
                    Some(fs) => Some(seq![f] + fs),
                    None => None,
                }
            } else {
                None
            },
            None => None,
        }
    }
}

/// A field written with a one-byte key followed by a varint value.
pub open spec fn varint_field(key: u8, v: nat) -> Seq<u8> {
    seq![key] + varint(v)
}

/// A field written with a one-byte key, the payload's length and the payload.
pub open spec fn bytes_field(key: u8, payload: Seq<u8>) -> Seq<u8> {
    seq![key] + varint(payload.len()) + payload
}

// ---------------------------------------------------------------- exec

/// A field as read from the wire.
pub enum Field {
    Varint(u64, u64),
    Bytes(u64, Vec<u8>),
    Fixed(u64),
    Group(u64),
}

impl View for Field {
    type V = WireField;

    open spec fn view(&self) -> WireField {
        match self {
            Field::Varint(n, v) => WireField::Varint(*n, *v),
            Field::Bytes(n, p) => WireField::Bytes(*n, p@),
            Field::Fixed(n) => WireField::Fixed(*n),
            Field::Group(n) => WireField::Group(*n),
        }
    }
}

/// The fields of a read message seen as wire fields.
pub open spec fn fields_view(fs: Seq<Field>) -> Seq<WireField> {
    fs.map_values(|f: Field| f@)
}

/// Appends the varint encoding of `n`.
pub fn write_varint(out: &mut Vec<u8>, n: u64)
    ensures
        final(out)@ == old(out)@ + varint(n as nat),
{
    let mut m: u64 = n;
    loop
        invariant
            old(out)@ + varint(n as nat) == out@ + varint(m as nat),
        decreases m,
    {
        if m < 128 {
            let ghost before = out@;
            out.push(m as u8);
            assert(out@ == before + varint(m as nat));
            return;
        }
        let ghost before = out@;
        out.push((m % 128 + 128) as u8);
        assert(varint(m as nat) == seq![(m % 128 + 128) as u8] + varint((m / 128) as nat));
        assert(before + varint(m as nat) =~= out@ + varint((m / 128) as nat));
        m = m / 128;
    }
}

/// Appends a field with a one-byte key and a varint value.
pub fn write_varint_field(out: &mut Vec<u8>, key: u8, v: u64)
    ensures
        final(out)@ == old(out)@ + varint_field(key, v as nat),
{
    out.push(key);
    write_varint(out, v);
    assert(out@ =~= old(out)@ + varint_field(key, v as nat));
}

/// Appends bytes.
pub fn append_bytes(out: &mut Vec<u8>, payload: &[u8])
    ensures
        final(out)@ == old(out)@ + payload@,
{
    let ghost start = out@;
    let mut i: usize = 0;
    while i < payload.len()
        invariant
            i <= payload@.len(),
            out@ == start + payload@.take(i as int),
        decreases payload@.len() - i,
    {
        out.push(payload[i]);
        assert(payload@.take(i + 1) =~= payload@.take(i as int).push(payload@[i as int]));
        i = i + 1;
    }
    assert(payload@.take(payload@.len() as int) =~= payload@);
}

/// Appends a field with a one-byte key and a length-delimited payload.
pub fn write_bytes_field(out: &mut Vec<u8>, key: u8, payload: &[u8])
    ensures
        final(out)@ == old(out)@ + bytes_field(key, payload@),
{
    out.push(key);
    write_varint(out, payload.len() as u64);
    append_bytes(out, payload);
    assert(out@ =~= old(out)@ + bytes_field(key, payload@));
}

/// What a partial varint read amounts to once the bytes read so far are added in.
pub open spec fn lift_varint(o: Option<(nat, Seq<u8>)>, acc: nat, mult: nat) -> Option<
    (nat, Seq<u8>),
> {
    match o {
        Some((v, rest)) => Some((acc + mult * v, rest)),
        None => None,
    }
}

proof fn lemma_lift_step(o: Option<(nat, Seq<u8>)>, acc: nat, mult: nat, d: nat)
    ensures
        lift_varint(
            match o {
                Some((v, rest)) => Some(((d + 128 * v) as nat, rest)),
                None => None,
            },
            acc,
            mult,
        ) == lift_varint(o, acc + mult * d, mult * 128),
{
    match o {
        Some((v, rest)) => {
            assert(acc + mult * (d + 128 * v) == (acc + mult * d) + (mult * 128) * v)
                by (nonlinear_arith);
        },
        None => {},
    }
}

proof fn lemma_pow128_bound(i: nat)
    requires
        i <= 10,
    ensures
        1 <= pow128(i) <= 1180591620717411303424,
    decreases i,
{
    reveal_with_fuel(pow128, 11);
    if i > 0 {
        lemma_pow128_bound((i - 1) as nat);
        assert(pow128(10) == 1180591620717411303424);
        if i < 10 {
            lemma_pow128_mono((i) as nat);
        }
    }
}

proof fn lemma_pow128_mono(i: nat)
    requires
        i <= 10,
    ensures
        pow128(i) <= pow128(10),
    decreases 10 - i,
{
    if i < 10 {
        lemma_pow128_mono(i + 1);
        assert(pow128(i + 1) == 128 * pow128(i));
    }
}

/// Reads the varint that starts at `pos`: its value and the position after it.
pub fn read_varint_at(b: &[u8], pos: usize) -> (r: Option<(u64, usize)>)
    requires
        pos <= b@.len(),
    ensures
        match read_varint(b@.skip(pos as int)) {
            Some((v, rest)) => r matches Some((v2, p2)) && v2 == v && pos < p2 <= b@.len() && b@.skip(
                p2 as int,
            ) == rest,
            None => r is None,
        },
{
    let mut acc: u128 = 0;
    let mut mult: u128 = 1;
    let mut i: usize = 0;
    proof {
        assert(b@.skip(pos as int) == b@.skip((pos + 0) as int));
        lemma_pow128_bound(0);
    }
    while i < 10
        invariant
            pos <= b@.len(),
            i <= 10,
            pos + i <= b@.len(),
            mult == pow128(i as nat),
            acc < mult,
            raw_varint(b@.skip(pos as int), 10) == lift_varint(
                raw_varint(b@.skip((pos + i) as int), (10 - i) as nat),
                acc as nat,
                mult as nat,
            ),
        decreases 10 - i,
    {
        proof {
            lemma_pow128_bound(i as nat);
            lemma_pow128_mono(i as nat);
        }
        if i >= b.len() - pos {
            assert(b@.skip((pos + i) as int).len() == 0);
            return None;
        }
        let c: u8 = b[pos + i];
        let ghost s = b@.skip((pos + i) as int);
        assert(s[0] == c);
        assert(s.drop_first() =~= b@.skip((pos + i + 1) as int));
        if c < 128 {
            assert(acc + mult * (c as u128) < mult * 128) by (nonlinear_arith)
                requires
                    acc < mult,
                    c < 128,
            ;
            assert(mult * 128 <= 128 * 1180591620717411303424) by (nonlinear_arith)
                requires
                    mult <= 1180591620717411303424,
            ;
            let v: u128 = acc + mult * (c as u128);
            return Some(((v % 0x1_0000_0000_0000_0000) as u64, pos + i + 1));
        }
        proof {
            lemma_lift_step(
                raw_varint(b@.skip((pos + i + 1) as int), (10 - i - 1) as nat),
                acc as nat,
                mult as nat,
                (c - 128) as nat,
            );
            assert((c - 128) as nat == (c - 128) as u128);
            assert(pow128((i + 1) as nat) == 128 * pow128(i as nat));
        }
        let d: u128 = (c - 128) as u128;
        assert(acc + mult * d < mult * 128) by (nonlinear_arith)
            requires
                acc < mult,
                d < 128,
        ;
        assert(mult * 128 <= 128 * 1180591620717411303424) by (nonlinear_arith)
            requires
                mult <= 1180591620717411303424,
        ;
        acc = acc + mult * d;
        mult = mult * 128;
        i = i + 1;
    }
    None
}

/// Copies `len` bytes starting at `start`.
fn copy_bytes(b: &[u8], start: usize, len: usize) -> (r: Vec<u8>)
    requires
        start + len <= b@.len(),
    ensures
        r@ == b@.subrange(start as int, start + len),
{
    let mut r: Vec<u8> = Vec::new();
    let mut i: usize = 0;
    let blen: usize = b.len();
    while i < len
        invariant
            blen == b@.len(),
            start + len <= b@.len(),
            i <= len,
            r@ == b@.subrange(start as int, start + i),
        decreases len - i,
    {
        r.push(b[start + i]);
        assert(b@.subrange(start as int, start + i + 1) =~= b@.subrange(start as int, start + i).push(
            b@[start + i],
        ));
        i = i + 1;
    }
    r
}

/// Reads the key that starts at `pos`: field number, wire type and the position after it.
pub fn read_key_at(b: &[u8], pos: usize) -> (r: Option<(u64, u64, usize)>)
    requires
        pos <= b@.len(),
    ensures
        match read_key(b@.skip(pos as int)) {
            Some((n, wt, rest)) => r matches Some((n2, wt2, p2)) && n2 == n && wt2 == wt && pos < p2
                <= b@.len() && b@.skip(p2 as int) == rest,
            None => r is None,
        },
{
    match read_varint_at(b, pos) {
        None => None,
        Some((v, p1)) => {
            let t: u64 = v % 0x1_0000_0000;
            let wire_type: u64 = t % 8;
            let number: u64 = t / 8;
            if wire_type <= 5 && number != 0 {
                Some((number, wire_type, p1))
            } else {
                None
            }
        },
    }
}

/// Reads the value of a varint, 64-bit, length-delimited or 32-bit field that starts at `pos`.
pub fn read_plain_value_at(b: &[u8], number: u64, wire_type: u64, pos: usize) -> (r: Option<
    (Field, usize),
>)
    requires
        pos <= b@.len(),
    ensures
        match read_plain_value(number, wire_type, b@.skip(pos as int)) {
            Some((f, rest)) => r matches Some((f2, p2)) && f2@ == f && pos <= p2 <= b@.len()
                && b@.skip(p2 as int) == rest,
            None => r is None,
        },
{
    if wire_type == 0 {
        match read_varint_at(b, pos) {
            Some((v, p2)) => Some((Field::Varint(number, v), p2)),
            None => None,
        }
    } else if wire_type == 1 {
        if b.len() - pos >= 8 {
            assert(b@.skip(pos as int).skip(8) =~= b@.skip(pos + 8));
            Some((Field::Fixed(number), pos + 8))
        } else {
            None
        }
    } else if wire_type == 2 {
        match read_varint_at(b, pos) {
            Some((len64, p2)) => {
                let len: u64 = len64 % 0x1_0000_0000;
                if len as u128 <= (b.len() - p2) as u128 {
                    let n: usize = len as usize;
                    let payload = copy_bytes(b, p2, n);
                    assert(b@.skip(p2 as int).take(n as int) =~= b@.subrange(p2 as int, p2 + n));
                    assert(b@.skip(p2 as int).skip(n as int) =~= b@.skip(p2 + n));
                    Some((Field::Bytes(number, payload), p2 + n))
                } else {
                    None
                }
            },
            None => None,
        }
    } else if wire_type == 5 {
        if b.len() - pos >= 4 {
            assert(b@.skip(pos as int).skip(4) =~= b@.skip(pos + 4));
            Some((Field::Fixed(number), pos + 4))
        } else {
            None
        }
    } else {
        None
    }
}

/// Skips the group whose fields start at `pos`: the position after its end-group key.
pub fn skip_group_at(b: &[u8], pos: usize) -> (r: Option<usize>)
    requires
        pos <= b@.len(),
    ensures
        match skip_group(b@.skip(pos as int)) {
            Some(rest) => r matches Some(p2) && pos < p2 <= b@.len() && b@.skip(p2 as int) == rest,
            None => r is None,
        },
{
    let mut p: usize = pos;
    loop
        invariant
            pos <= p <= b@.len(),
            skip_group(b@.skip(pos as int)) == skip_group(b@.skip(p as int)),
        decreases b@.len() - p,
    {
        match read_key_at(b, p) {
            None => {
                return None;
            },
            Some((number, wire_type, p1)) => {
                if wire_type == 4 {
                    return Some(p1);
                }
                if wire_type == 3 {
                    return None;
                }
                match read_plain_value_at(b, number, wire_type, p1) {
                    None => {
                        return None;
                    },
                    Some((_, p2)) => {
                        p = p2;
                    },
                }
            },
        }
    }
}

/// Reads the field that starts at `pos`: the field and the position after it.
pub fn read_field_at(b: &[u8], pos: usize) -> (r: Option<(Field, usize)>)
    requires
        pos <= b@.len(),
    ensures
        match read_field(b@.skip(pos as int)) {
            Some((f, rest)) => r matches Some((f2, p2)) && f2@ == f && pos < p2 <= b@.len() && b@.skip(
                p2 as int,
            ) == rest,
            None => r is None,
        },
{
    match read_key_at(b, pos) {
        None => None,
        Some((number, wire_type, p1)) => {
            if wire_type == 3 {
                match skip_group_at(b, p1) {
                    Some(p2) => Some((Field::Group(number), p2)),
                    None => None,
                }
            } else {
                read_plain_value_at(b, number, wire_type, p1)
            }
        },
    }
}

/// Prepends known fields to the outcome of reading the rest.
pub open spec fn prepend_fields(prefix: Seq<WireField>, o: Option<Seq<WireField>>) -> Option<
    Seq<WireField>,
> {
    match o {
        Some(fs) => Some(prefix + fs),
        None => None,
    }
}

/// Reads all fields of a message body.
pub fn read_all_fields(b: &[u8]) -> (r: Option<Vec<Field>>)
    ensures
        match read_fields(b@) {
            Some(fs) => r matches Some(v) && fields_view(v@) == fs,
            None => r is None,
        },
{
    let mut out: Vec<Field> = Vec::new();
    let mut pos: usize = 0;
    assert(b@.skip(0) =~= b@);
    assert(fields_view(out@) =~= Seq::<WireField>::empty());
    loop
        invariant
            pos <= b@.len(),
            read_fields(b@) == prepend_fields(fields_view(out@), read_fields(b@.skip(pos as int))),
        decreases b@.len() - pos,
    {
        if pos == b.len() {
            assert(b@.skip(pos as int).len() == 0);
            assert(fields_view(out@) + Seq::<WireField>::empty() =~= fields_view(out@));
            return Some(out);
        }
        match read_field_at(b, pos) {
            None => {
                return None;
            },
            Some((f, p2)) => {
                let ghost before = fields_view(out@);
                let ghost fv = f@;
                out.push(f);
                assert(fields_view(out@) =~= before.push(fv));
                assert forall|fs: Seq<WireField>| before + (seq![fv] + fs) =~= before.push(fv) + fs by {}
                pos = p2;
            },
        }
    }
}

// ---------------------------------------------------------------- laws of the primitives

/// A varint of a value below `128^k` takes at most `k` bytes.
pub proof fn lemma_varint_len(n: nat, k: nat)
    requires
        k >= 1,
        n < pow128(k),
    ensures
        varint(n).len() <= k,
    decreases n,
{
    if n >= 128 {
        assert(k >= 2) by {
            if k == 1 {
                reveal_with_fuel(pow128, 2);
                assert(pow128(1) == 128);
            }
        }
        assert(pow128(k) == 128 * pow128((k - 1) as nat));
        assert(n / 128 < pow128((k - 1) as nat)) by (nonlinear_arith)
            requires
                n < 128 * pow128((k - 1) as nat),
        ;
        lemma_varint_len(n / 128, (k - 1) as nat);
    }
}

/// Reading the encoding of `n` followed by anything gives `n` back and leaves exactly what
/// followed, as long as the budget covers the encoding.
pub proof fn lemma_raw_varint_of_varint(n: nat, rest: Seq<u8>, budget: nat)
    requires
        varint(n).len() <= budget,
    ensures
        raw_varint(varint(n) + rest, budget) == Some((n, rest)),
    decreases n,
{
    let e = varint(n) + rest;
    if n < 128 {
        assert(e.drop_first() =~= rest);
    } else {
        lemma_raw_varint_of_varint(n / 128, rest, (budget - 1) as nat);
        assert(e.drop_first() =~= varint(n / 128) + rest);
        assert(((n % 128 + 128) as u8) - 128 + 128 * (n / 128) == n);
    }
}

/// Reading the encoding of a 64-bit value followed by anything gives the value back.
pub proof fn lemma_read_varint_of_varint(n: u64, rest: Seq<u8>)
    ensures
        read_varint(varint(n as nat) + rest) == Some((n, rest)),
{
    reveal_with_fuel(pow128, 11);
    assert(pow128(10) == 1180591620717411303424);
    lemma_varint_len(n as nat, 10);
    lemma_raw_varint_of_varint(n as nat, rest, 10);
}

/// A varint field written with a one-byte key is read back as that field.
pub proof fn lemma_read_varint_field(key: u8, v: u64, rest: Seq<u8>)
    requires
        key < 128,
        key / 8 >= 1,
        key % 8 == 0,
    ensures
        read_field(varint_field(key, v as nat) + rest) == Some(
            (WireField::Varint((key / 8) as u64, v), rest),
        ),
{
    let e = varint_field(key, v as nat) + rest;
    assert(e =~= varint(key as nat) + (varint(v as nat) + rest));
    lemma_read_varint_of_varint(key as u64, varint(v as nat) + rest);
    lemma_read_varint_of_varint(v, rest);
}

/// A length-delimited field written with a one-byte key is read back as that field.
pub proof fn lemma_read_bytes_field(key: u8, payload: Seq<u8>, rest: Seq<u8>)
    requires
        key < 128,
        key / 8 >= 1,
        key % 8 == 2,
        payload.len() <= u32::MAX,
    ensures
        read_field(bytes_field(key, payload) + rest) == Some(
            (WireField::Bytes((key / 8) as u64, payload), rest),
        ),
{
    let len: u64 = payload.len() as u64;
    let e = bytes_field(key, payload) + rest;
    let after_key = varint(len as nat) + (payload + rest);
    assert(e =~= varint(key as nat) + after_key);
    lemma_read_varint_of_varint(key as u64, after_key);
    lemma_read_varint_of_varint(len, payload + rest);
    assert(len % 0x1_0000_0000 == len);
    assert((payload + rest).take(len as int) =~= payload);
    assert((payload + rest).skip(len as int) =~= rest);
}

} // verus!
