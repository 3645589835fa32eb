//! Tag/length/value attributes: lookup by tag, scalar decoding and the
//! one encoding the queries need, an interface-index filter.
use vstd::prelude::*;

verus! {

/// The `nl80211` tag of an interface index.
pub const ATTR_IFINDEX: u16 = 3;

/// One attribute of a message payload: its tag and its raw value bytes.
#[derive(Clone, Debug, PartialEq, Eq)]
pub struct Attribute {
    pub tag: u16,
    pub payload: Vec<u8>,
}

impl View for Attribute {
    type V = (u16, Seq<u8>);

    open spec fn view(&self) -> (u16, Seq<u8>) {
        (self.tag, self.payload@)
    }
}

/// The model of a sequence of attributes.
pub open spec fn attrs_view(v: Seq<Attribute>) -> Seq<(u16, Seq<u8>)> {
    v.map_values(|a: Attribute| a@)
}

/// The value of the first attribute that carries `tag`, if any: where a tag
/// occurs more than once, the first occurrence wins.
pub open spec fn lookup(attrs: Seq<(u16, Seq<u8>)>, tag: u16) -> Option<Seq<u8>>
    decreases attrs.len(),
{
    if attrs.len() == 0 {
        None
    } else if attrs[0].0 == tag {
        Some(attrs[0].1)
    } else {
        lookup(attrs.drop_first(), tag)
    }
}

/// Little-endian value of two bytes.
pub open spec fn le16(b: Seq<u8>) -> nat {
    b[0] as nat + 256 * (b[1] as nat)
}

/// Little-endian value of four bytes.
pub open spec fn le32(b: Seq<u8>) -> nat {
    b[0] as nat + 256 * (b[1] as nat) + 65536 * (b[2] as nat) + 16777216 * (b[3] as nat)
}

/// Little-endian value of eight bytes.
pub open spec fn le64(b: Seq<u8>) -> nat {
    le32(b) + 4294967296 * le32(b.subrange(4, 8))
}

/// A one-byte value; any other width is malformed.
pub open spec fn u8_of(b: Seq<u8>) -> Option<u8> {
    if b.len() == 1 { Some(b[0]) } else { None }
}

/// A one-byte value read as a signed number.
pub open spec fn i8_of(b: Seq<u8>) -> Option<i8> {
    if b.len() == 1 {
        Some(if b[0] < 128 { b[0] as i8 } else { (b[0] - 256) as i8 })
    } else {
        None
    }
}

/// A two-byte little-endian value; any other width is malformed.
pub open spec fn u16_of(b: Seq<u8>) -> Option<u16> {
    if b.len() == 2 { Some(le16(b) as u16) } else { None }
}

/// A four-byte little-endian value; any other width is malformed.
pub open spec fn u32_of(b: Seq<u8>) -> Option<u32> {
    if b.len() == 4 { Some(le32(b) as u32) } else { None }
}

/// A four-byte little-endian two's complement value.
pub open spec fn i32_of(b: Seq<u8>) -> Option<i32> {
    if b.len() == 4 {
        Some(if le32(b) < 0x8000_0000 { le32(b) as i32 } else { (le32(b) - 0x1_0000_0000) as i32 })
    } else {
        None
    }
}

/// An eight-byte little-endian value; any other width is malformed.
pub open spec fn u64_of(b: Seq<u8>) -> Option<u64> {
    if b.len() == 8 { Some(le64(b) as u64) } else { None }
}

/// A string value: its bytes without the one terminating zero, if any.
pub open spec fn text_of(b: Seq<u8>) -> Seq<u8> {
    if b.len() > 0 && b.last() == 0 { b.drop_last() } else { b }
}

/// The four little-endian bytes of a 32-bit value.
pub open spec fn bytes_of_u32(u: u32) -> Seq<u8> {
    seq![
        (u % 256) as u8,
        ((u / 256) % 256) as u8,
        ((u / 65536) % 256) as u8,
        (u / 16777216) as u8,
    ]
}

/// The two's complement bits of a signed 32-bit value.
pub open spec fn bits_of_i32(v: i32) -> u32 {
    if v >= 0 { v as u32 } else { (v + 0x1_0000_0000) as u32 }
}

/// Spec of an option's payload bytes, for record fields that hold bytes.
pub open spec fn opt_bytes(o: Option<Vec<u8>>) -> Option<Seq<u8>> {
    match o {
        Some(v) => Some(v@),
        None => None,
    }
}

/// A one-byte attribute with `tag`: `None` where it is absent or of another width.
pub open spec fn u8_at(attrs: Seq<(u16, Seq<u8>)>, tag: u16) -> Option<u8> {
    match lookup(attrs, tag) {
        Some(b) => u8_of(b),
        None => None,
    }
}

/// A one-byte attribute read as a signed number with `tag`: `None` where it is absent or of another width.
pub open spec fn i8_at(attrs: Seq<(u16, Seq<u8>)>, tag: u16) -> Option<i8> {
    match lookup(attrs, tag) {
        Some(b) => i8_of(b),
        None => None,
    }
}

/// A two-byte little-endian attribute with `tag`: `None` where it is absent or of another width.
pub open spec fn u16_at(attrs: Seq<(u16, Seq<u8>)>, tag: u16) -> Option<u16> {
    match lookup(attrs, tag) {
        Some(b) => u16_of(b),
        None => None,
    }
}

/// A four-byte little-endian attribute with `tag`: `None` where it is absent or of another width.
pub open spec fn u32_at(attrs: Seq<(u16, Seq<u8>)>, tag: u16) -> Option<u32> {
    match lookup(attrs, tag) {
        Some(b) => u32_of(b),
        None => None,
    }
}

/// A four-byte little-endian two's complement attribute with `tag`: `None` where it is absent or of another width.
pub open spec fn i32_at(attrs: Seq<(u16, Seq<u8>)>, tag: u16) -> Option<i32> {
    match lookup(attrs, tag) {
        Some(b) => i32_of(b),
        None => None,
    }
}

/// An eight-byte little-endian attribute with `tag`: `None` where it is absent or of another width.
pub open spec fn u64_at(attrs: Seq<(u16, Seq<u8>)>, tag: u16) -> Option<u64> {
    match lookup(attrs, tag) {
        Some(b) => u64_of(b),
        None => None,
    }
}

/// A string attribute with `tag`, without its terminating zero.
pub open spec fn text_at(attrs: Seq<(u16, Seq<u8>)>, tag: u16) -> Option<Seq<u8>> {
    match lookup(attrs, tag) {
        Some(b) => Some(text_of(b)),
        None => None,
    }
}

/// Index of the first attribute with `tag`.
pub fn find(attrs: &Vec<Attribute>, tag: u16) -> (r: Option<usize>)
    ensures
        match r {
            Some(i) => i < attrs.len() && attrs[i as int].tag == tag
                && lookup(attrs_view(attrs@), tag) == Some(attrs[i as int].payload@),
            None => lookup(attrs_view(attrs@), tag) == None::<Seq<u8>>,
        },
{
    let ghost m = attrs_view(attrs@);
    let mut i: usize = 0;
    assert(m.skip(0) =~= m);
    while i < attrs.len()
        invariant
            i <= attrs.len(),
            m == attrs_view(attrs@),
            lookup(m, tag) == lookup(m.skip(i as int), tag),
        decreases attrs.len() - i,
    {
        assert(m.skip(i as int)[0] == attrs[i as int]@);
        if attrs[i].tag == tag {
            return Some(i);
        }
        assert(m.skip(i as int).drop_first() =~= m.skip(i as int + 1));
        i = i + 1;
    }
    None
}

/// The value bytes of the first attribute with `tag`.
pub fn lookup_bytes(attrs: &Vec<Attribute>, tag: u16) -> (r: Option<Vec<u8>>)
    ensures
        opt_bytes(r) == lookup(attrs_view(attrs@), tag),
{
    match find(attrs, tag) {
        Some(i) => Some(attrs[i].payload.clone()),
        None => None,
    }
}

/// A string attribute, without its terminating zero.
pub fn lookup_text(attrs: &Vec<Attribute>, tag: u16) -> (r: Option<Vec<u8>>)
    ensures
        opt_bytes(r) == text_at(attrs_view(attrs@), tag),
{
    match find(attrs, tag) {
        Some(i) => {
            let b = &attrs[i].payload;
            let n = b.len();
            let end = if n > 0 && b[n - 1] == 0 { n - 1 } else { n };
            let mut out: Vec<u8> = Vec::new();
            let mut k: usize = 0;
            while k < end
                invariant
                    end <= b.len(),
                    k <= end,
                    out@ == b@.subrange(0, k as int),
                decreases end - k,
            {
                out.push(b[k]);
                k = k + 1;
            }
            assert(out@ =~= text_of(b@));
            Some(out)
        },
        None => None,
    }
}

/// A one-byte attribute.
pub fn lookup_u8(attrs: &Vec<Attribute>, tag: u16) -> (r: Option<u8>)
    ensures
        r == u8_at(attrs_view(attrs@), tag),
{
    match find(attrs, tag) {
        Some(i) => {
            let b = &attrs[i].payload;
            if b.len() == 1 { Some(b[0]) } else { None }
        },
        None => None,
    }
}

/// A one-byte attribute read as a signed number.
pub fn lookup_i8(attrs: &Vec<Attribute>, tag: u16) -> (r: Option<i8>)
    ensures
        r == i8_at(attrs_view(attrs@), tag),
{
    match find(attrs, tag) {
        Some(i) => {
            let b = &attrs[i].payload;
            if b.len() == 1 {
                let x = b[0];
                Some(if x < 128 { x as i8 } else { (x as i16 - 256) as i8 })
            } else {
                None
            }
        },
        None => None,
    }
}

/// A two-byte little-endian attribute.
pub fn lookup_u16(attrs: &Vec<Attribute>, tag: u16) -> (r: Option<u16>)
    ensures
        r == u16_at(attrs_view(attrs@), tag),
{
    match find(attrs, tag) {
        Some(i) => {
            let b = &attrs[i].payload;
            if b.len() == 2 { Some(b[0] as u16 + 256 * (b[1] as u16)) } else { None }
        },
        None => None,
    }
}

/// Little-endian value of the four bytes of `b` from `at`.
fn read_u32(b: &Vec<u8>, at: usize) -> (r: u32)
    requires
        at + 4 <= b.len(),
    ensures
        r as nat == le32(b@.subrange(at as int, at + 4)),
{
    b[at] as u32 + 256 * (b[at + 1] as u32) + 65536 * (b[at + 2] as u32) + 16777216 * (b[at + 3] as u32)
}

/// A four-byte little-endian attribute.
pub fn lookup_u32(attrs: &Vec<Attribute>, tag: u16) -> (r: Option<u32>)
    ensures
        r == u32_at(attrs_view(attrs@), tag),
{
    match find(attrs, tag) {
        Some(i) => {
            let b = &attrs[i].payload;
            if b.len() == 4 {
                let x = read_u32(b, 0);
                assert(b@.subrange(0, 4) =~= b@);
                Some(x)
            } else {
                None
            }
        },
        None => None,
    }
}

/// A four-byte little-endian two's complement attribute.
pub fn lookup_i32(attrs: &Vec<Attribute>, tag: u16) -> (r: Option<i32>)
    ensures
        r == i32_at(attrs_view(attrs@), tag),
{
    match find(attrs, tag) {
        Some(i) => {
            let b = &attrs[i].payload;
            if b.len() == 4 {
                let x = read_u32(b, 0);
                assert(b@.subrange(0, 4) =~= b@);
                Some(if x < 0x8000_0000 { x as i32 } else { (x as i64 - 0x1_0000_0000) as i32 })
            } else {
                None
            }
        },
        None => None,
    }
}

/// An eight-byte little-endian attribute.
pub fn lookup_u64(attrs: &Vec<Attribute>, tag: u16) -> (r: Option<u64>)
    ensures
        r == u64_at(attrs_view(attrs@), tag),
{
    match find(attrs, tag) {
        Some(i) => {
            let b = &attrs[i].payload;
            if b.len() == 8 {
                let lo = read_u32(b, 0);
                let hi = read_u32(b, 4);
                assert(le32(b@.subrange(0, 4)) == le32(b@)) by {
                    assert(b@.subrange(0, 4)[0] == b@[0]);
                    assert(b@.subrange(0, 4)[1] == b@[1]);
                    assert(b@.subrange(0, 4)[2] == b@[2]);
                    assert(b@.subrange(0, 4)[3] == b@[3]);
                }
                Some(lo as u64 + 4294967296 * (hi as u64))
            } else {
                None
            }
        },
        None => None,
    }
}

/// Length of an attribute rounded up to the four-byte alignment of netlink.
pub open spec fn align4(n: nat) -> nat {
    ((n + 3) / 4) * 4
}

/// `a` in front of the parsed rest, if the rest parsed.
pub open spec fn prepend(a: Seq<(u16, Seq<u8>)>, o: Option<Seq<(u16, Seq<u8>)>>) -> Option<
    Seq<(u16, Seq<u8>)>,
> {
    match o {
        Some(rest) => Some(a + rest),
        None => None,
    }
}

/// The attributes that a nested payload holds, in order. Each one is a
/// two-byte length (header included, at least four), a two-byte tag whose
/// two top flag bits are dropped, and its value, padded to four bytes; the
/// last one may go without padding. Anything else is malformed.
pub open spec fn parse(b: Seq<u8>) -> Option<Seq<(u16, Seq<u8>)>>
    decreases b.len(),
{
    if b.len() == 0 {
        Some(seq![])
    } else if b.len() < 4 || le16(b) < 4 || le16(b) > b.len() {
        None
    } else {
        let len = le16(b);
        let next = if align4(len) <= b.len() { align4(len) } else { b.len() };
        let tag = (le16(b.subrange(2, 4)) % 16384) as u16;
        prepend(seq![(tag, b.subrange(4, len as int))], parse(b.subrange(next as int, b.len() as int)))
    }
}

/// The bytes of `b` from `from` up to `to`.
fn copy_range(b: &Vec<u8>, from: usize, to: usize) -> (r: Vec<u8>)
    requires
        from <= to <= b.len(),
    ensures
        r@ == b@.subrange(from as int, to as int),
{
    let mut out: Vec<u8> = Vec::new();
    let mut k: usize = from;
    while k < to
        invariant
            from <= k <= to <= b.len(),
            out@ == b@.subrange(from as int, k as int),
        decreases to - k,
    {
        out.push(b[k]);
        assert(out@ =~= b@.subrange(from as int, k + 1));
        k = k + 1;
    }
    out
}

/// Splits a nested payload into its attributes; `None` where it is
/// malformed.
pub fn parse_attrs(b: &Vec<u8>) -> (r: Option<Vec<Attribute>>)
    ensures
        match r {
            Some(v) => parse(b@) == Some(attrs_view(v@)),
            None => parse(b@) == None::<Seq<(u16, Seq<u8>)>>,
        },
{
    let n = b.len();
    let mut acc: Vec<Attribute> = Vec::new();
    let mut off: usize = 0;
    assert(b@.subrange(0, n as int) =~= b@);
    assert(attrs_view(acc@) =~= seq![]);
    while off < n
        invariant
            n == b.len(),
            off <= n,
            parse(b@) == prepend(attrs_view(acc@), parse(b@.subrange(off as int, n as int))),
        decreases n - off,
    {
        let ghost s = b@.subrange(off as int, n as int);
        if n - off < 4 {
            return None;
        }
        let len: usize = b[off] as usize + 256 * (b[off + 1] as usize);
        assert(le16(s) == len) by {
            assert(s[0] == b@[off as int] && s[1] == b@[off + 1]);
        }
        if len < 4 || len > n - off {
            return None;
        }
        let raw: u16 = b[off + 2] as u16 + 256 * (b[off + 3] as u16);
        let tag: u16 = raw % 16384;
        assert(le16(s.subrange(2, 4)) == raw) by {
            assert(s.subrange(2, 4)[0] == b@[off + 2] && s.subrange(2, 4)[1] == b@[off + 3]);
        }
        let payload = copy_range(b, off + 4, off + len);
        assert(payload@ =~= s.subrange(4, len as int));
        let aligned: usize = (len + 3) / 4 * 4;
        let next: usize = if aligned <= n - off { aligned } else { n - off };
        assert(s.subrange(next as int, s.len() as int) =~= b@.subrange(off + next, n as int));
        let ghost before = attrs_view(acc@);
        let ghost rest = parse(b@.subrange(off + next, n as int));
        acc.push(Attribute { tag, payload });
        assert(attrs_view(acc@) =~= before + seq![(tag, s.subrange(4, len as int))]);
        proof {
            if rest is Some {
                let q = rest->0;
                assert(before + (seq![(tag, s.subrange(4, len as int))] + q) =~= attrs_view(acc@) + q);
            }
        }
        off = off + next;
    }
    assert(b@.subrange(n as int, n as int) =~= Seq::<u8>::empty());
    assert(attrs_view(acc@) + seq![] =~= attrs_view(acc@));
    Some(acc)
}

/// The attributes nested in the attribute with `tag`: none where it is
/// absent or its value does not parse.
pub open spec fn nested(attrs: Seq<(u16, Seq<u8>)>, tag: u16) -> Seq<(u16, Seq<u8>)> {
    match lookup(attrs, tag) {
        Some(b) => match parse(b) {
            Some(inner) => inner,
            None => seq![],
        },
        None => seq![],
    }
}

/// The attributes nested in the first attribute with `tag`.
pub fn lookup_nested(attrs: &Vec<Attribute>, tag: u16) -> (r: Vec<Attribute>)
    ensures
        attrs_view(r@) == nested(attrs_view(attrs@), tag),
{
    match find(attrs, tag) {
        Some(i) => match parse_attrs(&attrs[i].payload) {
            Some(inner) => inner,
            None => {
                let empty: Vec<Attribute> = Vec::new();
                assert(attrs_view(empty@) =~= seq![]);
                empty
            },
        },
        None => {
            let empty: Vec<Attribute> = Vec::new();
            assert(attrs_view(empty@) =~= seq![]);
            empty
        },
    }
}

/// The interface-index filter attribute of a request.
pub fn encode_index(index: i32) -> (r: Attribute)
    ensures
        r.tag == ATTR_IFINDEX,
        r.payload@ == bytes_of_u32(bits_of_i32(index)),
{
    let u: u32 = if index >= 0 { index as u32 } else { (index as i64 + 0x1_0000_0000) as u32 };
    let mut payload: Vec<u8> = Vec::new();
    payload.push((u % 256) as u8);
    payload.push(((u / 256) % 256) as u8);
    payload.push(((u / 65536) % 256) as u8);
    payload.push((u / 16777216) as u8);
    assert(payload@ =~= bytes_of_u32(bits_of_i32(index)));
    Attribute { tag: ATTR_IFINDEX, payload }
}

/// The four bytes of a 32-bit value read back give the value.
pub proof fn lemma_le32_bytes(u: u32)
    ensures
        le32(bytes_of_u32(u)) == u,
{
    let b = bytes_of_u32(u);
    assert(b[0] as nat + 256 * (b[1] as nat) + 65536 * (b[2] as nat) + 16777216 * (b[3] as nat) == u) by (nonlinear_arith)
        requires
            b[0] == u % 256,
            b[1] == (u / 256) % 256,
            b[2] == (u / 65536) % 256,
            b[3] == u / 16777216,
    {
    }
}

/// An attribute with another tag, wherever it stands, does not change
/// what a lookup of `tag` finds.
pub proof fn lemma_other_tag_ignored(attrs: Seq<(u16, Seq<u8>)>, i: int, x: (u16, Seq<u8>), tag: u16)
    requires
        0 <= i <= attrs.len(),
        x.0 != tag,
    ensures
        lookup(attrs.insert(i, x), tag) == lookup(attrs, tag),
    decreases attrs.len(),
{
    let ins = attrs.insert(i, x);
    if i == 0 {
        assert(ins.drop_first() =~= attrs);
    } else {
        assert(ins[0] == attrs[0]);
        if attrs[0].0 != tag {
            assert(ins.drop_first() =~= attrs.drop_first().insert(i - 1, x));
            lemma_other_tag_ignored(attrs.drop_first(), i - 1, x, tag);
        }
    }
}

/// Where no attribute carries `tag`, every field read from it is `None`.
pub proof fn lemma_absent_tag_is_none(attrs: Seq<(u16, Seq<u8>)>, tag: u16)
    requires
        forall|j: int| 0 <= j < attrs.len() ==> (#[trigger] attrs[j]).0 != tag,
    ensures
        lookup(attrs, tag) is None,
        text_at(attrs, tag) is None,
        u8_at(attrs, tag) is None,
        i8_at(attrs, tag) is None,
        u16_at(attrs, tag) is None,
        u32_at(attrs, tag) is None,
        i32_at(attrs, tag) is None,
        u64_at(attrs, tag) is None,
        nested(attrs, tag) == Seq::<(u16, Seq<u8>)>::empty(),
    decreases attrs.len(),
{
    if attrs.len() > 0 {
        let rest = attrs.drop_first();
        assert forall|j: int| 0 <= j < rest.len() implies (#[trigger] rest[j]).0 != tag by {
            assert(rest[j] == attrs[j + 1]);
        }
        lemma_absent_tag_is_none(rest, tag);
    }
}

} // verus!
