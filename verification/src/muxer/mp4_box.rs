use vstd::prelude::*;

verus! {

/// The four bytes of `x`, most significant first.
pub open spec fn be32(x: u32) -> Seq<u8> {
    seq![
        (x / 0x100_0000) as u8,
        ((x / 0x1_0000) % 0x100) as u8,
        ((x / 0x100) % 0x100) as u8,
        (x % 0x100) as u8,
    ]
}

/// The unsigned integer that the first four bytes of `b` hold, most significant first.
pub open spec fn be32_value(b: Seq<u8>) -> int
    recommends
        b.len() >= 4,
{
    b[0] * 0x100_0000 + b[1] * 0x1_0000 + b[2] * 0x100 + b[3]
}

/// Reading back four big-endian bytes gives the number they were written from.
pub proof fn lemma_be32_value(x: u32)
    ensures
        be32(x).len() == 4,
        be32_value(be32(x)) == x,
{
}

/// One box of an ISO base media file as a reader sees it: its four-byte type and its payload.
pub struct BoxView {
    pub box_type: Seq<u8>,
    pub payload: Seq<u8>,
}

/// The eight-byte header of a box of type `box_type` announcing a payload of `payload_size`
/// bytes: the size of the whole box (header included) as a big-endian 32-bit number, then
/// the type.
pub open spec fn box_header(box_type: Seq<u8>, payload_size: u32) -> Seq<u8> {
    be32((8 + payload_size) as u32) + box_type
}

/// A whole box: its header, announcing the payload's length, then the payload.
pub open spec fn mp4_box(box_type: Seq<u8>, payload: Seq<u8>) -> Seq<u8> {
    box_header(box_type, payload.len() as u32) + payload
}

/// Splits `s` into consecutive boxes, each stepping over as many bytes as its header's size
/// field says; `None` where a header is cut short, announces fewer than eight bytes, or runs
/// past the end of `s`.
pub open spec fn parse_boxes(s: Seq<u8>) -> Option<Seq<BoxView>>
    decreases s.len(),
{
    if s.len() == 0 {
        Some(Seq::empty())
    } else if s.len() < 8 {
        None
    } else {
        let size = be32_value(s);
        if size < 8 || size > s.len() {
            None
        } else {
            match parse_boxes(s.skip(size)) {
                Some(rest) => Some(
                    seq![BoxView { box_type: s.subrange(4, 8), payload: s.subrange(8, size) }]
                        + rest,
                ),
                None => None,
            }
        }
    }
}

/// A box's size field counts its header and its payload, so a reader that meets a box whose
/// payload fits a 32-bit size finds that box and then goes on with exactly the bytes behind it.
pub proof fn lemma_box_then_rest(box_type: Seq<u8>, payload: Seq<u8>, rest: Seq<u8>)
    requires
        box_type.len() == 4,
        payload.len() + 8 <= u32::MAX,
    ensures
        parse_boxes(mp4_box(box_type, payload) + rest) == match parse_boxes(rest) {
            Some(r) => Some(seq![BoxView { box_type, payload }] + r),
            None => None,
        },
{
    let b = mp4_box(box_type, payload);
    let s = b + rest;
    let size = (8 + payload.len()) as u32;
    lemma_be32_value(size);
    assert(s.subrange(0, 4) =~= be32(size));
    assert(be32_value(s) == be32_value(be32(size)));
    assert(s.skip(size as int) =~= rest);
    assert(s.subrange(4, 8) =~= box_type);
    assert(s.subrange(8, size as int) =~= payload);
}

/// Boxes that parse on their own parse the same in front of any other bytes.
pub proof fn lemma_parse_concat(a: Seq<u8>, b: Seq<u8>)
    requires
        parse_boxes(a) is Some,
    ensures
        parse_boxes(a + b) == match parse_boxes(b) {
            Some(r) => Some(parse_boxes(a).unwrap() + r),
            None => None,
        },
    decreases a.len(),
{
    if a.len() == 0 {
        assert(a + b =~= b);
        match parse_boxes(b) {
            Some(r) => {
                assert(parse_boxes(a).unwrap() + r =~= r);
            },
            None => {},
        }
    } else {
        let size = be32_value(a);
        let s = a + b;
        assert(s.subrange(0, 4) =~= a.subrange(0, 4));
        assert(be32_value(s) == size);
        assert(s.skip(size) =~= a.skip(size) + b);
        assert(s.subrange(4, 8) =~= a.subrange(4, 8));
        assert(s.subrange(8, size) =~= a.subrange(8, size));
        lemma_parse_concat(a.skip(size), b);
        let head = seq![BoxView { box_type: a.subrange(4, 8), payload: a.subrange(8, size) }];
        match parse_boxes(b) {
            Some(r) => {
                let ra = parse_boxes(a.skip(size)).unwrap();
                assert(head + (ra + r) =~= (head + ra) + r);
            },
            None => {},
        }
    }
}

/// Appends the four big-endian bytes of `x`.
pub fn push_be32(buf: &mut Vec<u8>, x: u32)
    ensures
        final(buf)@ == old(buf)@ + be32(x),
{
    buf.push((x / 0x100_0000) as u8);
    buf.push(((x / 0x1_0000) % 0x100) as u8);
    buf.push(((x / 0x100) % 0x100) as u8);
    buf.push((x % 0x100) as u8);
    assert(buf@ =~= old(buf)@ + be32(x));
}

/// Appends `bytes`, in order.
pub fn push_bytes(buf: &mut Vec<u8>, bytes: &[u8])
    ensures
        final(buf)@ == old(buf)@ + bytes@,
{
    let ghost start = buf@;
    let n = bytes.len();
    let mut i: usize = 0;
    while i < n
        invariant
            n == bytes@.len(),
            i <= n,
            buf@ == start + bytes@.subrange(0, i as int),
        decreases n - i,
    {
        buf.push(bytes[i]);
        i = i + 1;
        assert(buf@ =~= start + bytes@.subrange(0, i as int));
    }
    assert(bytes@.subrange(0, n as int) =~= bytes@);
}

} // verus!
