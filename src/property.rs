use vstd::prelude::*;
use vstd::utf8::encode_utf8;
use crate::atom::AtomTable;

verus! {

/// Names a property or a property type: either an atom already known, or a
/// name that the connection has to resolve first.
pub enum PropID {
    Atom(u32),
    Str(String),
}

/// What a `PropID` denotes: an atom, or a name given by its characters.
pub enum PropIdView {
    Atom(u32),
    Name(Seq<char>),
}

/// The bytes of a name as the server receives them.
pub open spec fn name_bytes(s: Seq<char>) -> Seq<u8> {
    encode_utf8(s)
}

/// The atom that `p` denotes under the resolutions in `m`.
pub open spec fn resolve_id(p: PropIdView, m: Map<Seq<u8>, u32>) -> Option<u32> {
    match p {
        PropIdView::Atom(a) => Some(a),
        PropIdView::Name(s) => if m.contains_key(name_bytes(s)) {
            Some(m[name_bytes(s)])
        } else {
            None
        },
    }
}

impl View for PropID {
    type V = PropIdView;

    open spec fn view(&self) -> PropIdView {
        match self {
            PropID::Atom(a) => PropIdView::Atom(*a),
            PropID::Str(s) => PropIdView::Name(s@),
        }
    }
}

impl PropID {
    /// The atom this identifier denotes under the resolutions in `m`.
    pub open spec fn resolved(&self, m: Map<Seq<u8>, u32>) -> Option<u32> {
        resolve_id(self@, m)
    }

    /// The name that still has to be resolved, if any.
    pub fn pending_name(&self) -> (r: Option<&[u8]>)
        ensures
            match self {
                PropID::Atom(_) => r is None,
                PropID::Str(s) => r matches Some(b) && b@ == name_bytes(s@),
            },
    {
        match self {
            PropID::Atom(_) => None,
            PropID::Str(s) => Some(s.as_str().as_bytes()),
        }
    }

    /// The atom of this identifier, as far as `table` knows it.
    pub fn get_atom(&self, table: &AtomTable) -> (r: Option<u32>)
        requires
            table.wf(),
        ensures
            r == self.resolved(table@),
    {
        match self {
            PropID::Atom(a) => Some(*a),
            PropID::Str(s) => table.lookup(s.as_str().as_bytes()),
        }
    }
}

/// The value of a property: 8-bit elements, 32-bit elements, or one atom.
pub enum PropVal {
    Bytes(Vec<u8>),
    Words(Vec<u32>),
    PropID(PropID),
}

/// What a `PropVal` holds, as plain values.
pub enum PropValView {
    Bytes(Seq<u8>),
    Words(Seq<u32>),
    Id(PropIdView),
}

impl View for PropVal {
    type V = PropValView;

    open spec fn view(&self) -> PropValView {
        match self {
            PropVal::Bytes(b) => PropValView::Bytes(b@),
            PropVal::Words(w) => PropValView::Words(w@),
            PropVal::PropID(p) => PropValView::Id(p@),
        }
    }
}

/// The four bytes of a 32-bit element, least significant first.
pub open spec fn word_bytes(w: u32) -> Seq<u8> {
    seq![
        (w % 256) as u8,
        ((w / 256) % 256) as u8,
        ((w / 65536) % 256) as u8,
        (w / 16777216) as u8,
    ]
}

/// The bytes of a list of 32-bit elements, each as `word_bytes` lays it out.
pub open spec fn words_bytes(ws: Seq<u32>) -> Seq<u8>
    decreases ws.len(),
{
    if ws.len() == 0 {
        Seq::empty()
    } else {
        words_bytes(ws.drop_last()) + word_bytes(ws.last())
    }
}

/// A property value as the change-property request carries it: the element
/// width in bits, the number of elements, and the bytes.
pub struct EncodedValue {
    pub format: u8,
    pub count: usize,
    pub data: Vec<u8>,
}

impl EncodedValue {
    pub open spec fn view(&self) -> (u8, nat, Seq<u8>) {
        (self.format, self.count as nat, self.data@)
    }
}

/// What `v` encodes to under the resolutions in `m`; `None` where it names an
/// atom that is not resolved.
pub open spec fn encoding(v: PropValView, m: Map<Seq<u8>, u32>) -> Option<(u8, nat, Seq<u8>)> {
    match v {
        PropValView::Bytes(b) => Some((8u8, b.len(), b)),
        PropValView::Words(w) => Some((32u8, w.len(), words_bytes(w))),
        PropValView::Id(p) => match resolve_id(p, m) {
            Some(a) => Some((32u8, 1nat, word_bytes(a))),
            None => None,
        },
    }
}

fn push_word(out: &mut Vec<u8>, w: u32)
    ensures
        final(out)@ == old(out)@ + word_bytes(w),
{
    out.push((w % 256) as u8);
    out.push(((w / 256) % 256) as u8);
    out.push(((w / 65536) % 256) as u8);
    out.push((w / 16777216) as u8);
    assert(final(out)@ =~= old(out)@ + word_bytes(w));
}

/// The bytes of `ws`, each element least significant byte first.
pub fn encode_words(ws: &[u32]) -> (r: Vec<u8>)
    ensures
        r@ == words_bytes(ws@),
{
    let mut out: Vec<u8> = Vec::new();
    let mut i: usize = 0;
    while i < ws.len()
        invariant
            0 <= i <= ws@.len(),
            out@ == words_bytes(ws@.subrange(0, i as int)),
        decreases ws@.len() - i,
    {
        push_word(&mut out, ws[i]);
        proof {
            let next = ws@.subrange(0, i + 1);
            assert(next.drop_last() =~= ws@.subrange(0, i as int));
        }
        i = i + 1;
    }
    assert(ws@.subrange(0, ws@.len() as int) =~= ws@);
    out
}

impl PropVal {
    /// Encodes the value for a change-property request.
    pub fn encode(&self, table: &AtomTable) -> (r: Option<EncodedValue>)
        requires
            table.wf(),
        ensures
            r is Some <==> encoding(self@, table@) is Some,
            r matches Some(e) ==> encoding(self@, table@) == Some(e@),
    {
        match self {
            PropVal::Bytes(b) => Some(EncodedValue { format: 8, count: b.len(), data: b.clone() }),
            PropVal::Words(w) => Some(
                EncodedValue { format: 32, count: w.len(), data: encode_words(w.as_slice()) },
            ),
            PropVal::PropID(p) => match p.get_atom(table) {
                Some(a) => {
                    let mut data: Vec<u8> = Vec::new();
                    push_word(&mut data, a);
                    assert(data@ =~= word_bytes(a));
                    Some(EncodedValue { format: 32, count: 1, data })
                },
                None => None,
            },
        }
    }
}

} // verus!
