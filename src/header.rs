//! The header collection: an ordered multimap whose field names compare
//! without regard to ASCII case.

use vstd::prelude::*;
use crate::bytes::{crlf, push_bytes, push_crlf};
use crate::numeral::{decimal, format_decimal, parse_decimal, parsed_u64};

verus! {

/// A field as the contracts see it: its name and its values, in order.
pub type FieldView = (Seq<u8>, Seq<Seq<u8>>);

/// The contents of a list of byte strings.
pub open spec fn byte_strings(vs: Seq<Vec<u8>>) -> Seq<Seq<u8>> {
    vs.map_values(|v: Vec<u8>| v@)
}

/// ASCII lower-casing of one byte.
pub open spec fn lower(c: u8) -> u8 {
    if 65 <= c <= 90 {
        (c + 32) as u8
    } else {
        c
    }
}

/// Two field names are the same name when they agree up to ASCII case.
pub open spec fn same_name(a: Seq<u8>, b: Seq<u8>) -> bool {
    a.len() == b.len() && forall|i: int| 0 <= i < a.len() ==> lower(#[trigger] a[i]) == lower(b[i])
}

/// The position of the first field named `name`, or -1 when there is none.
pub open spec fn index_of(h: Seq<FieldView>, name: Seq<u8>) -> int
    decreases h.len(),
{
    if h.len() == 0 {
        -1
    } else {
        let i = index_of(h.drop_last(), name);
        if i >= 0 {
            i
        } else if same_name(h.last().0, name) {
            h.len() - 1
        } else {
            -1
        }
    }
}

/// The values of the field named `name`.
pub open spec fn values_of(h: Seq<FieldView>, name: Seq<u8>) -> Option<Seq<Seq<u8>>> {
    let i = index_of(h, name);
    if i >= 0 {
        Some(h[i].1)
    } else {
        None
    }
}

/// `h` with the field named `name` holding exactly `values`: a field already
/// there keeps its place and its spelling, else a new field goes last.
pub open spec fn with_values(h: Seq<FieldView>, name: Seq<u8>, values: Seq<Seq<u8>>) -> Seq<
    FieldView,
> {
    let i = index_of(h, name);
    if i >= 0 {
        h.update(i, (h[i].0, values))
    } else {
        h.push((name, values))
    }
}

/// `h` with `value` added after the values of the field named `name`, or
/// with a new last field holding `value` alone.
pub open spec fn with_appended(h: Seq<FieldView>, name: Seq<u8>, value: Seq<u8>) -> Seq<FieldView> {
    let i = index_of(h, name);
    if i >= 0 {
        h.update(i, (h[i].0, h[i].1.push(value)))
    } else {
        h.push((name, seq![value]))
    }
}

/// The values of a field joined by a comma and a space.
pub open spec fn joined(vs: Seq<Seq<u8>>) -> Seq<u8>
    decreases vs.len(),
{
    if vs.len() == 0 {
        Seq::empty()
    } else if vs.len() == 1 {
        vs[0]
    } else {
        joined(vs.drop_last()) + seq![44u8, 32] + vs.last()
    }
}

/// One field as it stands in a message head: `Name: v1, v2` and a line end.
pub open spec fn field_line(f: FieldView) -> Seq<u8> {
    f.0 + seq![58u8, 32] + joined(f.1) + crlf()
}

/// All fields of `h`, one line each, in order.
pub open spec fn fields_bytes(h: Seq<FieldView>) -> Seq<u8>
    decreases h.len(),
{
    if h.len() == 0 {
        Seq::empty()
    } else {
        fields_bytes(h.drop_last()) + field_line(h.last())
    }
}

/// `Content-Length`
pub open spec fn content_length_name() -> Seq<u8> {
    seq![67u8, 111, 110, 116, 101, 110, 116, 45, 76, 101, 110, 103, 116, 104]
}

/// `Transfer-Encoding`
pub open spec fn transfer_encoding_name() -> Seq<u8> {
    seq![84u8, 114, 97, 110, 115, 102, 101, 114, 45, 69, 110, 99, 111, 100, 105, 110, 103]
}

/// `Host`
pub open spec fn host_name() -> Seq<u8> {
    seq![72u8, 111, 115, 116]
}

/// `chunked`
pub open spec fn chunked_token() -> Seq<u8> {
    seq![99u8, 104, 117, 110, 107, 101, 100]
}

/// The length that a `Content-Length` field gives: present only when the
/// field holds one value that is a decimal number fitting in a `u64`.
pub open spec fn content_length_of(h: Seq<FieldView>) -> Option<u64> {
    match values_of(h, content_length_name()) {
        Some(vs) => if vs.len() == 1 {
            parsed_u64(vs[0])
        } else {
            None
        },
        None => None,
    }
}

pub proof fn lemma_index_range(h: Seq<FieldView>, name: Seq<u8>)
    ensures
        -1 <= index_of(h, name) < h.len(),
        index_of(h, name) >= 0 ==> same_name(h[index_of(h, name)].0, name),
    decreases h.len(),
{
    if h.len() > 0 {
        lemma_index_range(h.drop_last(), name);
    }
}

proof fn lemma_index_prefix(h: Seq<FieldView>, name: Seq<u8>, j: int)
    requires
        0 <= j <= h.len(),
        index_of(h.subrange(0, j), name) >= 0,
    ensures
        index_of(h, name) == index_of(h.subrange(0, j), name),
    decreases h.len(),
{
    if j == h.len() {
        assert(h.subrange(0, j) =~= h);
    } else {
        assert(h.drop_last().subrange(0, j) =~= h.subrange(0, j));
        lemma_index_prefix(h.drop_last(), name, j);
    }
}

/// No field is named `name` exactly when the search finds none.
pub proof fn lemma_absent(h: Seq<FieldView>, name: Seq<u8>)
    ensures
        index_of(h, name) == -1 <==> forall|i: int| 0 <= i < h.len() ==> !same_name(#[trigger] h[i].0, name),
    decreases h.len(),
{
    lemma_index_range(h, name);
    if h.len() > 0 {
        lemma_absent(h.drop_last(), name);
        assert forall|i: int| 0 <= i < h.len() - 1 implies h[i] == #[trigger] h.drop_last()[i] by {}
        if index_of(h, name) == -1 {
            assert forall|i: int| 0 <= i < h.len() implies !same_name(#[trigger] h[i].0, name) by {
                if i < h.len() - 1 {
                    assert(h[i] == h.drop_last()[i]);
                }
            }
        }
    }
}

/// The search depends on the names alone: giving a field other values
/// leaves it where it is.
pub proof fn lemma_index_update(h: Seq<FieldView>, name: Seq<u8>, j: int, vs: Seq<Seq<u8>>)
    requires
        0 <= j < h.len(),
    ensures
        index_of(h.update(j, (h[j].0, vs)), name) == index_of(h, name),
    decreases h.len(),
{
    let g = h.update(j, (h[j].0, vs));
    if j < h.len() - 1 {
        assert(g.drop_last() =~= h.drop_last().update(j, (h[j].0, vs)));
        lemma_index_update(h.drop_last(), name, j, vs);
    } else {
        assert(g.drop_last() =~= h.drop_last());
    }
}

/// A field pushed after fields that do not match is the one found.
pub proof fn lemma_index_push(h: Seq<FieldView>, name: Seq<u8>, f: FieldView)
    requires
        index_of(h, name) == -1,
        same_name(f.0, name),
    ensures
        index_of(h.push(f), name) == h.len(),
{
    assert(h.push(f).drop_last() =~= h);
}

/// One field: its name as first written and its values in order.
pub struct HeaderField {
    pub name: Vec<u8>,
    pub values: Vec<Vec<u8>>,
}

impl HeaderField {
    pub open spec fn view(&self) -> FieldView {
        (self.name@, byte_strings(self.values@))
    }
}

/// An ordered collection of header fields.
pub struct Headers {
    fields: Vec<HeaderField>,
}

impl View for Headers {
    type V = Seq<FieldView>;

    closed spec fn view(&self) -> Seq<FieldView> {
        self.fields@.map_values(|f: HeaderField| f.view())
    }
}

fn bytes_same_name(a: &[u8], b: &[u8]) -> (r: bool)
    ensures
        r == same_name(a@, b@),
{
    if a.len() != b.len() {
        return false;
    }
    let mut i: usize = 0;
    while i < a.len()
        invariant
            a.len() == b.len(),
            0 <= i <= a.len(),
            forall|k: int| 0 <= k < i ==> lower(#[trigger] a@[k]) == lower(b@[k]),
        decreases a.len() - i,
    {
        let x = a[i];
        let y = b[i];
        let lx = if 65 <= x && x <= 90 { x + 32 } else { x };
        let ly = if 65 <= y && y <= 90 { y + 32 } else { y };
        if lx != ly {
            return false;
        }
        i = i + 1;
    }
    true
}

/// The bytes of a constant name or token.
fn content_length_bytes() -> (r: Vec<u8>)
    ensures
        r@ == content_length_name(),
{
    let r = vec![67u8, 111, 110, 116, 101, 110, 116, 45, 76, 101, 110, 103, 116, 104];
    assert(r@ =~= content_length_name());
    r
}

pub(crate) fn transfer_encoding_bytes() -> (r: Vec<u8>)
    ensures
        r@ == transfer_encoding_name(),
{
    let r = vec![84u8, 114, 97, 110, 115, 102, 101, 114, 45, 69, 110, 99, 111, 100, 105, 110, 103];
    assert(r@ =~= transfer_encoding_name());
    r
}

pub(crate) fn host_bytes() -> (r: Vec<u8>)
    ensures
        r@ == host_name(),
{
    let r = vec![72u8, 111, 115, 116];
    assert(r@ =~= host_name());
    r
}

pub(crate) fn chunked_bytes() -> (r: Vec<u8>)
    ensures
        r@ == chunked_token(),
{
    let r = vec![99u8, 104, 117, 110, 107, 101, 100];
    assert(r@ =~= chunked_token());
    r
}

impl Headers {
    /// An empty collection.
    pub fn new() -> (r: Headers)
        ensures
            r@ == Seq::<FieldView>::empty(),
    {
        let r = Headers { fields: Vec::new() };
        assert(r@ =~= Seq::<FieldView>::empty());
        r
    }

    /// The number of distinct fields.
    pub fn len(&self) -> (r: usize)
        ensures
            r == self@.len(),
    {
        self.fields.len()
    }

    /// The position of the field named `name`, if there is one.
    fn position(&self, name: &[u8]) -> (r: Option<usize>)
        ensures
            match r {
                Some(i) => i as int == index_of(self@, name@) && i < self@.len(),
                None => index_of(self@, name@) == -1,
            },
    {
        let mut i: usize = 0;
        while i < self.fields.len()
            invariant
                0 <= i <= self.fields@.len(),
                index_of(self@.subrange(0, i as int), name@) == -1,
            decreases self.fields@.len() - i,
        {
            let ghost pre = self@.subrange(0, i as int + 1);
            assert(pre.drop_last() =~= self@.subrange(0, i as int));
            if bytes_same_name(self.fields[i].name.as_slice(), name) {
                proof {
                    lemma_index_prefix(self@, name@, i as int + 1);
                }
                return Some(i);
            }
            i = i + 1;
        }
        assert(self@.subrange(0, self@.len() as int) =~= self@);
        None
    }

    /// Whether a field named `name` is present.
    pub fn contains(&self, name: &[u8]) -> (r: bool)
        ensures
            r == (index_of(self@, name@) >= 0),
    {
        self.position(name).is_some()
    }

    /// The values of the field named `name`.
    pub fn get_raw(&self, name: &[u8]) -> (r: Option<&Vec<Vec<u8>>>)
        ensures
            match r {
                Some(vs) => values_of(self@, name@) == Some(byte_strings(vs@)),
                None => values_of(self@, name@).is_none(),
            },
    {
        match self.position(name) {
            Some(i) => Some(&self.fields[i].values),
            None => None,
        }
    }

    /// Makes `values` the values of the field named `name`, replacing what it
    /// held; a new field goes last.
    pub fn set_raw(&mut self, name: Vec<u8>, values: Vec<Vec<u8>>)
        ensures
            final(self)@ == with_values(old(self)@, name@, byte_strings(values@)),
    {
        match self.position(name.as_slice()) {
            Some(i) => {
                self.fields[i].values = values;
                assert(self@ =~= with_values(old(self)@, name@, byte_strings(values@)));
            },
            None => {
                self.fields.push(HeaderField { name, values });
                assert(self@ =~= with_values(old(self)@, name@, byte_strings(values@)));
            },
        }
    }

    /// Adds `value` after the values of the field named `name`, or adds the
    /// field with that one value.
    pub fn append_raw(&mut self, name: Vec<u8>, value: Vec<u8>)
        ensures
            final(self)@ == with_appended(old(self)@, name@, value@),
    {
        match self.position(name.as_slice()) {
            Some(i) => {
                let ghost before = byte_strings(self.fields@[i as int].values@);
                self.fields[i].values.push(value);
                assert(byte_strings(self.fields@[i as int].values@) =~= before.push(value@));
                assert(self@ =~= with_appended(old(self)@, name@, value@));
            },
            None => {
                let values = vec![value];
                assert(byte_strings(values@) =~= seq![value@]);
                self.fields.push(HeaderField { name, values });
                assert(self@ =~= with_appended(old(self)@, name@, value@));
            },
        }
    }

    /// The length that the `Content-Length` field states.
    pub fn content_length(&self) -> (r: Option<u64>)
        ensures
            r == content_length_of(self@),
    {
        let name = content_length_bytes();
        match self.get_raw(name.as_slice()) {
            Some(vs) => if vs.len() == 1 {
                parse_decimal(vs[0].as_slice())
            } else {
                None
            },
            None => None,
        }
    }

    /// Sets the `Content-Length` field to `n`.
    pub fn set_content_length(&mut self, n: u64)
        ensures
            final(self)@ == with_values(old(self)@, content_length_name(), seq![decimal(n as nat)]),
    {
        let v = vec![format_decimal(n)];
        assert(byte_strings(v@) =~= seq![decimal(n as nat)]);
        self.set_raw(content_length_bytes(), v);
    }

    /// The fields as they stand in a message head.
    pub fn to_bytes(&self) -> (r: Vec<u8>)
        ensures
            r@ == fields_bytes(self@),
    {
        let mut out: Vec<u8> = Vec::new();
        let mut i: usize = 0;
        while i < self.fields.len()
            invariant
                0 <= i <= self.fields@.len(),
                out@ == fields_bytes(self@.subrange(0, i as int)),
            decreases self.fields@.len() - i,
        {
            let f = &self.fields[i];
            push_bytes(&mut out, f.name.as_slice());
            out.push(58u8);
            out.push(32u8);
            let mut j: usize = 0;
            let ghost base = out@;
            while j < f.values.len()
                invariant
                    0 <= j <= f.values@.len(),
                    out@ == base + joined(byte_strings(f.values@).subrange(0, j as int)),
                decreases f.values@.len() - j,
            {
                let ghost vs = byte_strings(f.values@).subrange(0, j as int + 1);
                assert(vs.drop_last() =~= byte_strings(f.values@).subrange(0, j as int));
                if j > 0 {
                    out.push(44u8);
                    out.push(32u8);
                }
                push_bytes(&mut out, f.values[j].as_slice());
                j = j + 1;
                assert(out@ =~= base + joined(byte_strings(f.values@).subrange(0, j as int)));
            }
            assert(byte_strings(f.values@).subrange(0, j as int) =~= byte_strings(f.values@));
            push_crlf(&mut out);
            let ghost pre = self@.subrange(0, i as int + 1);
            assert(pre.drop_last() =~= self@.subrange(0, i as int));
            i = i + 1;
            assert(out@ =~= fields_bytes(self@.subrange(0, i as int)));
        }
        assert(self@.subrange(0, self@.len() as int) =~= self@);
        out
    }
}

} // verus!
