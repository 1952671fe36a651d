//! The tag/length/value decoder used on every response buffer the reader
//! firmware returns: one tag byte, one length byte, then exactly that many
//! value bytes, repeated until the buffer ends.
use vstd::prelude::*;
use vstd::slice::*;

use crate::PcscError;

verus! {

/// Mathematical image of one decoded record.
#[verifier::ext_equal]
pub ghost struct TlvRec {
    pub tag: u8,
    pub value: Seq<u8>,
}

/// One decoded record: the tag byte and the value bytes that followed its
/// length byte.
pub struct TLVEntry {
    pub tag: u8,
    pub value: Vec<u8>,
}

impl View for TLVEntry {
    type V = TlvRec;

    open spec fn view(&self) -> TlvRec {
        TlvRec { tag: self.tag, value: self.value@ }
    }
}

/// The records a buffer decodes to, or `None` when some record's declared
/// length would read past the end of the buffer. Decoding is greedy and
/// succeeds exactly when the buffer ends on a record boundary.
pub open spec fn tlv_decode(s: Seq<u8>) -> Option<Seq<TlvRec>>
    decreases s.len(),
{
    if s.len() == 0 {
        Some(Seq::empty())
    } else if s.len() < 2 || s.len() < 2 + s[1] {
        None
    } else {
        let rec = TlvRec { tag: s[0], value: s.subrange(2, 2 + s[1]) };
        match tlv_decode(s.skip(2 + s[1])) {
            Some(rest) => Some(seq![rec] + rest),
            None => None,
        }
    }
}

/// A record can be framed only if its value fits the one-byte length field.
pub open spec fn tlv_wf(recs: Seq<TlvRec>) -> bool {
    forall|i: int| 0 <= i < recs.len() ==> (#[trigger] recs[i].value.len()) <= 255
}

/// The bytes that frame one record.
pub open spec fn tlv_encode_rec(r: TlvRec) -> Seq<u8> {
    seq![r.tag, r.value.len() as u8] + r.value
}

/// The buffer built by concatenating the framing of each record in order.
pub open spec fn tlv_encode(recs: Seq<TlvRec>) -> Seq<u8>
    decreases recs.len(),
{
    if recs.len() == 0 {
        Seq::empty()
    } else {
        tlv_encode_rec(recs[0]) + tlv_encode(recs.skip(1))
    }
}

/// The value of the first record carrying the tag, or `None` when no record
/// does. Later records with the same tag are ignored by policy.
pub open spec fn find_by_tag(recs: Seq<TlvRec>, tag: u8) -> Option<Seq<u8>>
    decreases recs.len(),
{
    if recs.len() == 0 {
        None
    } else if recs[0].tag == tag {
        Some(recs[0].value)
    } else {
        find_by_tag(recs.skip(1), tag)
    }
}

pub open spec fn entries_view(es: Seq<TLVEntry>) -> Seq<TlvRec> {
    Seq::new(es.len(), |i: int| es[i]@)
}

/// Holds the ordered records decoded from one response buffer.
pub struct TLVParser {
    pub entries: Vec<TLVEntry>,
}

impl View for TLVParser {
    type V = Seq<TlvRec>;

    open spec fn view(&self) -> Seq<TlvRec> {
        entries_view(self.entries@)
    }
}

impl TLVParser {
    /// Decodes a whole buffer into its ordered records; fails exactly when
    /// `tlv_decode` does, that is when a declared length runs past the end.
    pub fn parse_slice(data: &[u8]) -> (r: Result<TLVParser, PcscError>)
        ensures
            match r {
                Ok(p) => tlv_decode(data@) == Some(p@),
                Err(e) => tlv_decode(data@) is None && e == PcscError::MalformedResponse,
            },
    {
        let mut entries: Vec<TLVEntry> = Vec::new();
        let mut i: usize = 0;
        proof {
            assert(data@.skip(0) =~= data@);
            if let Some(all) = tlv_decode(data@) {
                assert(entries_view(entries@) + all =~= all);
            }
        }
        loop
            invariant
                i <= data@.len(),
                tlv_decode(data@) == (match tlv_decode(data@.skip(i as int)) {
                    Some(rest) => Some(entries_view(entries@) + rest),
                    None => None::<Seq<TlvRec>>,
                }),
            decreases data@.len() - i,
        {
            let ghost tail = data@.skip(i as int);
            if i == data.len() {
                proof {
                    assert(tail =~= Seq::<u8>::empty());
                    if let Some(rest) = tlv_decode(tail) {
                        assert(entries_view(entries@) + rest =~= entries_view(entries@));
                    }
                }
                return Ok(TLVParser { entries });
            }
            if data.len() - i < 2 {
                assert(tail.len() == 1);
                return Err(PcscError::MalformedResponse);
            }
            let tag: u8 = *slice_index_get(data, i);
            let len_b: u8 = *slice_index_get(data, i + 1);
            let vlen: usize = len_b as usize;
            proof {
                assert(tail[0] == data@[i as int]);
                assert(tail[1] == data@[i as int + 1]);
            }
            if data.len() - i - 2 < vlen {
                assert(tail.len() < 2 + tail[1]);
                return Err(PcscError::MalformedResponse);
            }
            let value: Vec<u8> = slice_to_vec(slice_subrange(data, i + 2, i + 2 + vlen));
            proof {
                assert(value@ =~= tail.subrange(2, 2 + tail[1]));
            }
            let ghost prev_entries = entries@;
            entries.push(TLVEntry { tag, value });
            proof {
                let rec = TlvRec { tag: tail[0], value: tail.subrange(2, 2 + tail[1]) };
                assert(entries_view(entries@) =~= entries_view(prev_entries) + seq![rec]);
                assert(data@.skip(i as int + 2 + vlen as int) =~= tail.skip(2 + tail[1]));
                if let Some(rest2) = tlv_decode(tail.skip(2 + tail[1])) {
                    assert(entries_view(prev_entries) + (seq![rec] + rest2)
                        =~= entries_view(entries@) + rest2);
                }
            }
            i = i + 2 + vlen;
        }
    }

    /// Returns the value of the first record carrying the tag. The law that
    /// duplicates are ignored is `lemma_find_by_tag_first_match`.
    pub fn find_value_by_tag(&self, tag: u8) -> (r: Option<Vec<u8>>)
        ensures
            match r {
                Some(v) => find_by_tag(self@, tag) == Some(v@),
                None => find_by_tag(self@, tag) is None,
            },
    {
        let mut i: usize = 0;
        assert(self@.skip(0) =~= self@);
        while i < self.entries.len()
            invariant
                i <= self.entries@.len(),
                find_by_tag(self@, tag) == find_by_tag(self@.skip(i as int), tag),
            decreases self.entries@.len() - i,
        {
            proof {
                assert(self@.skip(i as int)[0] == self@[i as int]);
                assert(self@.skip(i as int).skip(1) =~= self@.skip(i as int + 1));
            }
            if self.entries[i].tag == tag {
                let v = self.entries[i].value.clone();
                assert(v@ =~= self@[i as int].value);
                return Some(v);
            }
            i = i + 1;
        }
        assert(self@.skip(i as int) =~= Seq::<TlvRec>::empty());
        None
    }
}

/// Law: framing any well-formed records and decoding the concatenation gives
/// back exactly those records, in order.
pub proof fn lemma_tlv_round_trip(recs: Seq<TlvRec>)
    requires
        tlv_wf(recs),
    ensures
        tlv_decode(tlv_encode(recs)) == Some(recs),
    decreases recs.len(),
{
    if recs.len() == 0 {
        assert(tlv_decode(tlv_encode(recs)) matches Some(e) && e =~= recs);
    } else {
        let head = recs[0];
        let tail = recs.skip(1);
        let enc = tlv_encode(recs);
        let l = head.value.len() as int;
        assert(head.value.len() <= 255);
        assert(enc =~= tlv_encode_rec(head) + tlv_encode(tail));
        assert(enc[0] == head.tag);
        assert(enc[1] == l as u8);
        assert(enc.len() == 2 + l + tlv_encode(tail).len());
        assert forall|i: int| 0 <= i < tail.len() implies (#[trigger] tail[i].value.len())
            <= 255 by {
            assert(tail[i] == recs[i + 1]);
        }
        lemma_tlv_round_trip(tail);
        assert(enc.subrange(2, 2 + l) =~= head.value);
        assert(enc.skip(2 + l) =~= tlv_encode(tail));
        let rec = TlvRec { tag: enc[0], value: enc.subrange(2, 2 + enc[1]) };
        assert(rec =~= head);
        assert(tlv_decode(enc) == Some(seq![rec] + tail));
        assert(seq![rec] + tail =~= recs);
    }
}

/// Law: a buffer that decodes was exactly a concatenation of well-formed
/// records — decoding is injectively inverted by framing.
pub proof fn lemma_tlv_decode_encode(s: Seq<u8>)
    requires
        tlv_decode(s) is Some,
    ensures
        tlv_wf(tlv_decode(s)->Some_0),
        tlv_encode(tlv_decode(s)->Some_0) == s,
    decreases s.len(),
{
    let recs = tlv_decode(s)->Some_0;
    if s.len() == 0 {
        assert(tlv_encode(recs) =~= s);
    } else {
        let l = s[1] as int;
        let rec = TlvRec { tag: s[0], value: s.subrange(2, 2 + l) };
        let rest = s.skip(2 + l);
        lemma_tlv_decode_encode(rest);
        let tail = tlv_decode(rest)->Some_0;
        assert(recs == seq![rec] + tail);
        assert forall|i: int| 0 <= i < recs.len() implies (#[trigger] recs[i].value.len())
            <= 255 by {
            if i > 0 {
                assert(recs[i] == tail[i - 1]);
            }
        }
        assert(recs.skip(1) =~= tail);
        assert(recs[0] == rec);
        assert(tlv_encode(recs) == tlv_encode_rec(rec) + tlv_encode(tail));
        assert(tlv_encode_rec(rec) + rest =~= s);
    }
}

/// The length of the buffer that frames the first `n` records; the numbers
/// of this form are the record boundaries of the framed buffer.
pub open spec fn tlv_boundary(recs: Seq<TlvRec>, n: int) -> int {
    tlv_encode(recs.take(n)).len() as int
}

/// Law: cutting the framed buffer anywhere but on a record boundary — in
/// particular mid-value — makes decoding fail.
pub proof fn lemma_tlv_truncated_fails(recs: Seq<TlvRec>, cut: int)
    requires
        tlv_wf(recs),
        0 <= cut < tlv_encode(recs).len(),
        forall|n: int| 0 <= n <= recs.len() ==> #[trigger] tlv_boundary(recs, n) != cut,
    ensures
        tlv_decode(tlv_encode(recs).take(cut)) is None,
    decreases recs.len(),
{
    let head = recs[0];
    let tail = recs.skip(1);
    let enc = tlv_encode(recs);
    let l = head.value.len() as int;
    assert(recs.len() > 0);
    assert(head.value.len() <= 255);
    assert(enc =~= tlv_encode_rec(head) + tlv_encode(tail));
    let b = enc.take(cut);
    assert(recs.take(0) =~= Seq::<TlvRec>::empty());
    assert(tlv_boundary(recs, 0) == 0);
    assert(cut != 0);
    assert(recs.take(1) =~= seq![head]);
    assert(seq![head].skip(1) =~= Seq::<TlvRec>::empty());
    assert(tlv_encode(seq![head]) =~= tlv_encode_rec(head));
    assert(tlv_boundary(recs, 1) == 2 + l);
    assert(cut != 2 + l);
    if cut < 2 + l {
        if cut == 1 {
            assert(b.len() == 1);
        } else {
            assert(b[1] == l as u8);
            assert(b.len() < 2 + l);
        }
    } else {
        assert(b[1] == l as u8);
        assert(b.len() >= 2 + l);
        assert(b.skip(2 + l) =~= tlv_encode(tail).take(cut - (2 + l)));
        assert forall|i: int| 0 <= i < tail.len() implies (#[trigger] tail[i].value.len())
            <= 255 by {
            assert(tail[i] == recs[i + 1]);
        }
        assert forall|n: int| 0 <= n <= tail.len() implies #[trigger] tlv_boundary(tail, n) != cut
            - (2 + l) by {
            assert(recs.take(n + 1)[0] == head);
            assert(recs.take(n + 1).skip(1) =~= tail.take(n));
            assert(tlv_encode(recs.take(n + 1)) == tlv_encode_rec(head) + tlv_encode(tail.take(n)));
            assert(tlv_boundary(recs, n + 1) == 2 + l + tlv_boundary(tail, n));
        }
        lemma_tlv_truncated_fails(tail, cut - (2 + l));
    }
}

/// Law: when two records share a tag, lookup returns the first occurrence's
/// value and ignores the later ones.
pub proof fn lemma_find_by_tag_first_match(recs: Seq<TlvRec>, tag: u8, i: int)
    requires
        0 <= i < recs.len(),
        recs[i].tag == tag,
        forall|k: int| 0 <= k < i ==> (#[trigger] recs[k]).tag != tag,
    ensures
        find_by_tag(recs, tag) == Some(recs[i].value),
    decreases i,
{
    if i > 0 {
        let tail = recs.skip(1);
        assert(recs[0].tag != tag);
        assert(tail[i - 1] == recs[i]);
        assert forall|k: int| 0 <= k < i - 1 implies (#[trigger] tail[k]).tag != tag by {
            assert(tail[k] == recs[k + 1]);
        }
        lemma_find_by_tag_first_match(tail, tag, i - 1);
    }
}

} // verus!
