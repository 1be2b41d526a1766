//! The attributes of an asset, and the asset id that they determine: the
//! hash of their SCALE encoding.
use vstd::prelude::*;
use crate::bytes::{bytes_less, copy_bytes, lex_lt, lemma_lex_transitive};
use crate::frame::Digest;
use crate::hashing::{blake2_256, blake2_256_of};

verus! {

/// The identifier of an asset: the hash of its attributes.
pub type AssetId = Digest;

/// The attributes of an asset.
///
/// `properties` stands for an ordered map from keys to values: its keys
/// ascend strictly (see `MetadataView::wf`), which is the order in which the
/// map's SCALE encoding lists them. It is a list rather than a `BTreeMap`
/// because vstd specifies `BTreeMap` only for keys whose order it knows, and
/// byte-string keys are not among them; a list with that invariant holds the
/// same map, encodes to the same bytes, and its order is proved here.
#[derive(Clone, PartialEq, Eq, Debug)]
pub struct AssetMetadata {
    pub name: Vec<u8>,
    pub content_uri: Vec<u8>,
    pub properties: Option<Vec<(Vec<u8>, Vec<u8>)>>,
    pub initial_price: Option<u128>,
}

/// The attributes of an asset, as values.
pub struct MetadataView {
    pub name: Seq<u8>,
    pub content_uri: Seq<u8>,
    pub properties: Option<Seq<(Seq<u8>, Seq<u8>)>>,
    pub initial_price: Option<u128>,
}

/// The key/value pairs of a property list, as values.
pub open spec fn pairs_view(pairs: Seq<(Vec<u8>, Vec<u8>)>) -> Seq<(Seq<u8>, Seq<u8>)> {
    pairs.map_values(|p: (Vec<u8>, Vec<u8>)| (p.0@, p.1@))
}

/// The keys of a property list ascend strictly.
pub open spec fn keys_ascend(pairs: Seq<(Seq<u8>, Seq<u8>)>) -> bool {
    forall|i: int, j: int| 0 <= i < j < pairs.len() ==> lex_lt(pairs[i].0, pairs[j].0)
}

impl View for AssetMetadata {
    type V = MetadataView;

    open spec fn view(&self) -> MetadataView {
        MetadataView {
            name: self.name@,
            content_uri: self.content_uri@,
            properties: match self.properties {
                Some(p) => Some(pairs_view(p@)),
                None => None,
            },
            initial_price: self.initial_price,
        }
    }
}

impl MetadataView {
    /// Every length that the encoding writes fits in a `u32`, as SCALE's
    /// compact length prefix requires.
    pub open spec fn encodable(self) -> bool {
        &&& self.name.len() <= u32::MAX
        &&& self.content_uri.len() <= u32::MAX
        &&& match self.properties {
            Some(p) => {
                &&& p.len() <= u32::MAX
                &&& forall|i: int|
                    0 <= i < p.len() ==> (#[trigger] p[i]).0.len() <= u32::MAX && p[i].1.len()
                        <= u32::MAX
            },
            None => true,
        }
    }

    /// The attributes can be encoded, and the properties, if present, form a
    /// map: their keys ascend strictly.
    pub open spec fn wf(self) -> bool {
        &&& self.encodable()
        &&& match self.properties {
            Some(p) => keys_ascend(p),
            None => true,
        }
    }
}

/// The `n` lowest bytes of `x`, least significant first.
pub open spec fn le_bytes(x: nat, n: nat) -> Seq<u8>
    decreases n,
{
    if n == 0 {
        Seq::empty()
    } else {
        seq![(x % 256) as u8] + le_bytes(x / 256, (n - 1) as nat)
    }
}

/// SCALE's compact encoding of a length below 2^32: one, two or four bytes
/// holding `n` shifted left by two with the mode in the low bits, or the mode
/// byte 3 followed by `n` in four bytes.
pub open spec fn compact_len(n: nat) -> Seq<u8> {
    if n < 0x40 {
        le_bytes(n * 4, 1)
    } else if n < 0x4000 {
        le_bytes(n * 4 + 1, 2)
    } else if n < 0x4000_0000 {
        le_bytes(n * 4 + 2, 4)
    } else {
        seq![3u8] + le_bytes(n, 4)
    }
}

/// The SCALE encoding of a byte string: its length, then its bytes.
pub open spec fn encode_bytes(b: Seq<u8>) -> Seq<u8> {
    compact_len(b.len()) + b
}

/// The SCALE encoding of the pairs of a property list, without the length.
pub open spec fn encode_pairs(pairs: Seq<(Seq<u8>, Seq<u8>)>) -> Seq<u8>
    decreases pairs.len(),
{
    if pairs.len() == 0 {
        Seq::empty()
    } else {
        encode_pairs(pairs.drop_last()) + encode_bytes(pairs.last().0) + encode_bytes(
            pairs.last().1,
        )
    }
}

/// The SCALE encoding of the attributes `(name, content_uri, properties,
/// initial_price)`, fields in that order: each byte string with its length,
/// an option as a 0 or 1 byte followed by the value, the property list as its
/// length and then each key and value, the price as 16 bytes, least
/// significant first.
pub open spec fn metadata_encoding(
    name: Seq<u8>,
    content_uri: Seq<u8>,
    properties: Option<Seq<(Seq<u8>, Seq<u8>)>>,
    initial_price: Option<u128>,
) -> Seq<u8> {
    encode_bytes(name) + encode_bytes(content_uri) + match properties {
        None => seq![0u8],
        Some(p) => seq![1u8] + compact_len(p.len()) + encode_pairs(p),
    } + match initial_price {
        None => seq![0u8],
        Some(x) => seq![1u8] + le_bytes(x as nat, 16),
    }
}

/// The id of an asset with the attributes `m`: the hash of their encoding.
pub open spec fn asset_id_of(m: MetadataView) -> AssetId {
    blake2_256_of(metadata_encoding(m.name, m.content_uri, m.properties, m.initial_price))
}

/// SCALE-encodes the four attributes with `parity_scale_codec::Encode::encode`
/// on the tuple of the fields. Trusted: the bytes are `metadata_encoding` of
/// the field values (a tuple encodes as its fields one after another, as the
/// struct's derived encoding does; a `Vec` as its compact length and its
/// items; an `Option` as a variant byte and the value; a `u128` in little
/// endian; and a list of pairs with strictly ascending keys as the
/// `BTreeMap` holding them). The codec panics on a collection longer than
/// `u32::MAX`, which `requires` leaves out.
#[verifier::external_body]
fn scale_encode(m: &AssetMetadata) -> (r: Vec<u8>)
    requires
        m@.encodable(),
    ensures
        r@ == metadata_encoding(m@.name, m@.content_uri, m@.properties, m@.initial_price),
{
    parity_scale_codec::Encode::encode(&(&m.name, &m.content_uri, &m.properties, &m.initial_price))
}

/// Whether a length fits in a `u32`.
fn fits_u32(n: usize) -> (r: bool)
    ensures
        r == (n <= u32::MAX),
{
    n as u64 <= 0xffff_ffffu64
}

impl AssetMetadata {
    /// The id of the asset with these attributes.
    pub fn asset_id(&self) -> (r: AssetId)
        requires
            self@.encodable(),
        ensures
            r == asset_id_of(self@),
    {
        let encoded = scale_encode(self);
        blake2_256(encoded.as_slice())
    }

    /// Whether the property keys ascend strictly, as those of a map do.
    pub fn is_well_formed(&self) -> (r: bool)
        ensures
            r == self@.wf(),
    {
        self.is_encodable() && self.keys_in_order()
    }

    /// Whether every length the encoding writes fits in a `u32`.
    pub fn is_encodable(&self) -> (r: bool)
        ensures
            r == self@.encodable(),
    {
        if !fits_u32(self.name.len()) || !fits_u32(self.content_uri.len()) {
            return false;
        }
        match &self.properties {
            None => true,
            Some(pairs) => {
                let ghost pv = pairs_view(pairs@);
                assert(self@.properties == Some(pv));
                if !fits_u32(pairs.len()) {
                    return false;
                }
                let mut i: usize = 0;
                while i < pairs.len()
                    invariant
                        pv == pairs_view(pairs@),
                        self@.properties == Some(pv),
                        0 <= i <= pairs@.len(),
                        forall|j: int|
                            0 <= j < i ==> (#[trigger] pv[j]).0.len() <= u32::MAX && pv[j].1.len()
                                <= u32::MAX,
                    decreases pairs@.len() - i,
                {
                    if !fits_u32(pairs[i].0.len()) || !fits_u32(pairs[i].1.len()) {
                        assert(pv[i as int].0 == pairs@[i as int].0@);
                        assert(pv[i as int].1 == pairs@[i as int].1@);
                        return false;
                    }
                    assert(pv[i as int].0 == pairs@[i as int].0@);
                    assert(pv[i as int].1 == pairs@[i as int].1@);
                    i = i + 1;
                }
                true
            },
        }
    }

    /// Whether the property keys, if present, ascend strictly.
    fn keys_in_order(&self) -> (r: bool)
        ensures
            r == match self@.properties {
                Some(p) => keys_ascend(p),
                None => true,
            },
    {
        match &self.properties {
            None => true,
            Some(pairs) => {
                let n = pairs.len();
                if n == 0 {
                    return true;
                }
                let ghost pv = pairs_view(pairs@);
                assert(self@.properties == Some(pv));
                let mut i: usize = 1;
                while i < n
                    invariant
                        n == pairs@.len(),
                        pv == pairs_view(pairs@),
                        self@.properties == Some(pv),
                        1 <= i <= n,
                        forall|a: int, b: int| 0 <= a < b < i ==> lex_lt(pv[a].0, pv[b].0),
                    decreases n - i,
                {
                    if !bytes_less(pairs[i - 1].0.as_slice(), pairs[i].0.as_slice()) {
                        assert(pv[i - 1].0 == pairs@[i - 1].0@);
                        assert(pv[i as int].0 == pairs@[i as int].0@);
                        assert(!keys_ascend(pv)) by {
                            if keys_ascend(pv) {
                                assert(lex_lt(pv[i - 1].0, pv[i as int].0));
                            }
                        }
                        return false;
                    }
                    assert forall|a: int, b: int| 0 <= a < b < i + 1 implies lex_lt(
                        pv[a].0,
                        pv[b].0,
                    ) by {
                        if b == i && a < i - 1 {
                            lemma_lex_transitive(pv[a].0, pv[i - 1].0, pv[b].0);
                        }
                    }
                    i = i + 1;
                }
                true
            },
        }
    }

    /// A copy of these attributes.
    pub fn duplicate(&self) -> (r: AssetMetadata)
        ensures
            r@ == self@,
    {
        let properties = match &self.properties {
            None => None,
            Some(pairs) => {
                let mut out: Vec<(Vec<u8>, Vec<u8>)> = Vec::new();
                let mut i: usize = 0;
                while i < pairs.len()
                    invariant
                        0 <= i <= pairs@.len(),
                        out@.len() == i,
                        forall|j: int|
                            0 <= j < i ==> (#[trigger] out@[j]).0@ == pairs@[j].0@ && out@[j].1@
                                == pairs@[j].1@,
                    decreases pairs@.len() - i,
                {
                    let k = copy_bytes(&pairs[i].0);
                    let v = copy_bytes(&pairs[i].1);
                    out.push((k, v));
                    i = i + 1;
                }
                assert(pairs_view(out@) =~= pairs_view(pairs@));
                Some(out)
            },
        };
        AssetMetadata {
            name: copy_bytes(&self.name),
            content_uri: copy_bytes(&self.content_uri),
            properties,
            initial_price: self.initial_price,
        }
    }
}

} // verus!
