//! Field bounds and the canonical byte encoding of a submission.
//!
//! Each text field contributes its exact bytes, the quantity contributes its
//! four big-endian two's-complement bytes, and the five buffers are
//! concatenated in a frozen order. The order and the fixed-width quantity
//! encoding are load-bearing: every identifier is derived from this byte
//! sequence, so changing either would change every future identifier.

use vstd::prelude::*;

verus! {

/// Maximum byte length of `component_type`.
pub const MAX_COMPONENT_TYPE_LEN: usize = 64;

/// Maximum byte length of `production_date`.
pub const MAX_PRODUCTION_DATE_LEN: usize = 20;

/// Maximum byte length of `facility_id`.
pub const MAX_FACILITY_ID_LEN: usize = 64;

/// Maximum byte length of `doc_hash`.
pub const MAX_DOC_HASH_LEN: usize = 70;

/// The four big-endian two's-complement bytes of the 32-bit quantity.
pub open spec fn spec_quantity_bytes(q: i32) -> Seq<u8> {
    seq![(q >> 24) as u8, (q >> 16) as u8, (q >> 8) as u8, q as u8]
}

/// The canonical encoding: `component_type`, then the quantity bytes, then
/// `production_date`, `facility_id` and `doc_hash`, in that order.
pub open spec fn spec_encode(
    component_type: Seq<u8>,
    production_quantity: i32,
    production_date: Seq<u8>,
    facility_id: Seq<u8>,
    doc_hash: Seq<u8>,
) -> Seq<u8> {
    component_type + spec_quantity_bytes(production_quantity) + production_date + facility_id
        + doc_hash
}

/// Serializes the quantity as its four big-endian bytes.
pub fn quantity_to_bytes(q: i32) -> (r: Vec<u8>)
    ensures
        r@ == spec_quantity_bytes(q),
{
    let mut r: Vec<u8> = Vec::new();
    r.push((q >> 24) as u8);
    r.push((q >> 16) as u8);
    r.push((q >> 8) as u8);
    r.push(q as u8);
    proof {
        assert(r@ =~= spec_quantity_bytes(q));
    }
    r
}

/// Appends every byte of `src` to `dst`, in order.
fn append_bytes(dst: &mut Vec<u8>, src: &Vec<u8>)
    ensures
        final(dst)@ == old(dst)@ + src@,
{
    let mut i: usize = 0;
    while i < src.len()
        invariant
            i <= src@.len(),
            dst@ == old(dst)@ + src@.take(i as int),
        decreases src@.len() - i,
    {
        dst.push(src[i]);
        i = i + 1;
        proof {
            assert(old(dst)@ + src@.take(i as int) =~= (old(dst)@ + src@.take(i - 1)).push(
                src@[i - 1],
            ));
        }
    }
    proof {
        assert(src@.take(src@.len() as int) =~= src@);
    }
}

/// Builds the canonical byte sequence of the five fields.
pub fn encode_submission(
    component_type: &Vec<u8>,
    production_quantity: i32,
    production_date: &Vec<u8>,
    facility_id: &Vec<u8>,
    doc_hash: &Vec<u8>,
) -> (r: Vec<u8>)
    ensures
        r@ == spec_encode(
            component_type@,
            production_quantity,
            production_date@,
            facility_id@,
            doc_hash@,
        ),
{
    let mut r: Vec<u8> = Vec::new();
    append_bytes(&mut r, component_type);
    let quantity_bytes = quantity_to_bytes(production_quantity);
    append_bytes(&mut r, &quantity_bytes);
    append_bytes(&mut r, production_date);
    append_bytes(&mut r, facility_id);
    append_bytes(&mut r, doc_hash);
    proof {
        assert(Seq::<u8>::empty() + component_type@ =~= component_type@);
    }
    r
}

/// The quantity bytes determine the quantity.
proof fn lemma_quantity_bytes_injective(q1: i32, q2: i32)
    requires
        spec_quantity_bytes(q1) == spec_quantity_bytes(q2),
    ensures
        q1 == q2,
{
    assert(spec_quantity_bytes(q1)[0] == spec_quantity_bytes(q2)[0]);
    assert(spec_quantity_bytes(q1)[1] == spec_quantity_bytes(q2)[1]);
    assert(spec_quantity_bytes(q1)[2] == spec_quantity_bytes(q2)[2]);
    assert(spec_quantity_bytes(q1)[3] == spec_quantity_bytes(q2)[3]);
    assert((q1 >> 24) as u8 == (q2 >> 24) as u8 && (q1 >> 16) as u8 == (q2 >> 16) as u8 && (q1
        >> 8) as u8 == (q2 >> 8) as u8 && q1 as u8 == q2 as u8 ==> q1 == q2) by (bit_vector);
}

/// Each field sits at its fixed place in the canonical encoding, so the
/// encoding can be cut back into the five fields.
proof fn lemma_encode_parts(
    component_type: Seq<u8>,
    production_quantity: i32,
    production_date: Seq<u8>,
    facility_id: Seq<u8>,
    doc_hash: Seq<u8>,
)
    ensures
        ({
            let e = spec_encode(
                component_type,
                production_quantity,
                production_date,
                facility_id,
                doc_hash,
            );
            let n0 = component_type.len() as int;
            let n1 = n0 + 4;
            let n2 = n1 + production_date.len();
            let n3 = n2 + facility_id.len();
            let n4 = n3 + doc_hash.len();
            &&& e.len() == n4
            &&& e.subrange(0, n0) == component_type
            &&& e.subrange(n0, n1) == spec_quantity_bytes(production_quantity)
            &&& e.subrange(n1, n2) == production_date
            &&& e.subrange(n2, n3) == facility_id
            &&& e.subrange(n3, n4) == doc_hash
        }),
{
    let e = spec_encode(component_type, production_quantity, production_date, facility_id, doc_hash);
    let n0 = component_type.len() as int;
    let n1 = n0 + 4;
    let n2 = n1 + production_date.len();
    let n3 = n2 + facility_id.len();
    let n4 = n3 + doc_hash.len();
    assert(e.subrange(0, n0) =~= component_type);
    assert(e.subrange(n0, n1) =~= spec_quantity_bytes(production_quantity));
    assert(e.subrange(n1, n2) =~= production_date);
    assert(e.subrange(n2, n3) =~= facility_id);
    assert(e.subrange(n3, n4) =~= doc_hash);
}

/// Changing the component type, the other fields held fixed, changes the
/// canonical encoding.
pub proof fn lemma_encode_component_type_sensitive(
    component_type1: Seq<u8>,
    component_type2: Seq<u8>,
    production_quantity: i32,
    production_date: Seq<u8>,
    facility_id: Seq<u8>,
    doc_hash: Seq<u8>,
)
    requires
        component_type1 != component_type2,
    ensures
        spec_encode(component_type1, production_quantity, production_date, facility_id, doc_hash)
            != spec_encode(
            component_type2,
            production_quantity,
            production_date,
            facility_id,
            doc_hash,
        ),
{
    lemma_encode_parts(component_type1, production_quantity, production_date, facility_id, doc_hash);
    lemma_encode_parts(component_type2, production_quantity, production_date, facility_id, doc_hash);
}

/// Changing the quantity, the other fields held fixed, changes the
/// canonical encoding.
pub proof fn lemma_encode_quantity_sensitive(
    component_type: Seq<u8>,
    production_quantity1: i32,
    production_quantity2: i32,
    production_date: Seq<u8>,
    facility_id: Seq<u8>,
    doc_hash: Seq<u8>,
)
    requires
        production_quantity1 != production_quantity2,
    ensures
        spec_encode(component_type, production_quantity1, production_date, facility_id, doc_hash)
            != spec_encode(
            component_type,
            production_quantity2,
            production_date,
            facility_id,
            doc_hash,
        ),
{
    lemma_encode_parts(component_type, production_quantity1, production_date, facility_id, doc_hash);
    lemma_encode_parts(component_type, production_quantity2, production_date, facility_id, doc_hash);
    if spec_encode(component_type, production_quantity1, production_date, facility_id, doc_hash)
        == spec_encode(component_type, production_quantity2, production_date, facility_id, doc_hash) {
        lemma_quantity_bytes_injective(production_quantity1, production_quantity2);
    }
}

/// Changing the production date, the other fields held fixed, changes the
/// canonical encoding.
pub proof fn lemma_encode_production_date_sensitive(
    component_type: Seq<u8>,
    production_quantity: i32,
    production_date1: Seq<u8>,
    production_date2: Seq<u8>,
    facility_id: Seq<u8>,
    doc_hash: Seq<u8>,
)
    requires
        production_date1 != production_date2,
    ensures
        spec_encode(component_type, production_quantity, production_date1, facility_id, doc_hash)
            != spec_encode(
            component_type,
            production_quantity,
            production_date2,
            facility_id,
            doc_hash,
        ),
{
    lemma_encode_parts(component_type, production_quantity, production_date1, facility_id, doc_hash);
    lemma_encode_parts(component_type, production_quantity, production_date2, facility_id, doc_hash);
}

/// Changing the facility id, the other fields held fixed, changes the
/// canonical encoding.
pub proof fn lemma_encode_facility_id_sensitive(
    component_type: Seq<u8>,
    production_quantity: i32,
    production_date: Seq<u8>,
    facility_id1: Seq<u8>,
    facility_id2: Seq<u8>,
    doc_hash: Seq<u8>,
)
    requires
        facility_id1 != facility_id2,
    ensures
        spec_encode(component_type, production_quantity, production_date, facility_id1, doc_hash)
            != spec_encode(
            component_type,
            production_quantity,
            production_date,
            facility_id2,
            doc_hash,
        ),
{
    lemma_encode_parts(component_type, production_quantity, production_date, facility_id1, doc_hash);
    lemma_encode_parts(component_type, production_quantity, production_date, facility_id2, doc_hash);
}

/// Changing the document hash, the other fields held fixed, changes the
/// canonical encoding.
pub proof fn lemma_encode_doc_hash_sensitive(
    component_type: Seq<u8>,
    production_quantity: i32,
    production_date: Seq<u8>,
    facility_id: Seq<u8>,
    doc_hash1: Seq<u8>,
    doc_hash2: Seq<u8>,
)
    requires
        doc_hash1 != doc_hash2,
    ensures
        spec_encode(component_type, production_quantity, production_date, facility_id, doc_hash1)
            != spec_encode(
            component_type,
            production_quantity,
            production_date,
            facility_id,
            doc_hash2,
        ),
{
    lemma_encode_parts(component_type, production_quantity, production_date, facility_id, doc_hash1);
    lemma_encode_parts(component_type, production_quantity, production_date, facility_id, doc_hash2);
}

} // verus!
