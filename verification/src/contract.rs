//! The submission and lookup operations.
//!
//! `submit_data` validates the five fields, derives the content-addressed
//! batch identifier from their canonical encoding, and records the
//! submission time under that identifier. `get_timestamp` reads the store
//! back, with `0` standing for an absent identifier.

use crate::digest::{sha256_digest, sha256_of};
use crate::encode::{
    encode_submission, spec_encode, MAX_COMPONENT_TYPE_LEN, MAX_DOC_HASH_LEN, MAX_FACILITY_ID_LEN,
    MAX_PRODUCTION_DATE_LEN,
};
use crate::errors::ContractErrors;
use crate::hexfmt::{bytes_to_hex_string, spec_hex};
use crate::store::BatchStore;
use vstd::prelude::*;

verus! {

/// A stored record: the identifier of a batch with its submission time.
pub struct Section45X {
    pub batch_id: String,
    pub timestamp: u64,
}

/// Whether every text field fits its byte-length bound. The quantity has no
/// bound beyond its 32-bit range.
pub open spec fn fields_valid(
    component_type: Seq<u8>,
    production_date: Seq<u8>,
    facility_id: Seq<u8>,
    doc_hash: Seq<u8>,
) -> bool {
    &&& component_type.len() <= MAX_COMPONENT_TYPE_LEN
    &&& production_date.len() <= MAX_PRODUCTION_DATE_LEN
    &&& facility_id.len() <= MAX_FACILITY_ID_LEN
    &&& doc_hash.len() <= MAX_DOC_HASH_LEN
}

/// The batch identifier of a field tuple: the lowercase hex rendering of the
/// SHA-256 digest of the canonical encoding. A pure function of the fields,
/// which is what makes identifiers content-addressed.
pub open spec fn spec_batch_id(
    component_type: Seq<u8>,
    production_quantity: i32,
    production_date: Seq<u8>,
    facility_id: Seq<u8>,
    doc_hash: Seq<u8>,
) -> Seq<char> {
    spec_hex(
        sha256_of(
            spec_encode(
                component_type,
                production_quantity,
                production_date,
                facility_id,
                doc_hash,
            ),
        ),
    )
}

/// Validates the five fields and derives the batch identifier, without
/// touching any store. On a length violation the error names the first
/// offending field, checked in the order component type, production date,
/// facility id, document hash.
pub fn compute_batch_id(
    component_type: &Vec<u8>,
    production_quantity: i32,
    production_date: &Vec<u8>,
    facility_id: &Vec<u8>,
    doc_hash: &Vec<u8>,
) -> (r: Result<String, ContractErrors>)
    ensures
        r is Ok <==> fields_valid(component_type@, production_date@, facility_id@, doc_hash@),
        r matches Ok(batch_id) ==> {
            &&& batch_id@.len() == 64
            &&& batch_id@ == spec_batch_id(
                component_type@,
                production_quantity,
                production_date@,
                facility_id@,
                doc_hash@,
            )
        },
        component_type@.len() > MAX_COMPONENT_TYPE_LEN ==> r == Err::<String, _>(
            ContractErrors::ComponentTypeLengthError,
        ),
        component_type@.len() <= MAX_COMPONENT_TYPE_LEN && production_date@.len()
            > MAX_PRODUCTION_DATE_LEN ==> r == Err::<String, _>(
            ContractErrors::ProductionDateLengthError,
        ),
        component_type@.len() <= MAX_COMPONENT_TYPE_LEN && production_date@.len()
            <= MAX_PRODUCTION_DATE_LEN && facility_id@.len() > MAX_FACILITY_ID_LEN ==> r
            == Err::<String, _>(ContractErrors::FacilityIdLengthError),
        component_type@.len() <= MAX_COMPONENT_TYPE_LEN && production_date@.len()
            <= MAX_PRODUCTION_DATE_LEN && facility_id@.len() <= MAX_FACILITY_ID_LEN
            && doc_hash@.len() > MAX_DOC_HASH_LEN ==> r == Err::<String, _>(
            ContractErrors::DocHashLengthError,
        ),
{
    if component_type.len() > MAX_COMPONENT_TYPE_LEN {
        return Err(ContractErrors::ComponentTypeLengthError);
    }
    if production_date.len() > MAX_PRODUCTION_DATE_LEN {
        return Err(ContractErrors::ProductionDateLengthError);
    }
    if facility_id.len() > MAX_FACILITY_ID_LEN {
        return Err(ContractErrors::FacilityIdLengthError);
    }
    if doc_hash.len() > MAX_DOC_HASH_LEN {
        return Err(ContractErrors::DocHashLengthError);
    }
    let encoded = encode_submission(
        component_type,
        production_quantity,
        production_date,
        facility_id,
        doc_hash,
    );
    let digest = sha256_digest(&encoded);
    let batch_id = bytes_to_hex_string(&digest);
    proof {
        crate::hexfmt::lemma_spec_hex_len(digest@);
    }
    Ok(batch_id)
}

/// The batch registry: the validate-encode-hash-store pipeline around an
/// injected timestamp store.
pub struct Contract {
    store: BatchStore,
}

impl View for Contract {
    type V = Map<Seq<char>, u64>;

    closed spec fn view(&self) -> Map<Seq<char>, u64> {
        self.store@
    }
}

impl Contract {
    /// The store keeps one timestamp per identifier.
    pub closed spec fn wf(&self) -> bool {
        self.store.wf()
    }

    /// A registry with nothing stored yet.
    pub fn new() -> (r: Contract)
        ensures
            r.wf(),
            r@ == Map::<Seq<char>, u64>::empty(),
    {
        Contract { store: BatchStore::new() }
    }

    /// Validates the fields, derives the batch identifier, stores `now`
    /// under it (overwriting any earlier entry) and returns it. On a length
    /// violation nothing is written and the error names the first offending
    /// field, checked in the order component type, production date, facility
    /// id, document hash.
    pub fn submit_data(
        &mut self,
        component_type: &Vec<u8>,
        production_quantity: i32,
        production_date: &Vec<u8>,
        facility_id: &Vec<u8>,
        doc_hash: &Vec<u8>,
        now: u64,
    ) -> (r: Result<String, ContractErrors>)
        requires
            old(self).wf(),
        ensures
            final(self).wf(),
            r is Ok <==> fields_valid(component_type@, production_date@, facility_id@, doc_hash@),
            r matches Ok(batch_id) ==> {
                &&& batch_id@.len() == 64
                &&& batch_id@ == spec_batch_id(
                    component_type@,
                    production_quantity,
                    production_date@,
                    facility_id@,
                    doc_hash@,
                )
                &&& final(self)@ == old(self)@.insert(batch_id@, now)
            },
            r is Err ==> *final(self) == *old(self),
            component_type@.len() > MAX_COMPONENT_TYPE_LEN ==> r == Err::<String, _>(
                ContractErrors::ComponentTypeLengthError,
            ),
            component_type@.len() <= MAX_COMPONENT_TYPE_LEN && production_date@.len()
                > MAX_PRODUCTION_DATE_LEN ==> r == Err::<String, _>(
                ContractErrors::ProductionDateLengthError,
            ),
            component_type@.len() <= MAX_COMPONENT_TYPE_LEN && production_date@.len()
                <= MAX_PRODUCTION_DATE_LEN && facility_id@.len() > MAX_FACILITY_ID_LEN ==> r
                == Err::<String, _>(ContractErrors::FacilityIdLengthError),
            component_type@.len() <= MAX_COMPONENT_TYPE_LEN && production_date@.len()
                <= MAX_PRODUCTION_DATE_LEN && facility_id@.len() <= MAX_FACILITY_ID_LEN
                && doc_hash@.len() > MAX_DOC_HASH_LEN ==> r == Err::<String, _>(
                ContractErrors::DocHashLengthError,
            ),
    {
        match compute_batch_id(
            component_type,
            production_quantity,
            production_date,
            facility_id,
            doc_hash,
        ) {
            Ok(batch_id) => {
                self.store.set(batch_id.clone(), now);
                Ok(batch_id)
            },
            Err(e) => Err(e),
        }
    }

    /// Reads the timestamp stored under `batch_id`; `0` when the identifier
    /// is unknown. Absence is a normal outcome, not an error.
    pub fn get_timestamp(&self, batch_id: &String) -> (r: u64)
        requires
            self.wf(),
        ensures
            r == if self@.contains_key(batch_id@) {
                self@[batch_id@]
            } else {
                0u64
            },
    {
        match self.store.get(batch_id) {
            Some(timestamp) => timestamp,
            None => 0,
        }
    }
}

/// Determinism: the identifier is a pure function of the five fields, so two
/// successful submissions of identical field values yield the same
/// identifier, whenever they happen and whatever the store held.
pub proof fn lemma_submit_deterministic(
    id1: Seq<char>,
    id2: Seq<char>,
    component_type: Seq<u8>,
    production_quantity: i32,
    production_date: Seq<u8>,
    facility_id: Seq<u8>,
    doc_hash: Seq<u8>,
)
    requires
        id1 == spec_batch_id(
            component_type,
            production_quantity,
            production_date,
            facility_id,
            doc_hash,
        ),
        id2 == spec_batch_id(
            component_type,
            production_quantity,
            production_date,
            facility_id,
            doc_hash,
        ),
    ensures
        id1 == id2,
{
}

/// Whether the two field tuples differ in exactly one field.
pub open spec fn single_field_changed(
    component_type1: Seq<u8>,
    production_quantity1: i32,
    production_date1: Seq<u8>,
    facility_id1: Seq<u8>,
    doc_hash1: Seq<u8>,
    component_type2: Seq<u8>,
    production_quantity2: i32,
    production_date2: Seq<u8>,
    facility_id2: Seq<u8>,
    doc_hash2: Seq<u8>,
) -> bool {
    ||| (component_type1 != component_type2 && production_quantity1 == production_quantity2
        && production_date1 == production_date2 && facility_id1 == facility_id2 && doc_hash1
        == doc_hash2)
    ||| (component_type1 == component_type2 && production_quantity1 != production_quantity2
        && production_date1 == production_date2 && facility_id1 == facility_id2 && doc_hash1
        == doc_hash2)
    ||| (component_type1 == component_type2 && production_quantity1 == production_quantity2
        && production_date1 != production_date2 && facility_id1 == facility_id2 && doc_hash1
        == doc_hash2)
    ||| (component_type1 == component_type2 && production_quantity1 == production_quantity2
        && production_date1 == production_date2 && facility_id1 != facility_id2 && doc_hash1
        == doc_hash2)
    ||| (component_type1 == component_type2 && production_quantity1 == production_quantity2
        && production_date1 == production_date2 && facility_id1 == facility_id2 && doc_hash1
        != doc_hash2)
}

/// Sensitivity: changing any single field's byte content, the quantity
/// included, changes the canonical encoding; and whenever SHA-256 maps the
/// two distinct encodings to distinct digests — collision resistance, a
/// design dependency of the outside hash that is assumed, not proved — the
/// identifiers differ as well.
pub proof fn lemma_submit_sensitive(
    component_type1: Seq<u8>,
    production_quantity1: i32,
    production_date1: Seq<u8>,
    facility_id1: Seq<u8>,
    doc_hash1: Seq<u8>,
    component_type2: Seq<u8>,
    production_quantity2: i32,
    production_date2: Seq<u8>,
    facility_id2: Seq<u8>,
    doc_hash2: Seq<u8>,
)
    requires
        single_field_changed(
            component_type1,
            production_quantity1,
            production_date1,
            facility_id1,
            doc_hash1,
            component_type2,
            production_quantity2,
            production_date2,
            facility_id2,
            doc_hash2,
        ),
    ensures
        ({
            let e1 = spec_encode(
                component_type1,
                production_quantity1,
                production_date1,
                facility_id1,
                doc_hash1,
            );
            let e2 = spec_encode(
                component_type2,
                production_quantity2,
                production_date2,
                facility_id2,
                doc_hash2,
            );
            &&& e1 != e2
            &&& sha256_of(e1) != sha256_of(e2) ==> spec_batch_id(
                component_type1,
                production_quantity1,
                production_date1,
                facility_id1,
                doc_hash1,
            ) != spec_batch_id(
                component_type2,
                production_quantity2,
                production_date2,
                facility_id2,
                doc_hash2,
            )
        }),
{
    if component_type1 != component_type2 {
        crate::encode::lemma_encode_component_type_sensitive(
            component_type1,
            component_type2,
            production_quantity1,
            production_date1,
            facility_id1,
            doc_hash1,
        );
    } else if production_quantity1 != production_quantity2 {
        crate::encode::lemma_encode_quantity_sensitive(
            component_type1,
            production_quantity1,
            production_quantity2,
            production_date1,
            facility_id1,
            doc_hash1,
        );
    } else if production_date1 != production_date2 {
        crate::encode::lemma_encode_production_date_sensitive(
            component_type1,
            production_quantity1,
            production_date1,
            production_date2,
            facility_id1,
            doc_hash1,
        );
    } else if facility_id1 != facility_id2 {
        crate::encode::lemma_encode_facility_id_sensitive(
            component_type1,
            production_quantity1,
            production_date1,
            facility_id1,
            facility_id2,
            doc_hash1,
        );
    } else {
        crate::encode::lemma_encode_doc_hash_sensitive(
            component_type1,
            production_quantity1,
            production_date1,
            facility_id1,
            doc_hash1,
            doc_hash2,
        );
    }
    let e1 = spec_encode(
        component_type1,
        production_quantity1,
        production_date1,
        facility_id1,
        doc_hash1,
    );
    let e2 = spec_encode(
        component_type2,
        production_quantity2,
        production_date2,
        facility_id2,
        doc_hash2,
    );
    if sha256_of(e1) != sha256_of(e2) && spec_hex(sha256_of(e1)) == spec_hex(sha256_of(e2)) {
        crate::hexfmt::lemma_spec_hex_injective(sha256_of(e1), sha256_of(e2));
    }
}

/// Idempotent overwrite: submitting a field tuple a second time leaves the
/// identifier unchanged and moves its stored timestamp to the second
/// submission's time, adding no other entry.
pub proof fn lemma_submit_idempotent_overwrite(
    store0: Map<Seq<char>, u64>,
    store1: Map<Seq<char>, u64>,
    store2: Map<Seq<char>, u64>,
    id: Seq<char>,
    first_time: u64,
    second_time: u64,
)
    requires
        store1 == store0.insert(id, first_time),
        store2 == store1.insert(id, second_time),
    ensures
        store2 == store0.insert(id, second_time),
        store2[id] == second_time,
        store2.dom() == store1.dom(),
{
    assert(store2 =~= store0.insert(id, second_time));
    assert(store2.dom() =~= store1.dom());
}

} // verus!
