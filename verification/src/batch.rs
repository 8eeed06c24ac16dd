//! Batch validation and aggregation.
//!
//! A batch holds exactly [`BATCH_SLOTS`] claim slots plus the count
//! `num_claims` of leading active slots. Validation confirms the count's
//! bounds, the strict ascent of active claim keys (padding keys collapse to
//! zero), the registrar emitter address of every active claim, and one shared
//! expiry cohort across active claims; aggregation sums the tier-scaled price
//! volume of active claims. A batch either validates as a whole, yielding
//! four summary values, or fails as a whole.

use vstd::prelude::*;

verus! {

/// Number of claim slots in every batch.
pub const BATCH_SLOTS: usize = 10;

/// High 32 bits of the registrar contract address
/// `0x74b4f05c75b47035bfc41bda77440f9c6c05e5ae`.
pub const REGISTRAR_ADDRESS_HI: u32 = 0x74b4f05c;

/// Low 128 bits of the registrar contract address.
pub const REGISTRAR_ADDRESS_LO: u128 = 0x75b47035bfc41bda77440f9c6c05e5ae;

/// Seconds per day: the width of one expiry cohort bucket.
pub const COHORT_SECONDS: u64 = 86400;

/// A 160-bit contract address, split into its high 32 and low 128 bits.
#[derive(Clone, Copy, Debug, PartialEq, Eq, Structural)]
pub struct EmitterAddress {
    pub hi: u32,
    pub lo: u128,
}

/// Whether `a` is the registrar contract address.
pub open spec fn is_registrar(a: EmitterAddress) -> bool {
    a.hi == REGISTRAR_ADDRESS_HI && a.lo == REGISTRAR_ADDRESS_LO
}

/// The registrar contract address every active claim must be emitted by.
pub fn registrar_address() -> (a: EmitterAddress)
    ensures
        is_registrar(a),
{
    EmitterAddress { hi: REGISTRAR_ADDRESS_HI, lo: REGISTRAR_ADDRESS_LO }
}

/// Per-slot receipt and header data, as supplied by the receipt provider:
/// the emitting contract address, the claim's expiry timestamp, its price
/// amount, the 24-byte prefix of the name payload with the payload's true
/// byte length, and the timestamp of the claim's block.
#[derive(Clone, Copy, Debug)]
pub struct ReceiptView {
    pub emitter_address: EmitterAddress,
    pub expiry_timestamp: u64,
    pub price_amount: u64,
    pub name_bytes: [u8; 24],
    pub name_byte_length: u64,
    pub block_timestamp: u64,
}

/// One batch of referral claims: per-slot log coordinates and the count of
/// leading active slots.
#[derive(Clone, Copy, Debug)]
pub struct ENSReferralInput {
    pub block_numbers: [u64; 10],
    pub tx_idxs: [u64; 10],
    pub log_idxs: [u64; 10],
    pub num_claims: usize,
}

/// The four summary values of a validated batch.
#[derive(Clone, Copy, Debug, PartialEq, Eq, Structural)]
pub struct BatchOutput {
    pub first_key: crate::key::ClaimKey,
    pub last_active_key: crate::key::ClaimKey,
    pub shared_cohort: u64,
    pub total_volume: u128,
}

/// The single failure outcome: some batch constraint is violated. No partial
/// result accompanies it.
#[derive(Clone, Copy, Debug, PartialEq, Eq, Structural)]
pub struct VerifyError;

/// The key packed from slot `i`'s log coordinates, before masking.
pub open spec fn raw_key(input: ENSReferralInput, i: int) -> crate::key::ClaimKey {
    crate::key::ClaimKey {
        block_number: input.block_numbers@[i],
        tx_index: input.tx_idxs@[i],
        log_index: input.log_idxs@[i],
    }
}

/// Slot `i`'s key after masking by its active indicator: the raw key for an
/// active slot, the zero key for a padding slot.
pub open spec fn masked_key(input: ENSReferralInput, i: int) -> crate::key::ClaimKey {
    if i < input.num_claims {
        raw_key(input, i)
    } else {
        crate::key::ClaimKey { block_number: 0, tx_index: 0, log_index: 0 }
    }
}

/// The active-count bounds: at least one claim, at most every slot.
pub open spec fn num_claims_ok(input: ENSReferralInput) -> bool {
    1 <= input.num_claims <= BATCH_SLOTS
}

/// The key-order constraint: every adjacent pair of masked keys either
/// ascends strictly or ends in a zero key. Over masked keys this enforces
/// both the strict ascent of active keys and the collapse of padding keys.
pub open spec fn keys_ordered(input: ENSReferralInput) -> bool {
    forall|i: int|
        1 <= i < BATCH_SLOTS ==> masked_key(input, i - 1).value() < #[trigger] masked_key(
            input,
            i,
        ).value() || masked_key(input, i).value() == 0
}

/// Whether slot data `r` admits a cohort value: the claim must not expire
/// before its block's timestamp.
pub open spec fn slot_cohort_defined(r: ReceiptView) -> bool {
    r.block_timestamp <= r.expiry_timestamp
}

/// The expiry cohort of slot data `r`: whole days between the block
/// timestamp and the expiry timestamp.
pub open spec fn slot_cohort(r: ReceiptView) -> int {
    (r.expiry_timestamp - r.block_timestamp) / (COHORT_SECONDS as int)
}

/// The emitter constraint: every active claim is emitted by the registrar.
pub open spec fn emitters_ok(input: ENSReferralInput, receipts: [ReceiptView; 10]) -> bool {
    forall|i: int| 0 <= i < input.num_claims ==> is_registrar(receipts@[i].emitter_address)
}

/// The cohort constraint: every active claim has a defined cohort equal to
/// the canonical cohort of slot 0.
pub open spec fn cohorts_ok(input: ENSReferralInput, receipts: [ReceiptView; 10]) -> bool {
    forall|i: int|
        0 <= i < input.num_claims ==> slot_cohort_defined(receipts@[i]) && slot_cohort(
            receipts@[i],
        ) == slot_cohort(receipts@[0])
}

/// All batch constraints together: the batch validates exactly when these
/// hold.
pub open spec fn batch_valid(input: ENSReferralInput, receipts: [ReceiptView; 10]) -> bool {
    num_claims_ok(input) && keys_ordered(input) && emitters_ok(input, receipts) && cohorts_ok(
        input,
        receipts,
    )
}

/// The tier-scaled price volume contributed by one claim's slot data.
pub open spec fn slot_volume(r: ReceiptView) -> int {
    crate::pricing::scaled_price(
        crate::strlen::estimated_len(r.name_bytes@, r.name_byte_length as int),
        r.price_amount as int,
    )
}

/// The volume accumulated over the first `n` slots, each masked by its
/// active indicator: padding slots contribute zero.
pub open spec fn volume_through(
    input: ENSReferralInput,
    receipts: [ReceiptView; 10],
    n: int,
) -> int
    decreases n,
{
    if n <= 0 {
        0
    } else {
        volume_through(input, receipts, n - 1) + (if n - 1 < input.num_claims {
            slot_volume(receipts@[n - 1])
        } else {
            0
        })
    }
}

/// The total price volume of the batch: the masked sum over all slots,
/// which is the sum over active slots alone.
pub open spec fn total_volume(input: ENSReferralInput, receipts: [ReceiptView; 10]) -> int {
    volume_through(input, receipts, BATCH_SLOTS as int)
}

/// Law: a batch validates only when its active count lies within bounds;
/// a count of zero or one above the slot count is rejected whatever the
/// rest of the batch holds.
pub proof fn lemma_bad_count_rejected(input: ENSReferralInput, receipts: [ReceiptView; 10])
    requires
        input.num_claims < 1 || input.num_claims > BATCH_SLOTS,
    ensures
        !batch_valid(input, receipts),
{
}

/// Law: in a validated batch, active claim keys with a nonzero masked value
/// ascend strictly: each such key exceeds its predecessor's.
pub proof fn lemma_active_keys_increase(
    input: ENSReferralInput,
    receipts: [ReceiptView; 10],
    i: int,
)
    requires
        batch_valid(input, receipts),
        1 <= i < input.num_claims,
        masked_key(input, i).value() != 0,
    ensures
        masked_key(input, i - 1).value() < masked_key(input, i).value(),
{
}

/// Law: a duplicate or descending nonzero key at an active position makes
/// the whole batch invalid.
pub proof fn lemma_unordered_keys_rejected(
    input: ENSReferralInput,
    receipts: [ReceiptView; 10],
    i: int,
)
    requires
        1 <= i < input.num_claims,
        input.num_claims <= BATCH_SLOTS,
        masked_key(input, i).value() != 0,
        masked_key(input, i - 1).value() >= masked_key(input, i).value(),
    ensures
        !batch_valid(input, receipts),
{
    assert(!(masked_key(input, i - 1).value() < masked_key(input, i).value() || masked_key(
        input,
        i,
    ).value() == 0));
    assert(!keys_ordered(input));
}

proof fn lemma_volume_agree(
    a: ENSReferralInput,
    ra: [ReceiptView; 10],
    b: ENSReferralInput,
    rb: [ReceiptView; 10],
    n: int,
)
    requires
        a.num_claims == b.num_claims,
        forall|i: int| 0 <= i < a.num_claims ==> ra@[i] == rb@[i],
        0 <= n,
    ensures
        volume_through(a, ra, n) == volume_through(b, rb, n),
    decreases n,
{
    if n > 0 {
        lemma_volume_agree(a, ra, b, rb, n - 1);
        if n - 1 < a.num_claims {
            assert(ra@[n - 1] == rb@[n - 1]);
        }
    }
}

/// Law: padding slots are irrelevant. Two batches that agree on the active
/// count and on every active slot's coordinates and receipt data validate
/// or fail together, carry the same masked keys, the same cohort, and the
/// same total volume — whatever garbage occupies their padding slots.
pub proof fn lemma_padding_irrelevant(
    a: ENSReferralInput,
    ra: [ReceiptView; 10],
    b: ENSReferralInput,
    rb: [ReceiptView; 10],
)
    requires
        a.num_claims == b.num_claims,
        forall|i: int|
            0 <= i < a.num_claims ==> a.block_numbers@[i] == b.block_numbers@[i] && a.tx_idxs@[i]
                == b.tx_idxs@[i] && a.log_idxs@[i] == b.log_idxs@[i],
        forall|i: int| 0 <= i < a.num_claims ==> ra@[i] == rb@[i],
    ensures
        forall|i: int| 0 <= i ==> #[trigger] masked_key(a, i) == masked_key(b, i),
        batch_valid(a, ra) == batch_valid(b, rb),
        total_volume(a, ra) == total_volume(b, rb),
        a.num_claims >= 1 ==> slot_cohort(ra@[0]) == slot_cohort(rb@[0]),
{
    assert forall|i: int| 0 <= i implies #[trigger] masked_key(a, i) == masked_key(b, i) by {
        if i < a.num_claims {
            assert(a.block_numbers@[i] == b.block_numbers@[i] && a.tx_idxs@[i] == b.tx_idxs@[i]
                && a.log_idxs@[i] == b.log_idxs@[i]);
        }
    }
    if keys_ordered(a) {
        assert forall|i: int|
            1 <= i < BATCH_SLOTS implies masked_key(b, i - 1).value() < #[trigger] masked_key(
            b,
            i,
        ).value() || masked_key(b, i).value() == 0 by {
            assert(masked_key(a, i - 1) == masked_key(b, i - 1));
            assert(masked_key(a, i) == masked_key(b, i));
        }
    }
    if keys_ordered(b) {
        assert forall|i: int|
            1 <= i < BATCH_SLOTS implies masked_key(a, i - 1).value() < #[trigger] masked_key(
            a,
            i,
        ).value() || masked_key(a, i).value() == 0 by {
            assert(masked_key(a, i - 1) == masked_key(b, i - 1));
            assert(masked_key(a, i) == masked_key(b, i));
        }
    }
    if emitters_ok(a, ra) {
        assert forall|i: int| 0 <= i < b.num_claims implies is_registrar(
            #[trigger] rb@[i].emitter_address,
        ) by {
            assert(ra@[i] == rb@[i]);
        }
    }
    if emitters_ok(b, rb) {
        assert forall|i: int| 0 <= i < a.num_claims implies is_registrar(
            #[trigger] ra@[i].emitter_address,
        ) by {
            assert(ra@[i] == rb@[i]);
        }
    }
    if a.num_claims >= 1 {
        assert(ra@[0] == rb@[0]);
    }
    if cohorts_ok(a, ra) {
        assert forall|i: int|
            0 <= i < b.num_claims implies slot_cohort_defined(#[trigger] rb@[i]) && slot_cohort(
            rb@[i],
        ) == slot_cohort(rb@[0]) by {
            assert(ra@[i] == rb@[i]);
        }
    }
    if cohorts_ok(b, rb) {
        assert forall|i: int|
            0 <= i < a.num_claims implies slot_cohort_defined(#[trigger] ra@[i]) && slot_cohort(
            ra@[i],
        ) == slot_cohort(ra@[0]) by {
            assert(ra@[i] == rb@[i]);
        }
    }
    lemma_volume_agree(a, ra, b, rb, BATCH_SLOTS as int);
}

impl ENSReferralInput {
    /// Validates this batch against the supplied per-slot receipt data and
    /// aggregates its four summary values: the (masked) key of slot 0, the
    /// key of the last active slot, the shared expiry cohort, and the total
    /// tier-scaled price volume over active claims. Returns `Err` exactly
    /// when some batch constraint is violated; no partial result is ever
    /// produced.
    pub fn compute(&self, receipts: &[ReceiptView; 10]) -> (r: Result<BatchOutput, VerifyError>)
        ensures
            r is Ok <==> batch_valid(*self, *receipts),
            r is Ok ==> r->Ok_0.first_key == masked_key(*self, 0),
            r is Ok ==> r->Ok_0.last_active_key == masked_key(*self, self.num_claims - 1),
            r is Ok ==> r->Ok_0.shared_cohort == slot_cohort(receipts@[0]),
            r is Ok ==> r->Ok_0.total_volume == total_volume(*self, *receipts),
    {
        if self.num_claims < 1 || self.num_claims > BATCH_SLOTS {
            return Err(VerifyError);
        }
        let mut keys: Vec<crate::key::ClaimKey> = Vec::new();
        for i in 0..BATCH_SLOTS
            invariant
                keys@.len() == i,
                forall|k: int| 0 <= k < i ==> keys@[k] == masked_key(*self, k),
        {
            let raw = crate::key::ClaimKey {
                block_number: self.block_numbers[i],
                tx_index: self.tx_idxs[i],
                log_index: self.log_idxs[i],
            };
            let active = crate::indicator::ind_lt(i as u64, self.num_claims as u64);
            keys.push(raw.masked(active));
        }
        for i in 1..BATCH_SLOTS
            invariant
                keys@.len() == BATCH_SLOTS,
                forall|k: int| 0 <= k < BATCH_SLOTS ==> keys@[k] == masked_key(*self, k),
                forall|k: int|
                    1 <= k < i ==> masked_key(*self, k - 1).value() < #[trigger] masked_key(
                        *self,
                        k,
                    ).value() || masked_key(*self, k).value() == 0,
        {
            let ascends = keys[i - 1].lt(&keys[i]);
            let collapses = keys[i].is_zero();
            if !(ascends || collapses) {
                assert(!(masked_key(*self, i - 1).value() < masked_key(*self, i as int).value()
                    || masked_key(*self, i as int).value() == 0));
                assert(!keys_ordered(*self));
                return Err(VerifyError);
            }
        }
        assert(keys_ordered(*self));
        let first = &receipts[0];
        if first.expiry_timestamp < first.block_timestamp {
            assert(!slot_cohort_defined(receipts@[0]));
            assert(!cohorts_ok(*self, *receipts));
            return Err(VerifyError);
        }
        let canonical: u64 = (first.expiry_timestamp - first.block_timestamp) / COHORT_SECONDS;
        let mut volume: u128 = 0;
        for i in 0..BATCH_SLOTS
            invariant
                1 <= self.num_claims,
                slot_cohort_defined(receipts@[0]),
                canonical == slot_cohort(receipts@[0]),
                forall|k: int|
                    0 <= k < i && k < self.num_claims ==> is_registrar(
                        #[trigger] receipts@[k].emitter_address,
                    ),
                forall|k: int|
                    0 <= k < i && k < self.num_claims ==> slot_cohort_defined(#[trigger] receipts@[k])
                        && slot_cohort(receipts@[k]) == slot_cohort(receipts@[0]),
                volume == volume_through(*self, *receipts, i as int),
                volume <= i * 0xffff_ffff_ffff_ffffu64,
        {
            let r = &receipts[i];
            if i < self.num_claims {
                if !(r.emitter_address.hi == REGISTRAR_ADDRESS_HI && r.emitter_address.lo
                    == REGISTRAR_ADDRESS_LO) {
                    assert(!is_registrar(receipts@[i as int].emitter_address));
                    assert(!emitters_ok(*self, *receipts));
                    return Err(VerifyError);
                }
                if r.expiry_timestamp < r.block_timestamp {
                    assert(!slot_cohort_defined(receipts@[i as int]));
                    assert(!cohorts_ok(*self, *receipts));
                    return Err(VerifyError);
                }
                let cohort = (r.expiry_timestamp - r.block_timestamp) / COHORT_SECONDS;
                if cohort != canonical {
                    assert(slot_cohort_defined(receipts@[i as int]));
                    assert(slot_cohort(receipts@[i as int]) != slot_cohort(receipts@[0]));
                    assert(!cohorts_ok(*self, *receipts));
                    return Err(VerifyError);
                }
            }
            let est = crate::strlen::estimate_name_length(&r.name_bytes, r.name_byte_length);
            let price = crate::pricing::tier_price(est, r.price_amount);
            let active = crate::indicator::ind_lt(i as u64, self.num_claims as u64);
            let contribution = crate::indicator::mask_u128(price as u128, active as u128);
            proof {
                assert(volume_through(*self, *receipts, i + 1) == volume_through(
                    *self,
                    *receipts,
                    i as int,
                ) + (if i < self.num_claims {
                    slot_volume(receipts@[i as int])
                } else {
                    0int
                }));
            }
            volume = volume + contribution;
        }
        let first_key = keys[0];
        let last_active_key = keys[self.num_claims - 1];
        Ok(
            BatchOutput {
                first_key,
                last_active_key,
                shared_cohort: canonical,
                total_volume: volume,
            },
        )
    }
}

} // verus!
