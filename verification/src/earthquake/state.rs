//! The records of the insurance hook and their byte layouts.
//!
//! Each stored record starts with an eight-byte tag that the hook never
//! interprets. The fields follow without padding, integers least significant
//! byte first. A record can be read from and written to such a buffer as a
//! typed value, or field by field at the offsets given here.

use crate::address::Address;
use crate::bytes::{
    i64_le_bytes, le_i64, le_u64, overlay, read_i64_le, read_u64_le, u64_le_bytes, write_i64_le,
    write_u64_le,
};
use crate::bytes::{
    lemma_i64_bytes_round_trip, lemma_i64_round_trip, lemma_u64_bytes_round_trip,
    lemma_u64_round_trip,
};
use crate::earthquake::instruction::Region;
use crate::pda::flag_byte;
use vstd::prelude::*;

verus! {

/// Length of the tag in front of every stored record.
pub const RECORD_TAG_LEN: usize = 8;

/// Length of a stored configuration: tag, threshold, authority.
pub const CONFIG_LEN: usize = 48;

/// Length of a stored feed registry: tag and five addresses.
pub const REGION_FEEDS_LEN: usize = 168;

/// Length of a stored policy: tag, owner, region, claimed flag, insured
/// amount, premium, start and end of the window.
pub const USER_ACCOUNT_LEN: usize = 74;

/// Length of a stored disaster event: tag, region, magnitude, time, verified
/// flag.
pub const DISASTER_EVENT_LEN: usize = 26;

/// The least magnitude, in hundredths, that a threshold or an event may have.
pub const MIN_MAGNITUDE: u64 = 200;

/// The greatest magnitude, in hundredths, that a threshold or an event may have.
pub const MAX_MAGNITUDE: u64 = 900;

/// Whether `magnitude`, in hundredths, lies between 2.00 and 9.00.
pub open spec fn magnitude_in_range(magnitude: u64) -> bool {
    MIN_MAGNITUDE <= magnitude <= MAX_MAGNITUDE
}

/// The configuration of the hook: the threshold in hundredths and the
/// authority that may change the configuration and the registry.
#[derive(Clone, Copy, Debug, PartialEq, Eq)]
pub struct InsuranceConfig {
    pub threshold_magnitude: u64,
    pub authority: Address,
}

/// What a configuration stands for.
pub struct InsuranceConfigView {
    pub threshold_magnitude: u64,
    pub authority: Seq<u8>,
}

impl View for InsuranceConfig {
    type V = InsuranceConfigView;

    open spec fn view(&self) -> InsuranceConfigView {
        InsuranceConfigView {
            threshold_magnitude: self.threshold_magnitude,
            authority: self.authority@,
        }
    }
}

impl InsuranceConfig {
    /// A configuration is valid when its threshold lies between 2.00 and 9.00.
    pub open spec fn wf(&self) -> bool {
        magnitude_in_range(self.threshold_magnitude)
    }

    /// The configuration that the bytes of a stored record hold.
    pub open spec fn decode(data: Seq<u8>) -> InsuranceConfigView
        recommends
            data.len() >= CONFIG_LEN,
    {
        InsuranceConfigView {
            threshold_magnitude: le_u64(data.subrange(8, 16)) as u64,
            authority: data.subrange(16, 48),
        }
    }

    /// `base` with the configuration written behind its tag.
    pub open spec fn encode(config: InsuranceConfigView, base: Seq<u8>) -> Seq<u8>
        recommends
            base.len() >= CONFIG_LEN,
            config.authority.len() == 32,
    {
        overlay(overlay(base, 8, u64_le_bytes(config.threshold_magnitude as int)), 16, config.authority)
    }

    /// Reads a configuration out of a stored record, if the buffer holds one.
    pub fn unpack(data: &[u8]) -> (config: Option<InsuranceConfig>)
        ensures
            config is Some <==> data@.len() >= CONFIG_LEN,
            config matches Some(found) ==> found@ == InsuranceConfig::decode(data@),
    {
        if data.len() < CONFIG_LEN {
            return None;
        }
        let threshold_magnitude = read_u64_le(data, 8);
        let authority = Address::read(data, 16);
        Some(InsuranceConfig { threshold_magnitude, authority })
    }

    /// Writes the configuration into a stored record, behind its tag. A
    /// buffer that is too short for a record stays as it is.
    pub fn pack(&self, data: &mut Vec<u8>) -> (written: bool)
        ensures
            written == (old(data)@.len() >= CONFIG_LEN),
            final(data)@ == if written {
                InsuranceConfig::encode(self@, old(data)@)
            } else {
                old(data)@
            },
    {
        if data.len() < CONFIG_LEN {
            return false;
        }
        write_u64_le(data, 8, self.threshold_magnitude);
        self.authority.write(data, 16);
        true
    }

    /// What was written is what is read.
    pub proof fn lemma_decode_encode(config: InsuranceConfigView, base: Seq<u8>)
        requires
            base.len() >= CONFIG_LEN,
            config.authority.len() == 32,
        ensures
            InsuranceConfig::encode(config, base).len() == base.len(),
            InsuranceConfig::decode(InsuranceConfig::encode(config, base)) == config,
    {
        let stored = InsuranceConfig::encode(config, base);
        lemma_u64_round_trip(config.threshold_magnitude as int);
        assert(stored.subrange(8, 16) =~= u64_le_bytes(config.threshold_magnitude as int));
        assert(stored.subrange(16, 48) =~= config.authority);
    }

    /// A stored record is written back unchanged.
    pub proof fn lemma_encode_decode(data: Seq<u8>)
        requires
            data.len() >= CONFIG_LEN,
        ensures
            InsuranceConfig::encode(InsuranceConfig::decode(data), data) == data,
    {
        lemma_u64_bytes_round_trip(data.subrange(8, 16));
        assert(InsuranceConfig::encode(InsuranceConfig::decode(data), data) =~= data);
    }
}

/// The feed registry: for each region the address of the feed that speaks
/// for it, or the all-zero address while none was set.
#[derive(Clone, Copy, Debug, PartialEq, Eq)]
pub struct RegionFeeds {
    pub northeast_feed: Address,
    pub southeast_feed: Address,
    pub midwest_feed: Address,
    pub southwest_feed: Address,
    pub west_feed: Address,
}

impl View for RegionFeeds {
    type V = Seq<Seq<u8>>;

    /// The five slots, indexed by the tag of their region.
    open spec fn view(&self) -> Seq<Seq<u8>> {
        seq![
            self.northeast_feed@,
            self.southeast_feed@,
            self.midwest_feed@,
            self.southwest_feed@,
            self.west_feed@,
        ]
    }
}

impl RegionFeeds {
    /// The registry that the bytes of a stored record hold.
    pub open spec fn decode(data: Seq<u8>) -> Seq<Seq<u8>>
        recommends
            data.len() >= REGION_FEEDS_LEN,
    {
        Seq::new(5, |slot: int| data.subrange(8 + 32 * slot, 40 + 32 * slot))
    }

    /// `base` with the registry written behind its tag.
    pub open spec fn encode(feeds: Seq<Seq<u8>>, base: Seq<u8>) -> Seq<u8>
        recommends
            base.len() >= REGION_FEEDS_LEN,
            feeds.len() == 5,
            forall|slot: int| 0 <= slot < 5 ==> (#[trigger] feeds[slot]).len() == 32,
    {
        Seq::new(
            base.len(),
            |at: int|
                if 8 <= at < 168 {
                    feeds[(at - 8) / 32][(at - 8) % 32]
                } else {
                    base[at]
                },
        )
    }

    /// The feed registered for `region`.
    pub fn feed(&self, region: Region) -> (address: Address)
        ensures
            address@ == self@[region.spec_tag() as int],
    {
        match region {
            Region::Northeast => self.northeast_feed,
            Region::Southeast => self.southeast_feed,
            Region::Midwest => self.midwest_feed,
            Region::Southwest => self.southwest_feed,
            Region::West => self.west_feed,
        }
    }

    /// Reads a registry out of a stored record, if the buffer holds one.
    pub fn unpack(data: &[u8]) -> (feeds: Option<RegionFeeds>)
        ensures
            feeds is Some <==> data@.len() >= REGION_FEEDS_LEN,
            feeds matches Some(found) ==> found@ == RegionFeeds::decode(data@),
    {
        if data.len() < REGION_FEEDS_LEN {
            return None;
        }
        let feeds = RegionFeeds {
            northeast_feed: Address::read(data, 8),
            southeast_feed: Address::read(data, 40),
            midwest_feed: Address::read(data, 72),
            southwest_feed: Address::read(data, 104),
            west_feed: Address::read(data, 136),
        };
        assert(feeds@ =~= RegionFeeds::decode(data@));
        Some(feeds)
    }

    /// Writes the registry into a stored record, behind its tag. A buffer
    /// that is too short for a record stays as it is.
    pub fn pack(&self, data: &mut Vec<u8>) -> (written: bool)
        ensures
            written == (old(data)@.len() >= REGION_FEEDS_LEN),
            final(data)@ == if written {
                RegionFeeds::encode(self@, old(data)@)
            } else {
                old(data)@
            },
    {
        if data.len() < REGION_FEEDS_LEN {
            return false;
        }
        self.northeast_feed.write(data, 8);
        self.southeast_feed.write(data, 40);
        self.midwest_feed.write(data, 72);
        self.southwest_feed.write(data, 104);
        self.west_feed.write(data, 136);
        assert(data@ =~= RegionFeeds::encode(self@, old(data)@));
        true
    }

    /// What was written is what is read.
    pub proof fn lemma_decode_encode(feeds: Seq<Seq<u8>>, base: Seq<u8>)
        requires
            base.len() >= REGION_FEEDS_LEN,
            feeds.len() == 5,
            forall|slot: int| 0 <= slot < 5 ==> (#[trigger] feeds[slot]).len() == 32,
        ensures
            RegionFeeds::encode(feeds, base).len() == base.len(),
            RegionFeeds::decode(RegionFeeds::encode(feeds, base)) == feeds,
    {
        let stored = RegionFeeds::encode(feeds, base);
        assert forall|slot: int| 0 <= slot < 5 implies RegionFeeds::decode(stored)[slot]
            == feeds[slot] by {
            let read = stored.subrange(8 + 32 * slot, 40 + 32 * slot);
            assert forall|k: int| 0 <= k < 32 implies read[k] == feeds[slot][k] by {
                let at = 8 + 32 * slot + k;
                assert((at - 8) / 32 == slot && (at - 8) % 32 == k);
            }
            assert(read =~= feeds[slot]);
        }
        assert(RegionFeeds::decode(stored) =~= feeds);
    }

    /// A stored record is written back unchanged.
    pub proof fn lemma_encode_decode(data: Seq<u8>)
        requires
            data.len() >= REGION_FEEDS_LEN,
        ensures
            RegionFeeds::encode(RegionFeeds::decode(data), data) == data,
    {
        let stored = RegionFeeds::encode(RegionFeeds::decode(data), data);
        assert forall|at: int| 0 <= at < data.len() implies stored[at] == data[at] by {
            if 8 <= at < 168 {
                let slot = (at - 8) / 32;
                let offset = (at - 8) % 32;
                assert(RegionFeeds::decode(data)[slot][offset] == data[8 + 32 * slot + offset]);
            }
        }
        assert(stored =~= data);
    }
}

/// A policy: who holds it, for which region, whether it was claimed, what it
/// insures, what was paid for it, and the window in which it can be claimed.
#[derive(Clone, Copy, Debug, PartialEq, Eq)]
pub struct UserAccount {
    pub owner: Address,
    pub region: u8,
    pub has_claimed: bool,
    pub insurance_amount: u64,
    pub premium_paid: u64,
    pub policy_start_time: i64,
    pub policy_end_time: i64,
}

/// What a policy stands for.
pub struct UserAccountView {
    pub owner: Seq<u8>,
    pub region: u8,
    pub has_claimed: bool,
    pub insurance_amount: u64,
    pub premium_paid: u64,
    pub policy_start_time: i64,
    pub policy_end_time: i64,
}

impl UserAccountView {
    /// The same policy, claimed.
    pub open spec fn claimed(self) -> UserAccountView {
        UserAccountView { has_claimed: true, ..self }
    }
}

impl View for UserAccount {
    type V = UserAccountView;

    open spec fn view(&self) -> UserAccountView {
        UserAccountView {
            owner: self.owner@,
            region: self.region,
            has_claimed: self.has_claimed,
            insurance_amount: self.insurance_amount,
            premium_paid: self.premium_paid,
            policy_start_time: self.policy_start_time,
            policy_end_time: self.policy_end_time,
        }
    }
}

impl UserAccount {
    /// A policy is valid when its window ends after it starts.
    pub open spec fn wf(&self) -> bool {
        self.policy_end_time > self.policy_start_time
    }

    /// The policy that the bytes of a stored record hold. Any claimed byte
    /// but zero means that the policy was claimed.
    pub open spec fn decode(data: Seq<u8>) -> UserAccountView
        recommends
            data.len() >= USER_ACCOUNT_LEN,
    {
        UserAccountView {
            owner: data.subrange(8, 40),
            region: data[40],
            has_claimed: data[41] != 0,
            insurance_amount: le_u64(data.subrange(42, 50)) as u64,
            premium_paid: le_u64(data.subrange(50, 58)) as u64,
            policy_start_time: le_i64(data.subrange(58, 66)) as i64,
            policy_end_time: le_i64(data.subrange(66, 74)) as i64,
        }
    }

    /// `base` with the policy written behind its tag.
    pub open spec fn encode(policy: UserAccountView, base: Seq<u8>) -> Seq<u8>
        recommends
            base.len() >= USER_ACCOUNT_LEN,
            policy.owner.len() == 32,
    {
        let owner = overlay(base, 8, policy.owner);
        let region = owner.update(40, policy.region);
        let claimed = region.update(41, flag_byte(policy.has_claimed));
        let insured = overlay(claimed, 42, u64_le_bytes(policy.insurance_amount as int));
        let premium = overlay(insured, 50, u64_le_bytes(policy.premium_paid as int));
        let start = overlay(premium, 58, i64_le_bytes(policy.policy_start_time as int));
        overlay(start, 66, i64_le_bytes(policy.policy_end_time as int))
    }

    /// Reads a policy out of a stored record, if the buffer holds one.
    pub fn unpack(data: &[u8]) -> (policy: Option<UserAccount>)
        ensures
            policy is Some <==> data@.len() >= USER_ACCOUNT_LEN,
            policy matches Some(found) ==> found@ == UserAccount::decode(data@),
    {
        if data.len() < USER_ACCOUNT_LEN {
            return None;
        }
        Some(
            UserAccount {
                owner: Address::read(data, 8),
                region: data[40],
                has_claimed: data[41] != 0,
                insurance_amount: read_u64_le(data, 42),
                premium_paid: read_u64_le(data, 50),
                policy_start_time: read_i64_le(data, 58),
                policy_end_time: read_i64_le(data, 66),
            },
        )
    }

    /// Writes the policy into a stored record, behind its tag. A buffer that
    /// is too short for a record stays as it is.
    pub fn pack(&self, data: &mut Vec<u8>) -> (written: bool)
        ensures
            written == (old(data)@.len() >= USER_ACCOUNT_LEN),
            final(data)@ == if written {
                UserAccount::encode(self@, old(data)@)
            } else {
                old(data)@
            },
    {
        if data.len() < USER_ACCOUNT_LEN {
            return false;
        }
        self.owner.write(data, 8);
        data.set(40, self.region);
        data.set(41, if self.has_claimed { 1 } else { 0 });
        write_u64_le(data, 42, self.insurance_amount);
        write_u64_le(data, 50, self.premium_paid);
        write_i64_le(data, 58, self.policy_start_time);
        write_i64_le(data, 66, self.policy_end_time);
        true
    }

    /// What was written is what is read.
    pub proof fn lemma_decode_encode(policy: UserAccountView, base: Seq<u8>)
        requires
            base.len() >= USER_ACCOUNT_LEN,
            policy.owner.len() == 32,
        ensures
            UserAccount::encode(policy, base).len() == base.len(),
            UserAccount::decode(UserAccount::encode(policy, base)) == policy,
    {
        let stored = UserAccount::encode(policy, base);
        lemma_u64_round_trip(policy.insurance_amount as int);
        lemma_u64_round_trip(policy.premium_paid as int);
        lemma_i64_round_trip(policy.policy_start_time as int);
        lemma_i64_round_trip(policy.policy_end_time as int);
        assert(stored.subrange(8, 40) =~= policy.owner);
        assert(stored.subrange(42, 50) =~= u64_le_bytes(policy.insurance_amount as int));
        assert(stored.subrange(50, 58) =~= u64_le_bytes(policy.premium_paid as int));
        assert(stored.subrange(58, 66) =~= i64_le_bytes(policy.policy_start_time as int));
        assert(stored.subrange(66, 74) =~= i64_le_bytes(policy.policy_end_time as int));
    }

    /// A stored record whose claimed byte is 0 or 1 is written back unchanged.
    pub proof fn lemma_encode_decode(data: Seq<u8>)
        requires
            data.len() >= USER_ACCOUNT_LEN,
            data[41] <= 1,
        ensures
            UserAccount::encode(UserAccount::decode(data), data) == data,
    {
        lemma_u64_bytes_round_trip(data.subrange(42, 50));
        lemma_u64_bytes_round_trip(data.subrange(50, 58));
        lemma_i64_bytes_round_trip(data.subrange(58, 66));
        lemma_i64_bytes_round_trip(data.subrange(66, 74));
        assert(UserAccount::encode(UserAccount::decode(data), data) =~= data);
    }

    /// Marking the claimed byte of a stored record gives the bytes of the
    /// same policy, claimed.
    pub proof fn lemma_claimed_bytes(data: Seq<u8>)
        requires
            data.len() >= USER_ACCOUNT_LEN,
        ensures
            UserAccount::encode(UserAccount::decode(data).claimed(), data) == data.update(41, 1u8),
            UserAccount::decode(data.update(41, 1u8)) == UserAccount::decode(data).claimed(),
    {
        let marked = data.update(41, 1u8);
        lemma_u64_bytes_round_trip(data.subrange(42, 50));
        lemma_u64_bytes_round_trip(data.subrange(50, 58));
        lemma_i64_bytes_round_trip(data.subrange(58, 66));
        lemma_i64_bytes_round_trip(data.subrange(66, 74));
        assert(UserAccount::encode(UserAccount::decode(data).claimed(), data) =~= marked);
        assert(marked.subrange(8, 40) =~= data.subrange(8, 40));
        assert(marked.subrange(42, 50) =~= data.subrange(42, 50));
        assert(marked.subrange(50, 58) =~= data.subrange(50, 58));
        assert(marked.subrange(58, 66) =~= data.subrange(58, 66));
        assert(marked.subrange(66, 74) =~= data.subrange(66, 74));
    }
}

/// The latest disaster recorded for a region.
#[derive(Clone, Copy, Debug, PartialEq, Eq, Structural)]
pub struct DisasterEvent {
    pub region: u8,
    pub magnitude: u64,
    pub timestamp: i64,
    pub verified: bool,
}

impl DisasterEvent {
    /// A recorded event names a region, has a magnitude between 2.00 and
    /// 9.00 and is verified.
    pub open spec fn wf(&self) -> bool {
        &&& self.region < 5
        &&& magnitude_in_range(self.magnitude)
        &&& self.verified
    }

    /// The event that the bytes of a stored record hold. Any verified byte
    /// but zero means that the event is verified.
    pub open spec fn decode(data: Seq<u8>) -> DisasterEvent
        recommends
            data.len() >= DISASTER_EVENT_LEN,
    {
        DisasterEvent {
            region: data[8],
            magnitude: le_u64(data.subrange(9, 17)) as u64,
            timestamp: le_i64(data.subrange(17, 25)) as i64,
            verified: data[25] != 0,
        }
    }

    /// `base` with the event written behind its tag.
    pub open spec fn encode(event: DisasterEvent, base: Seq<u8>) -> Seq<u8>
        recommends
            base.len() >= DISASTER_EVENT_LEN,
    {
        let region = base.update(8, event.region);
        let magnitude = overlay(region, 9, u64_le_bytes(event.magnitude as int));
        let timestamp = overlay(magnitude, 17, i64_le_bytes(event.timestamp as int));
        timestamp.update(25, flag_byte(event.verified))
    }

    /// Reads an event out of a stored record, if the buffer holds one.
    pub fn unpack(data: &[u8]) -> (event: Option<DisasterEvent>)
        ensures
            event is Some <==> data@.len() >= DISASTER_EVENT_LEN,
            event matches Some(found) ==> found == DisasterEvent::decode(data@),
    {
        if data.len() < DISASTER_EVENT_LEN {
            return None;
        }
        Some(
            DisasterEvent {
                region: data[8],
                magnitude: read_u64_le(data, 9),
                timestamp: read_i64_le(data, 17),
                verified: data[25] != 0,
            },
        )
    }

    /// Writes the event into a stored record, behind its tag. A buffer that
    /// is too short for a record stays as it is.
    pub fn pack(&self, data: &mut Vec<u8>) -> (written: bool)
        ensures
            written == (old(data)@.len() >= DISASTER_EVENT_LEN),
            final(data)@ == if written {
                DisasterEvent::encode(*self, old(data)@)
            } else {
                old(data)@
            },
    {
        if data.len() < DISASTER_EVENT_LEN {
            return false;
        }
        data.set(8, self.region);
        write_u64_le(data, 9, self.magnitude);
        write_i64_le(data, 17, self.timestamp);
        data.set(25, if self.verified { 1 } else { 0 });
        true
    }

    /// What was written is what is read.
    pub proof fn lemma_decode_encode(event: DisasterEvent, base: Seq<u8>)
        requires
            base.len() >= DISASTER_EVENT_LEN,
        ensures
            DisasterEvent::encode(event, base).len() == base.len(),
            DisasterEvent::decode(DisasterEvent::encode(event, base)) == event,
    {
        let stored = DisasterEvent::encode(event, base);
        lemma_u64_round_trip(event.magnitude as int);
        lemma_i64_round_trip(event.timestamp as int);
        assert(stored.subrange(9, 17) =~= u64_le_bytes(event.magnitude as int));
        assert(stored.subrange(17, 25) =~= i64_le_bytes(event.timestamp as int));
    }
}

} // verus!
