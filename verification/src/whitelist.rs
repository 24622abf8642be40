//! The contract whitelist and the two call policies that it answers.

use crate::address::{address_from_text, Address};
use crate::calldata::{embedded_user, get_first_user, get_selector, selector_of, CallRequest};
use crate::config::{ConfigError, EntryModel, WhitelistEntry};
use vstd::prelude::*;

verus! {

/// The rules that a list of (address, entry) pairs amounts to: the pairs are
/// taken in order, and a later pair replaces an earlier one for the same
/// address.
pub open spec fn rules_of(pairs: Seq<(Seq<u8>, EntryModel)>) -> Map<Seq<u8>, EntryModel>
    decreases pairs.len(),
{
    if pairs.len() == 0 {
        Map::empty()
    } else {
        rules_of(pairs.drop_last()).insert(pairs.last().0, pairs.last().1)
    }
}

/// The pairs of a list with each address taken by its bytes.
pub open spec fn pair_views(pairs: Seq<(Address, WhitelistEntry)>) -> Seq<(Seq<u8>, EntryModel)> {
    Seq::new(pairs.len(), |i: int| (pairs[i].0@, pairs[i].1@))
}

/// Whether the address text of every entry denotes an address.
pub open spec fn all_addresses_parse(entries: Seq<WhitelistEntry>) -> bool {
    forall|i: int|
        0 <= i < entries.len() ==> address_from_text((#[trigger] entries[i]).address@) is Some
}

/// Each entry paired with the address that its text denotes.
pub open spec fn parsed_pairs(entries: Seq<WhitelistEntry>) -> Seq<(Seq<u8>, EntryModel)> {
    Seq::new(
        entries.len(),
        |i: int| (address_from_text(entries[i].address@).unwrap(), entries[i]@),
    )
}

/// The anonymous policy. A call is permitted when it names a contract that the
/// rules list and that contract is either fully open or lists the call's
/// selector as unrestricted.
pub open spec fn permits_anonymous(
    rules: Map<Seq<u8>, EntryModel>,
    to: Option<Seq<u8>>,
    data: Option<Seq<u8>>,
) -> bool {
    match to {
        Some(contract) => rules.contains_key(contract) && (rules[contract].fully_whitelisted
            || match selector_of(data) {
            Some(selector) => rules[contract].unrestricted.contains(selector),
            None => false,
        }),
        None => false,
    }
}

/// What identity adds to the anonymous policy. The call data must embed the
/// caller's own address, and the called contract must list the call's selector
/// among those that require authorization.
pub open spec fn permits_named_caller(
    rules: Map<Seq<u8>, EntryModel>,
    to: Option<Seq<u8>>,
    data: Option<Seq<u8>>,
    identity: Seq<u8>,
) -> bool {
    &&& embedded_user(data) == Some(identity)
    &&& to matches Some(contract)
    &&& rules.contains_key(contract)
    &&& selector_of(data) matches Some(selector)
    &&& rules[contract].requires_authorization.contains(selector)
}

/// The policy for an identified caller: whatever anyone may do, and in addition
/// what the caller's identity unlocks.
pub open spec fn permits_identified(
    rules: Map<Seq<u8>, EntryModel>,
    to: Option<Seq<u8>>,
    data: Option<Seq<u8>>,
    identity: Seq<u8>,
) -> bool {
    permits_anonymous(rules, to, data) || permits_named_caller(rules, to, data, identity)
}

/// Whether the stored pairs hold each address once and are exactly `rules`.
spec fn slots_hold(
    slots: Seq<(Address, WhitelistEntry)>,
    rules: Map<Seq<u8>, EntryModel>,
) -> bool {
    &&& forall|i: int, j: int|
        0 <= i < j < slots.len() ==> (#[trigger] slots[i]).0@ != (#[trigger] slots[j]).0@
    &&& forall|i: int|
        0 <= i < slots.len() ==> rules.contains_key((#[trigger] slots[i]).0@) && rules[slots[i].0@]
            == slots[i].1@
    &&& forall|address: Seq<u8>| #[trigger]
        rules.contains_key(address) ==> exists|i: int|
            0 <= i < slots.len() && (#[trigger] slots[i]).0@ == address
}

/// An address-indexed set of rules, fixed once it is built.
pub struct ContractWhitelist {
    slots: Vec<(Address, WhitelistEntry)>,
    rules: Ghost<Map<Seq<u8>, EntryModel>>,
}

impl View for ContractWhitelist {
    type V = Map<Seq<u8>, EntryModel>;

    closed spec fn view(&self) -> Map<Seq<u8>, EntryModel> {
        self.rules@
    }
}

impl Clone for ContractWhitelist {
    fn clone(&self) -> (copy: ContractWhitelist)
        ensures
            copy@ == self@,
    {
        proof {
            use_type_invariant(self);
        }
        let mut slots: Vec<(Address, WhitelistEntry)> = Vec::new();
        let mut i: usize = 0;
        while i < self.slots.len()
            invariant
                i <= self.slots@.len(),
                slots@.len() == i,
                forall|j: int|
                    0 <= j < i ==> (#[trigger] slots@[j]).0 == self.slots@[j].0 && slots@[j].1@
                        == self.slots@[j].1@,
            decreases self.slots@.len() - i,
        {
            slots.push((self.slots[i].0, self.slots[i].1.clone()));
            i += 1;
        }
        proof {
            assert forall|address: Seq<u8>| #[trigger]
                self.rules@.contains_key(address) implies exists|k: int|
                0 <= k < slots@.len() && (#[trigger] slots@[k]).0@ == address by {
                let k = choose|k: int|
                    0 <= k < self.slots@.len() && (#[trigger] self.slots@[k]).0@ == address;
                assert(slots@[k].0@ == address);
            }
            assert forall|k: int| 0 <= k < slots@.len() implies self.rules@.contains_key(
                (#[trigger] slots@[k]).0@,
            ) && self.rules@[slots@[k].0@] == slots@[k].1@ by {
                assert(self.slots@[k].0@ == slots@[k].0@);
            }
        }
        ContractWhitelist { slots, rules: Ghost(self.rules@) }
    }
}

impl ContractWhitelist {
    /// No address is stored twice, and the stored pairs are exactly the rules.
    #[verifier::type_invariant]
    spec fn well_formed(&self) -> bool {
        slots_hold(self.slots@, self.rules@)
    }

    /// A whitelist without rules.
    pub fn empty() -> (whitelist: ContractWhitelist)
        ensures
            whitelist@ == Map::<Seq<u8>, EntryModel>::empty(),
    {
        ContractWhitelist { slots: Vec::new(), rules: Ghost(Map::empty()) }
    }

    /// The whitelist with `entry` as the rule for `address`, in place of any
    /// rule that it had for that address.
    fn with(self, address: Address, entry: WhitelistEntry) -> (whitelist: ContractWhitelist)
        ensures
            whitelist@ == self@.insert(address@, entry@),
    {
        proof {
            use_type_invariant(&self);
        }
        let ghost before = self.rules@;
        let ghost after = before.insert(address@, entry@);
        let mut slots = self.slots;
        let ghost old_slots = slots@;
        let mut i: usize = 0;
        while i < slots.len()
            invariant
                i <= slots@.len(),
                slots@ == old_slots,
                slots_hold(old_slots, before),
                before == self.rules@,
                after == before.insert(address@, entry@),
                forall|j: int| 0 <= j < i ==> (#[trigger] slots@[j]).0@ != address@,
            decreases slots@.len() - i,
        {
            if slots[i].0.same_as(&address) {
                slots.set(i, (address, entry));
                assert forall|k: int| 0 <= k < slots@.len() implies after.contains_key(
                    (#[trigger] slots@[k]).0@,
                ) && after[slots@[k].0@] == slots@[k].1@ by {
                    if k != i {
                        assert(slots@[k] == old_slots[k]);
                        assert(old_slots[k].0@ != old_slots[i as int].0@);
                    }
                }
                assert forall|a: Seq<u8>| #[trigger] after.contains_key(a) implies exists|k: int|
                    0 <= k < slots@.len() && (#[trigger] slots@[k]).0@ == a by {
                    if a == address@ {
                        assert(slots@[i as int].0@ == a);
                    } else {
                        assert(before.contains_key(a));
                        let k = choose|k: int|
                            0 <= k < old_slots.len() && (#[trigger] old_slots[k]).0@ == a;
                        assert(slots@[k].0@ == a);
                    }
                }
                return ContractWhitelist { slots, rules: Ghost(after) };
            }
            i += 1;
        }
        slots.push((address, entry));
        assert forall|k: int| 0 <= k < slots@.len() implies after.contains_key(
            (#[trigger] slots@[k]).0@,
        ) && after[slots@[k].0@] == slots@[k].1@ by {
            if k < old_slots.len() {
                assert(slots@[k] == old_slots[k]);
            }
        }
        assert forall|a: Seq<u8>| #[trigger] after.contains_key(a) implies exists|k: int|
            0 <= k < slots@.len() && (#[trigger] slots@[k]).0@ == a by {
            if a == address@ {
                assert(slots@[old_slots.len() as int].0@ == a);
            } else {
                assert(before.contains_key(a));
                let k = choose|k: int|
                    0 <= k < old_slots.len() && (#[trigger] old_slots[k]).0@ == a;
                assert(slots@[k].0@ == a);
            }
        }
        ContractWhitelist { slots, rules: Ghost(after) }
    }

    /// Builds a whitelist from pairs of an address and its rule. Where an
    /// address occurs more than once, its last pair counts.
    pub fn from_pairs(pairs: Vec<(Address, WhitelistEntry)>) -> (whitelist: ContractWhitelist)
        ensures
            whitelist@ == rules_of(pair_views(pairs@)),
    {
        let ghost all = pair_views(pairs@);
        let count = pairs.len();
        let mut whitelist = ContractWhitelist::empty();
        let mut done: usize = 0;
        for pair in it: pairs
            invariant
                done == it.index(),
                count == pairs@.len(),
                it.seq() == pairs@,
                all == pair_views(pairs@),
                whitelist@ == rules_of(all.take(done as int)),
        {
            proof {
                assert(all.take(done + 1).drop_last() =~= all.take(done as int));
            }
            let (address, entry) = pair;
            whitelist = whitelist.with(address, entry);
            done += 1;
        }
        proof {
            assert(all.take(done as int) =~= all);
        }
        whitelist
    }

    /// Builds the whitelist from configuration entries, reading each entry's
    /// address text. Entries are taken in order, so the last entry for an
    /// address counts. The first entry whose text denotes no address turns the
    /// whole configuration down.
    pub fn init(contract_whitelist: Vec<WhitelistEntry>) -> (built: Result<
        ContractWhitelist,
        ConfigError,
    >)
        ensures
            built is Ok <==> all_addresses_parse(contract_whitelist@),
            built matches Ok(whitelist) ==> whitelist@ == rules_of(
                parsed_pairs(contract_whitelist@),
            ),
            built matches Err(ConfigError::InvalidAddress { index, address }) ==> {
                &&& index < contract_whitelist@.len()
                &&& address@ == contract_whitelist@[index as int].address@
                &&& address_from_text(address@) is None
                &&& forall|j: int|
                    0 <= j < index ==> address_from_text(
                        (#[trigger] contract_whitelist@[j]).address@,
                    ) is Some
            },
    {
        let ghost entries = contract_whitelist@;
        let ghost all = parsed_pairs(entries);
        let count = contract_whitelist.len();
        let mut whitelist = ContractWhitelist::empty();
        let mut done: usize = 0;
        for entry in it: contract_whitelist
            invariant
                done == it.index(),
                count == entries.len(),
                it.seq() == entries,
                entries == contract_whitelist@,
                all == parsed_pairs(entries),
                whitelist@ == rules_of(all.take(done as int)),
                forall|j: int|
                    0 <= j < done ==> address_from_text((#[trigger] entries[j]).address@) is Some,
        {
            proof {
                assert(all.take(done + 1).drop_last() =~= all.take(done as int));
            }
            match Address::parse(entry.address.as_str()) {
                Some(address) => {
                    whitelist = whitelist.with(address, entry);
                },
                None => {
                    return Err(ConfigError::InvalidAddress { index: done, address: entry.address });
                },
            }
            done += 1;
        }
        proof {
            assert(all.take(done as int) =~= all);
        }
        Ok(whitelist)
    }

    /// Looks up the rule for `address`.
    pub fn entry(&self, address: &Address) -> (found: Option<&WhitelistEntry>)
        ensures
            found is Some <==> self@.contains_key(address@),
            found matches Some(entry) ==> entry@ == self@[address@],
    {
        proof {
            use_type_invariant(self);
        }
        let mut i: usize = 0;
        while i < self.slots.len()
            invariant
                i <= self.slots@.len(),
                slots_hold(self.slots@, self@),
                forall|j: int| 0 <= j < i ==> (#[trigger] self.slots@[j]).0@ != address@,
            decreases self.slots@.len() - i,
        {
            if self.slots[i].0.same_as(address) {
                return Some(&self.slots[i].1);
            }
            i += 1;
        }
        None
    }

    /// Whether anyone may make this call.
    ///
    /// The call must name a listed contract. A fully open contract admits every
    /// call; any other admits a call exactly when it lists the call's selector
    /// as unrestricted, so a call without a selector is turned down.
    pub fn allow_unauthorized_call(&self, req: &CallRequest) -> (allowed: bool)
        ensures
            allowed == permits_anonymous(self@, req.target(), req.payload()),
            req.to is None ==> !allowed,
            req.to matches Some(contract) ==> (!self@.contains_key(contract@) ==> !allowed),
            req.to matches Some(contract) ==> (self@.contains_key(contract@)
                && self@[contract@].fully_whitelisted ==> allowed),
            req.to matches Some(contract) ==> (self@.contains_key(contract@)
                && !self@[contract@].fully_whitelisted ==> (allowed <==> (selector_of(
                req.payload(),
            ) matches Some(selector) && self@[contract@].unrestricted.contains(selector)))),
            req.to matches Some(contract) ==> (self@.contains_key(contract@)
                && !self@[contract@].fully_whitelisted && selector_of(req.payload()) is None
                ==> !allowed),
    {
        let contract = match &req.to {
            Some(contract) => contract,
            None => {
                return false;
            },
        };
        let entry = match self.entry(contract) {
            Some(entry) => entry,
            None => {
                return false;
            },
        };
        if entry.fully_whitelisted {
            return true;
        }
        match get_selector(req) {
            Some(selector) => entry.is_unrestricted(&selector),
            None => false,
        }
    }

    /// Whether the caller known as `caller_identity` may make this call.
    ///
    /// Whatever anyone may do, an identified caller may do. Beyond that the
    /// call data must embed the caller's own address in its first argument, and
    /// the called contract must list the selector among those that require
    /// authorization. Data from which no address can be taken unlocks nothing.
    pub fn allow_authorized_call(&self, req: &CallRequest, caller_identity: &Address) -> (allowed:
        bool)
        ensures
            allowed == permits_identified(
                self@,
                req.target(),
                req.payload(),
                caller_identity@,
            ),
            permits_anonymous(self@, req.target(), req.payload()) ==> allowed,
            req.to is None ==> !allowed,
            embedded_user(req.payload()) is None ==> allowed == permits_anonymous(
                self@,
                req.target(),
                req.payload(),
            ),
            embedded_user(req.payload()) matches Some(user) ==> (user != caller_identity@
                ==> allowed == permits_anonymous(self@, req.target(), req.payload())),
    {
        if self.allow_unauthorized_call(req) {
            return true;
        }
        let user = match get_first_user(req) {
            Some(user) => user,
            None => {
                return false;
            },
        };
        if !user.same_as(caller_identity) {
            return false;
        }
        let contract = match &req.to {
            Some(contract) => contract,
            None => {
                return false;
            },
        };
        let entry = match self.entry(contract) {
            Some(entry) => entry,
            None => {
                return false;
            },
        };
        match get_selector(req) {
            Some(selector) => entry.is_authorized(&selector),
            None => false,
        }
    }
}

/// A call that names no contract is turned down under both policies, whatever
/// the rules and the caller.
pub proof fn law_contract_creation_is_denied(
    rules: Map<Seq<u8>, EntryModel>,
    data: Option<Seq<u8>>,
    identity: Seq<u8>,
)
    ensures
        !permits_anonymous(rules, None, data),
        !permits_identified(rules, None, data, identity),
{
}

/// A call to a contract that the rules do not list is turned down for an
/// anonymous caller, whatever its data.
pub proof fn law_unlisted_contract_is_denied(
    rules: Map<Seq<u8>, EntryModel>,
    contract: Seq<u8>,
    data: Option<Seq<u8>>,
)
    requires
        !rules.contains_key(contract),
    ensures
        !permits_anonymous(rules, Some(contract), data),
{
}

/// A fully open contract admits every call to it, whatever the data.
pub proof fn law_fully_whitelisted_admits_all(
    rules: Map<Seq<u8>, EntryModel>,
    contract: Seq<u8>,
    data: Option<Seq<u8>>,
)
    requires
        rules.contains_key(contract),
        rules[contract].fully_whitelisted,
    ensures
        permits_anonymous(rules, Some(contract), data),
{
}

/// A contract that is not fully open admits an anonymous call exactly when
/// the first four bytes of the data, rendered in hexadecimal, are one of its
/// unrestricted selectors.
pub proof fn law_selector_decides(
    rules: Map<Seq<u8>, EntryModel>,
    contract: Seq<u8>,
    data: Seq<u8>,
)
    requires
        rules.contains_key(contract),
        !rules[contract].fully_whitelisted,
        data.len() >= crate::calldata::SELECTOR_LEN,
    ensures
        permits_anonymous(rules, Some(contract), Some(data))
            <==> rules[contract].unrestricted.contains(
            crate::calldata::hex_lower(data.subrange(0, crate::calldata::SELECTOR_LEN as int)),
        ),
{
}

/// Identity never narrows: what the anonymous policy permits, the identified
/// policy permits for every identity.
pub proof fn law_identity_never_narrows(
    rules: Map<Seq<u8>, EntryModel>,
    to: Option<Seq<u8>>,
    data: Option<Seq<u8>>,
    identity: Seq<u8>,
)
    requires
        permits_anonymous(rules, to, data),
    ensures
        permits_identified(rules, to, data, identity),
{
}

/// Data shorter than a selector, or no data at all, is admitted only by a fully
/// open contract, under both policies.
pub proof fn law_short_data_needs_full_whitelisting(
    rules: Map<Seq<u8>, EntryModel>,
    to: Option<Seq<u8>>,
    data: Option<Seq<u8>>,
    identity: Seq<u8>,
)
    requires
        data matches Some(bytes) ==> bytes.len() < crate::calldata::SELECTOR_LEN,
    ensures
        selector_of(data) is None,
        permits_anonymous(rules, to, data) <==> (to matches Some(contract) && rules.contains_key(
            contract,
        ) && rules[contract].fully_whitelisted),
        permits_identified(rules, to, data, identity) == permits_anonymous(rules, to, data),
{
}

/// A non-zero byte in the padding of the first argument word means that no
/// caller address is taken from the data, so identity unlocks nothing.
pub proof fn law_dirty_padding_unlocks_nothing(
    rules: Map<Seq<u8>, EntryModel>,
    to: Option<Seq<u8>>,
    data: Seq<u8>,
    identity: Seq<u8>,
    at: int,
)
    requires
        crate::calldata::SELECTOR_LEN <= at < crate::calldata::USER_START,
        data[at] != 0,
    ensures
        embedded_user(Some(data)) is None,
        permits_identified(rules, to, Some(data), identity) == permits_anonymous(
            rules,
            to,
            Some(data),
        ),
{
}

/// The rules built from a list of pairs hold an address exactly when some
/// pair carries it, and give it the entry of the last such pair.
pub proof fn law_last_pair_counts(pairs: Seq<(Seq<u8>, EntryModel)>, address: Seq<u8>)
    ensures
        rules_of(pairs).contains_key(address) <==> exists|i: int|
            0 <= i < pairs.len() && (#[trigger] pairs[i]).0 == address,
        forall|i: int|
            0 <= i < pairs.len() && (#[trigger] pairs[i]).0 == address && (forall|j: int|
                i < j < pairs.len() ==> (#[trigger] pairs[j]).0 != address) ==> rules_of(
                pairs,
            )[address] == pairs[i].1,
    decreases pairs.len(),
{
    if pairs.len() > 0 {
        let front = pairs.drop_last();
        law_last_pair_counts(front, address);
        if pairs.last().0 == address {
            assert(pairs[pairs.len() - 1].0 == address);
        } else {
            if rules_of(front).contains_key(address) {
                let i = choose|i: int| 0 <= i < front.len() && (#[trigger] front[i]).0 == address;
                assert(pairs[i].0 == address);
            }
            if exists|i: int| 0 <= i < pairs.len() && (#[trigger] pairs[i]).0 == address {
                let i = choose|i: int| 0 <= i < pairs.len() && (#[trigger] pairs[i]).0 == address;
                assert(front[i].0 == address);
            }
        }
        assert forall|i: int|
            0 <= i < pairs.len() && (#[trigger] pairs[i]).0 == address && (forall|j: int|
                i < j < pairs.len() ==> (#[trigger] pairs[j]).0 != address) implies rules_of(
            pairs,
        )[address] == pairs[i].1 by {
            if i < pairs.len() - 1 {
                assert(front[i].0 == address);
                assert(pairs[pairs.len() - 1].0 != address);
                assert forall|j: int| i < j < front.len() implies (#[trigger] front[j]).0
                    != address by {
                    assert(pairs[j].0 != address);
                }
            }
        }
    }
}

} // verus!
