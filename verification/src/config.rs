//! Whitelist configuration as the operator writes it.

use vstd::prelude::*;

verus! {

/// Selector lists of one contract. A selector is the lowercase hexadecimal
/// rendering of the first four bytes of call data.
#[derive(Debug)]
pub struct Methods {
    /// Selectors that anyone may call.
    pub unrestricted: Option<Vec<String>>,
    /// Selectors that only the caller named in the call data may call.
    pub requires_authorization: Option<Vec<String>>,
}

/// The rules for one contract that the operator exposes.
#[derive(Debug)]
pub struct WhitelistEntry {
    /// The contract's address, as text.
    pub address: String,
    /// Whether every method of the contract is open to anyone.
    pub fully_whitelisted: bool,
    /// Selector-level rules, consulted when the contract is not fully open.
    pub methods: Option<Methods>,
}

/// Why a whitelist configuration was turned down.
#[derive(Debug, Clone)]
pub enum ConfigError {
    /// The entry at `index` carries `address`, which denotes no address.
    InvalidAddress { index: usize, address: String },
}

/// Whether `selector` is one of `texts`.
pub open spec fn names_selector(texts: Seq<String>, selector: Seq<char>) -> bool {
    exists|i: int| 0 <= i < texts.len() && (#[trigger] texts[i])@ == selector
}

/// Whether an optional selector list names `selector`. An absent list names
/// nothing.
pub open spec fn lists_selector(list: Option<Vec<String>>, selector: Seq<char>) -> bool {
    match list {
        Some(texts) => names_selector(texts@, selector),
        None => false,
    }
}

/// The selectors that an optional list names, as a set.
pub open spec fn selector_set(list: Option<Vec<String>>) -> Set<Seq<char>> {
    Set::new(|selector: Seq<char>| lists_selector(list, selector))
}

/// The rules for one contract as the policy reads them: selector lists are
/// sets, and an absent list is the empty set.
pub struct EntryModel {
    pub address: Seq<char>,
    pub fully_whitelisted: bool,
    pub unrestricted: Set<Seq<char>>,
    pub requires_authorization: Set<Seq<char>>,
}

impl View for WhitelistEntry {
    type V = EntryModel;

    open spec fn view(&self) -> EntryModel {
        EntryModel {
            address: self.address@,
            fully_whitelisted: self.fully_whitelisted,
            unrestricted: match self.methods {
                Some(methods) => selector_set(methods.unrestricted),
                None => Set::empty(),
            },
            requires_authorization: match self.methods {
                Some(methods) => selector_set(methods.requires_authorization),
                None => Set::empty(),
            },
        }
    }
}

/// Copies an optional selector list.
fn copy_list(list: &Option<Vec<String>>) -> (copy: Option<Vec<String>>)
    ensures
        copy is Some == list is Some,
        copy matches Some(texts) ==> texts@ == list.unwrap()@,
        selector_set(copy) == selector_set(*list),
{
    match list {
        Some(texts) => {
            let mut copy: Vec<String> = Vec::new();
            let mut i: usize = 0;
            while i < texts.len()
                invariant
                    i <= texts@.len(),
                    copy@.len() == i,
                    forall|j: int| 0 <= j < i ==> copy@[j] == texts@[j],
                decreases texts@.len() - i,
            {
                copy.push(texts[i].clone());
                i += 1;
            }
            Some(copy)
        },
        None => None,
    }
}

impl Clone for Methods {
    fn clone(&self) -> (copy: Methods)
        ensures
            selector_set(copy.unrestricted) == selector_set(self.unrestricted),
            selector_set(copy.requires_authorization) == selector_set(self.requires_authorization),
    {
        Methods {
            unrestricted: copy_list(&self.unrestricted),
            requires_authorization: copy_list(&self.requires_authorization),
        }
    }
}

impl Clone for WhitelistEntry {
    fn clone(&self) -> (copy: WhitelistEntry)
        ensures
            copy@ == self@,
    {
        let methods = match &self.methods {
            Some(methods) => Some(methods.clone()),
            None => None,
        };
        WhitelistEntry {
            address: self.address.clone(),
            fully_whitelisted: self.fully_whitelisted,
            methods,
        }
    }
}

impl Methods {
    /// Builds selector lists.
    pub fn new(
        unrestricted: Option<Vec<String>>,
        requires_authorization: Option<Vec<String>>,
    ) -> (methods: Methods)
        ensures
            methods.unrestricted == unrestricted,
            methods.requires_authorization == requires_authorization,
    {
        Methods { unrestricted, requires_authorization }
    }
}

impl WhitelistEntry {
    /// Builds the rules for one contract.
    pub fn new(address: String, fully_whitelisted: bool, methods: Option<Methods>) -> (entry:
        WhitelistEntry)
        ensures
            entry.address == address,
            entry.fully_whitelisted == fully_whitelisted,
            entry.methods == methods,
    {
        WhitelistEntry { address, fully_whitelisted, methods }
    }

    /// Whether the entry lets anyone call `selector`.
    pub fn is_unrestricted(&self, selector: &String) -> (listed: bool)
        ensures
            listed == self@.unrestricted.contains(selector@),
    {
        match &self.methods {
            Some(methods) => list_holds(&methods.unrestricted, selector),
            None => false,
        }
    }

    /// Whether the entry lets the caller named in the call data call `selector`.
    pub fn is_authorized(&self, selector: &String) -> (listed: bool)
        ensures
            listed == self@.requires_authorization.contains(selector@),
    {
        match &self.methods {
            Some(methods) => list_holds(&methods.requires_authorization, selector),
            None => false,
        }
    }
}

/// Searches an optional selector list for `selector`.
pub fn list_holds(list: &Option<Vec<String>>, selector: &String) -> (found: bool)
    ensures
        found == lists_selector(*list, selector@),
{
    match list {
        Some(texts) => {
            let mut i: usize = 0;
            while i < texts.len()
                invariant
                    *list == Some(*texts),
                    i <= texts@.len(),
                    forall|j: int| 0 <= j < i ==> (#[trigger] texts@[j])@ != selector@,
                decreases texts@.len() - i,
            {
                if texts[i] == *selector {
                    return true;
                }
                i += 1;
            }
            false
        },
        None => false,
    }
}

} // verus!
