//! Providers, service profiles and whitelist entries of the KYC whitelist.
use vstd::prelude::*;
use crate::accounts::AccountId;

verus! {

#[derive(Clone, Copy, Debug, PartialEq, Eq, Structural)]
pub enum VerificationType {
    /// Know your customer.
    KYC,
    /// Know your business.
    KYB,
}

/// A verification of an account.
#[derive(Clone, Debug, PartialEq, Eq)]
pub struct WhitelistEntry {
    /// When the account was verified.
    pub verification_date: u64,
    pub verification_type: VerificationType,
    /// The provider that verified the account.
    pub provider: String,
    /// When the identity document expires, if it does.
    pub ident_document_date_of_expiry: Option<u64>,
}

impl WhitelistEntry {
    pub fn copy(&self) -> (r: WhitelistEntry)
        ensures
            r == *self,
    {
        WhitelistEntry {
            verification_date: self.verification_date,
            verification_type: self.verification_type,
            provider: self.provider.clone(),
            ident_document_date_of_expiry: self.ident_document_date_of_expiry,
        }
    }
}

/// A whitelist entry as stored, in the version it was written.
#[derive(Clone, Debug, PartialEq, Eq)]
pub enum VersionedWhitelistEntry {
    Current(WhitelistEntry),
}

impl VersionedWhitelistEntry {
    pub fn to_whitelist_entry(self) -> (r: WhitelistEntry)
        ensures
            self matches VersionedWhitelistEntry::Current(e) && r == e,
    {
        match self {
            VersionedWhitelistEntry::Current(e) => e,
        }
    }
}

#[derive(Clone, Debug, PartialEq, Eq)]
pub struct ProviderDetails {
    pub name: String,
    pub enabled: bool,
}

/// A service that checks accounts, the account it calls from and the providers it trusts.
#[derive(Clone, Debug, PartialEq, Eq)]
pub struct ServiceProfile {
    pub service_name: String,
    pub service_account: AccountId,
    pub providers: Vec<String>,
}

impl ServiceProfile {
    pub fn copy(&self) -> (r: ServiceProfile)
        ensures
            r.service_name == self.service_name,
            r.service_account == self.service_account,
            r.providers@ == self.providers@,
    {
        let mut providers: Vec<String> = Vec::new();
        let mut i: usize = 0;
        while i < self.providers.len()
            invariant
                i <= self.providers@.len(),
                providers@ == self.providers@.subrange(0, i as int),
            decreases self.providers@.len() - i,
        {
            providers.push(self.providers[i].clone());
            i = i + 1;
            proof { assert(providers@ =~= self.providers@.subrange(0, i as int)); }
        }
        proof { assert(providers@ =~= self.providers@); }
        ServiceProfile {
            service_name: self.service_name.clone(),
            service_account: self.service_account.clone(),
            providers,
        }
    }

    /// The profile trusts the provider `name`.
    pub open spec fn uses(&self, name: Seq<char>) -> bool {
        exists|k: int| 0 <= k < self.providers@.len() && (#[trigger] self.providers@[k])@ == name
    }

    pub fn uses_provider(&self, name: &String) -> (r: bool)
        ensures
            r == self.uses(name@),
    {
        let mut i: usize = 0;
        while i < self.providers.len()
            invariant
                i <= self.providers@.len(),
                forall|k: int| 0 <= k < i ==> (#[trigger] self.providers@[k])@ != name@,
            decreases self.providers@.len() - i,
        {
            if self.providers[i] == *name {
                return true;
            }
            i = i + 1;
        }
        false
    }
}

/// The providers and service profiles of the whitelist.
#[derive(Clone, Debug, PartialEq, Eq)]
pub struct Config {
    pub providers: Vec<ProviderDetails>,
    pub service_profiles: Vec<ServiceProfile>,
    /// The profile used where a query names none.
    pub default_profile: Option<String>,
}

impl Config {
    pub fn new_empty() -> (r: Config)
        ensures
            r.providers@.len() == 0,
            r.service_profiles@.len() == 0,
            r.default_profile is None,
    {
        Config { providers: Vec::new(), service_profiles: Vec::new(), default_profile: None }
    }
}

/// The configuration as stored, in the version it was written.
#[derive(Clone, Debug, PartialEq, Eq)]
pub enum VersionedConfig {
    Current(Config),
}

impl VersionedConfig {
    pub fn to_config(self) -> (r: Config)
        ensures
            self matches VersionedConfig::Current(c) && r == c,
    {
        match self {
            VersionedConfig::Current(c) => c,
        }
    }

    pub fn to_config_mut(&mut self) -> (r: &mut Config)
        ensures
            *old(self) matches VersionedConfig::Current(c) && *r == c,
            *final(self) == VersionedConfig::Current(*final(r)),
    {
        match self {
            VersionedConfig::Current(c) => c,
        }
    }
}

/// `i` is the first position in `s` where `p` holds.
pub open spec fn first_where<T>(s: Seq<T>, p: spec_fn(T) -> bool, i: int) -> bool {
    &&& 0 <= i < s.len()
    &&& p(s[i])
    &&& forall|j: int| 0 <= j < i ==> !p(#[trigger] s[j])
}

/// The first position in `s` where `p` holds, if any.
pub open spec fn position<T>(s: Seq<T>, p: spec_fn(T) -> bool) -> Option<int> {
    if exists|i: int| first_where(s, p, i) {
        Some(choose|i: int| first_where(s, p, i))
    } else {
        None
    }
}

pub proof fn lemma_first_where<T>(s: Seq<T>, p: spec_fn(T) -> bool, i: int)
    requires
        first_where(s, p, i),
    ensures
        position(s, p) == Some(i),
{
    let k = choose|k: int| first_where(s, p, k);
    assert(first_where(s, p, k));
    assert(k == i) by {
        if k < i { assert(!p(s[k])); }
        if i < k { assert(!p(s[i])); }
    }
}

pub proof fn lemma_no_match<T>(s: Seq<T>, p: spec_fn(T) -> bool)
    requires
        forall|j: int| 0 <= j < s.len() ==> !p(#[trigger] s[j]),
    ensures
        position(s, p) is None,
{
    if exists|i: int| first_where(s, p, i) {
        let k = choose|i: int| first_where(s, p, i);
        assert(p(s[k]));
    }
}

/// Providers named `name`.
pub open spec fn provider_named(name: Seq<char>) -> spec_fn(ProviderDetails) -> bool {
    |d: ProviderDetails| d.name@ == name
}

/// Enabled providers named `name`.
pub open spec fn enabled_provider(name: Seq<char>) -> spec_fn(ProviderDetails) -> bool {
    |d: ProviderDetails| d.name@ == name && d.enabled
}

/// Profiles named `name`.
pub open spec fn profile_named(name: Seq<char>) -> spec_fn(ServiceProfile) -> bool {
    |p: ServiceProfile| p.service_name@ == name
}

/// Profiles of the service account `account`.
pub open spec fn profile_of(account: Seq<char>) -> spec_fn(ServiceProfile) -> bool {
    |p: ServiceProfile| p.service_account@ == account
}

/// Profiles that share the account or the name of `sp`.
pub open spec fn profile_clash(sp: ServiceProfile) -> spec_fn(ServiceProfile) -> bool {
    |p: ServiceProfile| p.service_account@ == sp.service_account@ || p.service_name@ == sp.service_name@
}

/// Entries of the verification `verification_type` by `provider`.
pub open spec fn entry_by(verification_type: VerificationType, provider: Seq<char>) -> spec_fn(WhitelistEntry) -> bool {
    |e: WhitelistEntry| e.provider@ == provider && e.verification_type == verification_type
}

/// The position of the first provider named `name`.
pub fn find_provider(providers: &Vec<ProviderDetails>, name: &String) -> (r: Option<usize>)
    ensures
        r matches Some(i) ==> first_where(providers@, provider_named(name@), i as int),
        r is None ==> position(providers@, provider_named(name@)) is None,
{
    let ghost p = provider_named(name@);
    let mut i: usize = 0;
    while i < providers.len()
        invariant
            i <= providers@.len(),
            p == provider_named(name@),
            forall|j: int| 0 <= j < i ==> !p(#[trigger] providers@[j]),
        decreases providers@.len() - i,
    {
        if providers[i].name == *name {
            return Some(i);
        }
        i = i + 1;
    }
    proof { lemma_no_match(providers@, p); }
    None
}

/// Whether an enabled provider is named `name`.
pub fn find_enabled_provider(providers: &Vec<ProviderDetails>, name: &String) -> (r: bool)
    ensures
        r == position(providers@, enabled_provider(name@)) is Some,
{
    let ghost p = enabled_provider(name@);
    let mut i: usize = 0;
    while i < providers.len()
        invariant
            i <= providers@.len(),
            p == enabled_provider(name@),
            forall|j: int| 0 <= j < i ==> !p(#[trigger] providers@[j]),
        decreases providers@.len() - i,
    {
        if providers[i].name == *name && providers[i].enabled {
            proof { lemma_first_where(providers@, p, i as int); }
            return true;
        }
        i = i + 1;
    }
    proof { lemma_no_match(providers@, p); }
    false
}

/// The position of the first profile where `by_name` decides: the profile named
/// `name` if so, else the profile of the account `name`.
pub fn find_profile(profiles: &Vec<ServiceProfile>, name: &String, by_name: bool) -> (r: Option<usize>)
    ensures
        by_name ==> (r matches Some(i) ==> first_where(profiles@, profile_named(name@), i as int)),
        by_name ==> (r is None ==> position(profiles@, profile_named(name@)) is None),
        !by_name ==> (r matches Some(i) ==> first_where(profiles@, profile_of(name@), i as int)),
        !by_name ==> (r is None ==> position(profiles@, profile_of(name@)) is None),
{
    let ghost p = if by_name { profile_named(name@) } else { profile_of(name@) };
    let mut i: usize = 0;
    while i < profiles.len()
        invariant
            i <= profiles@.len(),
            p == (if by_name { profile_named(name@) } else { profile_of(name@) }),
            forall|j: int| 0 <= j < i ==> !p(#[trigger] profiles@[j]),
        decreases profiles@.len() - i,
    {
        let hit = if by_name { profiles[i].service_name == *name } else { profiles[i].service_account == *name };
        if hit {
            return Some(i);
        }
        i = i + 1;
    }
    proof { lemma_no_match(profiles@, p); }
    None
}

/// Whether some profile shares the account or the name of `sp`.
pub fn find_clash(profiles: &Vec<ServiceProfile>, sp: &ServiceProfile) -> (r: bool)
    ensures
        r == position(profiles@, profile_clash(*sp)) is Some,
{
    let ghost p = profile_clash(*sp);
    let mut i: usize = 0;
    while i < profiles.len()
        invariant
            i <= profiles@.len(),
            p == profile_clash(*sp),
            forall|j: int| 0 <= j < i ==> !p(#[trigger] profiles@[j]),
        decreases profiles@.len() - i,
    {
        if profiles[i].service_account == sp.service_account || profiles[i].service_name == sp.service_name {
            proof { lemma_first_where(profiles@, p, i as int); }
            return true;
        }
        i = i + 1;
    }
    proof { lemma_no_match(profiles@, p); }
    false
}

/// The position of the first entry of the verification `verification_type` by `provider`.
pub fn find_entry_by(entries: &Vec<WhitelistEntry>, verification_type: VerificationType, provider: &String) -> (r: Option<usize>)
    ensures
        r matches Some(i) ==> first_where(entries@, entry_by(verification_type, provider@), i as int),
        r is None ==> position(entries@, entry_by(verification_type, provider@)) is None,
{
    let ghost p = entry_by(verification_type, provider@);
    let mut i: usize = 0;
    while i < entries.len()
        invariant
            i <= entries@.len(),
            p == entry_by(verification_type, provider@),
            forall|j: int| 0 <= j < i ==> !p(#[trigger] entries@[j]),
        decreases entries@.len() - i,
    {
        if entries[i].provider == *provider && entries[i].verification_type == verification_type {
            return Some(i);
        }
        i = i + 1;
    }
    proof { lemma_no_match(entries@, p); }
    None
}

} // verus!
